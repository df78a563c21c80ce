use vstd::prelude::*;

verus! {

/// The settings of one run of the daemon. They are fixed when the run starts.
#[derive(Debug, PartialEq, Eq)]
pub struct Config {
    /// Stop after the first rotation instead of polling forever.
    pub oneshot: bool,
    /// The pause between two polls, in milliseconds.
    pub sleep: u64,
    /// The name of the display to rotate.
    pub display: String,
    /// The touchscreens bound to the display. Nothing reads them yet.
    pub touchscreen: Vec<String>,
    /// Enable and disable the keyboards along with the rotation.
    pub keyboard: bool,
}

/// The mathematical content of a [`Config`].
pub struct ConfigView {
    pub oneshot: bool,
    pub sleep: u64,
    pub display: Seq<char>,
    pub touchscreen: Seq<Seq<char>>,
    pub keyboard: bool,
}

impl View for Config {
    type V = ConfigView;

    open spec fn view(&self) -> ConfigView {
        ConfigView {
            oneshot: self.oneshot,
            sleep: self.sleep,
            display: self.display@,
            touchscreen: self.touchscreen.deep_view(),
            keyboard: self.keyboard,
        }
    }
}

impl Default for Config {
    /// Polls once a second, rotates the display `eDP-1` and leaves the
    /// keyboards alone.
    fn default() -> (config: Config)
        ensures
            config@ == (ConfigView {
                oneshot: false,
                sleep: 1000,
                display: "eDP-1"@,
                touchscreen: Seq::empty(),
                keyboard: false,
            }),
    {
        let config = Config {
            oneshot: false,
            sleep: 1000,
            display: "eDP-1".to_owned(),
            touchscreen: Vec::new(),
            keyboard: false,
        };
        assert(config.touchscreen.deep_view() =~= Seq::<Seq<char>>::empty());
        config
    }
}

} // verus!
