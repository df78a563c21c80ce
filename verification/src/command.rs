use crate::backend::Backend;
use crate::error::Error;
use crate::orientation::OrientationState;
use vstd::prelude::*;

verus! {

/// The command line that asks whether a process of the given name runs.
pub open spec fn probe_line(process: Seq<char>) -> Seq<Seq<char>> {
    seq!["pidof"@, process]
}

/// The command line that lists the compositor's input devices as JSON.
pub open spec fn listing_line() -> Seq<Seq<char>> {
    seq!["swaymsg"@, "-t"@, "get_inputs"@, "--raw"@]
}

/// The command line that sets the transform of `display` to `state`.
pub open spec fn rotation_line(display: Seq<char>, state: OrientationState) -> Seq<Seq<char>> {
    seq!["swaymsg"@, "output"@, display, "transform"@, state.spec_name()]
}

/// The rotation command for the given backend, or the reason why there is none.
pub open spec fn rotation(backend: Backend, display: Seq<char>, state: OrientationState) -> Result<
    Seq<Seq<char>>,
    Error,
> {
    if backend.supports_rotation() {
        Ok(rotation_line(display, state))
    } else {
        Err(Error::UnsupportedBackend)
    }
}

/// What a keyboard's event stream is set to in the given orientation:
/// enabled in the normal orientation, disabled in every other.
pub open spec fn keyboard_mode(state: OrientationState) -> Seq<char> {
    if state == OrientationState::Normal {
        "enable"@
    } else {
        "disable"@
    }
}

/// The command line that sets the event stream of one keyboard.
pub open spec fn keyboard_line(keyboard: Seq<char>, state: OrientationState) -> Seq<Seq<char>> {
    seq!["swaymsg"@, "input"@, keyboard, "events"@, keyboard_mode(state)]
}

/// One command line for each keyboard, in the keyboards' order.
pub open spec fn keyboard_lines(keyboards: Seq<Seq<char>>, state: OrientationState) -> Seq<
    Seq<Seq<char>>,
> {
    Seq::new(keyboards.len(), |i: int| keyboard_line(keyboards[i], state))
}

/// Builds the command line that asks `pidof` for a process name.
pub fn probe_command(process: &str) -> (line: Vec<String>)
    ensures
        line.deep_view() == probe_line(process@),
{
    vec!["pidof".to_owned(), process.to_owned()]
}

/// Builds the command line that lists the compositor's input devices.
pub fn listing_command() -> (line: Vec<String>)
    ensures
        line.deep_view() == listing_line(),
{
    vec!["swaymsg".to_owned(), "-t".to_owned(), "get_inputs".to_owned(), "--raw".to_owned()]
}

/// Builds the command that rotates `display` to `new_state`. Only the
/// compositor backend can rotate; any other backend is refused.
pub fn update_sway(backend: &Backend, display: &str, new_state: OrientationState) -> (line: Result<
    Vec<String>,
    Error,
>)
    ensures
        match line {
            Ok(words) => rotation(*backend, display@, new_state) == Ok::<Seq<Seq<char>>, Error>(
                words.deep_view(),
            ),
            Err(error) => rotation(*backend, display@, new_state) == Err::<Seq<Seq<char>>, Error>(
                error,
            ),
        },
{
    if !backend.supports_rotation() {
        return Err(Error::UnsupportedBackend);
    }
    let words = vec![
        "swaymsg".to_owned(),
        "output".to_owned(),
        display.to_owned(),
        "transform".to_owned(),
        new_state.name().to_owned(),
    ];
    assert(words.deep_view() =~= rotation_line(display@, new_state));
    Ok(words)
}

/// Builds the command that enables one keyboard in the normal orientation
/// and disables it in every other.
pub fn keyboard_command(keyboard: &str, state: OrientationState) -> (line: Vec<String>)
    ensures
        line.deep_view() == keyboard_line(keyboard@, state),
{
    let mode = match state {
        OrientationState::Normal => "enable",
        _ => "disable",
    };
    vec![
        "swaymsg".to_owned(),
        "input".to_owned(),
        keyboard.to_owned(),
        "events".to_owned(),
        mode.to_owned(),
    ]
}

/// Builds the commands that bring every keyboard in line with the
/// orientation, one per keyboard and in the keyboards' order.
pub fn update_keyboards(keyboards: &Vec<String>, state: OrientationState) -> (lines: Vec<
    Vec<String>,
>)
    ensures
        lines.deep_view() == keyboard_lines(keyboards.deep_view(), state),
{
    let mut lines: Vec<Vec<String>> = Vec::new();
    let mut i: usize = 0;
    while i < keyboards.len()
        invariant
            i <= keyboards.len(),
            lines.len() == i,
            forall|j: int|
                0 <= j < i ==> (#[trigger] lines@[j]).deep_view() == keyboard_line(
                    keyboards@[j]@,
                    state,
                ),
        decreases keyboards.len() - i,
    {
        lines.push(keyboard_command(keyboards[i].as_str(), state));
        i += 1;
    }
    lines
}

/// Every keyboard is enabled in the normal orientation and disabled in any
/// other: the command for it ends in `enable` in the first case and in
/// `disable`, which is another word, in the second.
pub proof fn law_keyboards_follow_orientation(keyboard: Seq<char>, state: OrientationState)
    ensures
        state == OrientationState::Normal ==> keyboard_line(keyboard, state).last() == "enable"@,
        state != OrientationState::Normal ==> keyboard_line(keyboard, state).last() == "disable"@,
        "enable"@ != "disable"@,
{
    reveal_strlit("enable");
    reveal_strlit("disable");
}

} // verus!
