use crate::backend::Backend;
use crate::error::Error;
use vstd::prelude::*;

verus! {

/// What the daemon reads of one entry of the compositor's input list.
#[derive(Debug, PartialEq, Eq)]
pub struct InputDevice {
    /// The entry's `type` member, when that member is a JSON string.
    pub kind: Option<String>,
    /// The entry's `identifier` member, written out as JSON text.
    pub identifier: String,
}

/// The mathematical content of an [`InputDevice`].
pub struct InputDeviceView {
    pub kind: Option<Seq<char>>,
    pub identifier: Seq<char>,
}

impl View for InputDevice {
    type V = InputDeviceView;

    open spec fn view(&self) -> InputDeviceView {
        InputDeviceView {
            kind: match self.kind {
                Some(kind) => Some(kind@),
                None => None,
            },
            identifier: self.identifier@,
        }
    }
}

impl DeepView for InputDevice {
    type V = InputDeviceView;

    open spec fn deep_view(&self) -> InputDeviceView {
        self@
    }
}

/// The entries of an input list given as JSON text, read by the names of
/// the two members that matter: `None` when the decoder rejects the text as
/// a JSON array, be it for its form, for text behind the array or for the
/// depth of its nesting, else one device per element, in the array's order. A device's kind is the
/// member named `kind_member` where that is a JSON string, and its identifier
/// is the member named `identifier_member`, written out as JSON text.
pub uninterp spec fn listed_inputs(
    listing: Seq<char>,
    kind_member: Seq<char>,
    identifier_member: Seq<char>,
) -> Option<Seq<InputDeviceView>>;

/// Decodes the compositor's input list with `serde_json::from_str`, as a
/// vector of `serde_json::Value`. Of each element it keeps the member named
/// `kind_member`, as `Value::as_str` gives it, and the member named
/// `identifier_member`, as the value's `Display` writes it; members are
/// looked up with `Value`'s index operator, which yields null for what is not
/// there. Text that `from_str` rejects gives `None`. The contract claims only
/// that the outcome is a function of the three texts, named `listed_inputs`.
#[verifier::external_body]
fn decode_inputs(listing: &str, kind_member: &str, identifier_member: &str) -> (devices: Option<
    Vec<InputDevice>,
>)
    ensures
        match devices {
            Some(list) => listed_inputs(listing@, kind_member@, identifier_member@) == Some(
                list.deep_view(),
            ),
            None => listed_inputs(listing@, kind_member@, identifier_member@) is None,
        },
{
    let values: Vec<serde_json::Value> = serde_json::from_str(listing).ok()?;
    let mut devices = Vec::with_capacity(values.len());
    for value in values.iter() {
        devices.push(
            InputDevice {
                kind: value[kind_member].as_str().map(str::to_owned),
                identifier: value[identifier_member].to_string(),
            },
        );
    }
    Some(devices)
}

/// Whether a device is a keyboard.
pub open spec fn is_keyboard(device: InputDeviceView) -> bool {
    device.kind == Some("keyboard"@)
}

/// Whether every device of the list states its type.
pub open spec fn all_typed(devices: Seq<InputDeviceView>) -> bool {
    forall|i: int| 0 <= i < devices.len() ==> (#[trigger] devices[i]).kind is Some
}

/// The identifiers of the keyboards among the devices, in the devices' order.
pub open spec fn keyboard_identifiers(devices: Seq<InputDeviceView>) -> Seq<Seq<char>>
    decreases devices.len(),
{
    if devices.len() == 0 {
        Seq::empty()
    } else if is_keyboard(devices.last()) {
        keyboard_identifiers(devices.drop_last()).push(devices.last().identifier)
    } else {
        keyboard_identifiers(devices.drop_last())
    }
}

/// The keyboards that a list of devices holds, or `None` when some device
/// does not state its type.
pub open spec fn keyboards_in(devices: Seq<InputDeviceView>) -> Option<Seq<Seq<char>>> {
    if all_typed(devices) {
        Some(keyboard_identifiers(devices))
    } else {
        None
    }
}

/// The keyboards to toggle under the given backend, from the text of the
/// compositor's input list. The windowing system has no keyboards to toggle;
/// a list that cannot be used is a failure of the command that printed it.
pub open spec fn keyboards_of(backend: Backend, listing: Seq<char>) -> Result<
    Seq<Seq<char>>,
    Error,
> {
    match backend {
        Backend::Xorg => Ok(Seq::empty()),
        Backend::Sway => match listed_inputs(listing, "type"@, "identifier"@) {
            Some(devices) => match keyboards_in(devices) {
                Some(keyboards) => Ok(keyboards),
                None => Err(Error::ExternalCommandFailure),
            },
            None => Err(Error::ExternalCommandFailure),
        },
    }
}

/// Picks the keyboards out of a list of input devices and returns their
/// identifiers in the list's order. Gives `None` when a device does not
/// state its type.
pub fn keyboards_among(devices: &Vec<InputDevice>) -> (keyboards: Option<Vec<String>>)
    ensures
        match keyboards {
            Some(found) => keyboards_in(devices.deep_view()) == Some(found.deep_view()),
            None => keyboards_in(devices.deep_view()) is None,
        },
{
    let ghost all = devices.deep_view();
    let wanted = "keyboard".to_owned();
    let mut found: Vec<String> = Vec::new();
    let mut i: usize = 0;
    while i < devices.len()
        invariant
            i <= devices.len(),
            all == devices.deep_view(),
            wanted@ == "keyboard"@,
            all_typed(all.take(i as int)),
            found.deep_view() == keyboard_identifiers(all.take(i as int)),
        decreases devices.len() - i,
    {
        let device = &devices[i];
        let ghost before = all.take(i as int);
        let ghost after = all.take(i + 1);
        assert(after.drop_last() =~= before);
        match &device.kind {
            None => {
                assert(all[i as int].kind is None);
                return None;
            },
            Some(kind) => {
                if *kind == wanted {
                    found.push(device.identifier.clone());
                }
            },
        }
        assert forall|j: int| 0 <= j < after.len() implies (#[trigger] after[j]).kind is Some by {
            if j < i {
                assert(before[j].kind is Some);
            }
        }
        i += 1;
    }
    assert(all.take(i as int) =~= all);
    Some(found)
}

/// Lists the keyboards to toggle under the given backend. `listing` is what
/// the compositor printed when asked for its input devices; it is not looked
/// at under the windowing system, which has no keyboards to toggle.
pub fn get_keyboards(backend: &Backend, listing: &str) -> (keyboards: Result<Vec<String>, Error>)
    ensures
        match keyboards {
            Ok(found) => keyboards_of(*backend, listing@) == Ok::<Seq<Seq<char>>, Error>(
                found.deep_view(),
            ),
            Err(error) => keyboards_of(*backend, listing@) == Err::<Seq<Seq<char>>, Error>(error),
        },
{
    match backend {
        Backend::Xorg => {
            let none: Vec<String> = Vec::new();
            assert(none.deep_view() =~= Seq::<Seq<char>>::empty());
            Ok(none)
        },
        Backend::Sway => match decode_inputs(listing, "type", "identifier") {
            Some(devices) => match keyboards_among(&devices) {
                Some(found) => Ok(found),
                None => Err(Error::ExternalCommandFailure),
            },
            None => Err(Error::ExternalCommandFailure),
        },
    }
}

} // verus!
