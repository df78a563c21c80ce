use crate::error::Error;
use vstd::prelude::*;

verus! {

/// The display system whose commands the daemon issues.
#[derive(Clone, Copy, Debug, PartialEq, Eq, Structural)]
pub enum Backend {
    /// The Sway compositor.
    Sway,
    /// The X.Org windowing system.
    Xorg,
}

impl Backend {
    /// Whether the screen can be rotated through this backend.
    pub open spec fn spec_supports_rotation(self) -> bool {
        self == Backend::Sway
    }

    /// Whether the screen can be rotated through this backend.
    #[verifier::when_used_as_spec(spec_supports_rotation)]
    pub fn supports_rotation(self) -> (supported: bool)
        ensures
            supported == self.spec_supports_rotation(),
    {
        match self {
            Backend::Sway => true,
            Backend::Xorg => false,
        }
    }
}

/// Whether a process list names at least one process: `pidof` prints the
/// identifiers of the processes it found and nothing when there are none.
pub open spec fn spec_process_found(pids: Seq<char>) -> bool {
    pids.len() > 0
}

/// Whether a process list names at least one process.
pub fn process_found(pids: &str) -> (found: bool)
    ensures
        found == spec_process_found(pids@),
{
    !pids.is_empty()
}

/// The backend that the running processes call for: the compositor when it
/// runs, else the windowing system when it runs under either of its names.
pub open spec fn detected(sway: bool, xorg: bool, x: bool) -> Result<Backend, Error> {
    if sway {
        Ok(Backend::Sway)
    } else if xorg || x {
        Ok(Backend::Xorg)
    } else {
        Err(Error::NoBackendDetected)
    }
}

/// Decides the backend from which of the processes `sway`, `Xorg` and `X`
/// were found running.
pub fn detect_backend(sway: bool, xorg: bool, x: bool) -> (backend: Result<Backend, Error>)
    ensures
        backend == detected(sway, xorg, x),
{
    if sway {
        Ok(Backend::Sway)
    } else if xorg || x {
        Ok(Backend::Xorg)
    } else {
        Err(Error::NoBackendDetected)
    }
}

} // verus!
