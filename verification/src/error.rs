use vstd::prelude::*;

verus! {

/// Why a run of the daemon ended in failure. Every error is fatal to the run.
#[derive(Clone, Copy, Debug, PartialEq, Eq, Structural)]
pub enum Error {
    /// The sensor source at this position was missing or did not hold an integer.
    SensorReadFailure(usize),
    /// Neither the compositor nor a windowing system is running.
    NoBackendDetected,
    /// A rotation was asked of a backend that cannot rotate.
    UnsupportedBackend,
    /// A command could not be run, ended in failure, or gave an unusable reply.
    ExternalCommandFailure,
}

impl Error {
    /// The text that describes the error to the user.
    pub open spec fn spec_message(self) -> Seq<char> {
        match self {
            Error::SensorReadFailure(_) => "Unable to read an integer from a sensor source"@,
            Error::NoBackendDetected => "Unable to find Sway or Xorg procceses"@,
            Error::UnsupportedBackend => "Backend is not sway"@,
            Error::ExternalCommandFailure => "A display command failed"@,
        }
    }

    /// A human-readable description of the error.
    pub fn message(&self) -> (text: &'static str)
        ensures
            text@ == self.spec_message(),
    {
        match self {
            Error::SensorReadFailure(_) => "Unable to read an integer from a sensor source",
            Error::NoBackendDetected => "Unable to find Sway or Xorg procceses",
            Error::UnsupportedBackend => "Backend is not sway",
            Error::ExternalCommandFailure => "A display command failed",
        }
    }
}

} // verus!
