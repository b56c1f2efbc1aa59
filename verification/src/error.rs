use vstd::prelude::*;

verus! {

/// The error kinds the library reports.
///
/// `NoDisplaysFound` is fatal at construction time: there is no monitor to
/// manage.  `HardwareError` means a single DDC/CI transaction failed and is
/// surfaced to the caller without a retry.  `AlreadyRunning` is raised by the
/// daemon startup gate when the socket path is already present.
#[derive(Clone, Copy, Debug, PartialEq, Eq, Structural)]
pub enum BrightnessError {
    NoDisplaysFound,
    HardwareError,
    AlreadyRunning,
}

impl BrightnessError {
    /// A short human-readable message, used in the error reply payload.
    pub fn describe(&self) -> (r: String)
        ensures
            r@ == error_text(*self),
    {
        match self {
            BrightnessError::NoDisplaysFound => String::from_str("no DDC/CI-capable displays found"),
            BrightnessError::HardwareError => String::from_str("hardware transaction failed"),
            BrightnessError::AlreadyRunning => String::from_str("daemon already running (socket exists)"),
        }
    }
}

/// The message text of each error kind.
pub open spec fn error_text(e: BrightnessError) -> Seq<char> {
    match e {
        BrightnessError::NoDisplaysFound => "no DDC/CI-capable displays found"@,
        BrightnessError::HardwareError => "hardware transaction failed"@,
        BrightnessError::AlreadyRunning => "daemon already running (socket exists)"@,
    }
}

} // verus!
