use vstd::prelude::*;

verus! {

/// Why an operation of the controller did not go through.
#[derive(Clone, Copy, Debug, PartialEq, Eq, Structural)]
pub enum ControlError {
    /// The device is in a state where the operation is not legal.
    WrongState,
    /// A configuration field failed validation.
    InvalidParameters,
    /// Another caller holds the device.
    DeviceBusy,
    /// The driver reported an error.
    DriverFault,
    /// Writing captured bytes to the sink failed.
    IoFault,
}

/// A failed operation: the kind of failure, and the error of the driver or
/// the sink that caused it, passed on untouched, where there is one.
#[derive(Clone, Debug, PartialEq, Eq)]
pub struct Failure<E> {
    pub kind: ControlError,
    pub cause: Option<E>,
}

/// The machine-readable reason text of each error.
pub open spec fn reason_text(e: ControlError) -> Seq<char> {
    match e {
        ControlError::WrongState => "wrong_state"@,
        ControlError::InvalidParameters => "invalid_parameters"@,
        ControlError::DeviceBusy => "device_busy"@,
        ControlError::DriverFault => "driver_fault"@,
        ControlError::IoFault => "io_fault"@,
    }
}

impl ControlError {
    /// The reason text sent back to a remote caller.
    pub fn reason(&self) -> (r: &'static str)
        ensures
            r@ == reason_text(*self),
    {
        match self {
            ControlError::WrongState => "wrong_state",
            ControlError::InvalidParameters => "invalid_parameters",
            ControlError::DeviceBusy => "device_busy",
            ControlError::DriverFault => "driver_fault",
            ControlError::IoFault => "io_fault",
        }
    }

    /// Whether the error is an expected outcome that a caller may simply retry
    /// or correct, rather than a failed session.
    pub fn is_expected(&self) -> (r: bool)
        ensures
            r == (*self is DeviceBusy || *self is InvalidParameters),
    {
        matches!(self, ControlError::DeviceBusy | ControlError::InvalidParameters)
    }
}

} // verus!
