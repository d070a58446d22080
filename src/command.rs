use vstd::prelude::*;
use crate::state::DeviceState;

verus! {

/// What the caller of a controller must do next.
#[derive(Clone, Copy, Debug, PartialEq, Eq, Structural)]
pub enum Command {
    /// Ask the driver for the device's current state.
    QueryState,
    /// Load the controller's configuration into the device.
    Configure,
    /// Start the device.
    Start,
    /// Read one buffer of at most [`crate::capture::BUFFER_SIZE`] bytes.
    Read,
    /// Write bytes `from..to` of the last buffer read to the sink.
    Write { from: u64, to: u64 },
    /// Stop the device.
    Stop,
    /// Nothing is left to do: collect the result.
    Finish,
}

/// What came of the last command. `E` is the error type of the driver and
/// the sink, which the controllers pass on untouched.
#[derive(Clone, Debug, PartialEq, Eq)]
pub enum Event<E> {
    /// A configure, start or stop went through.
    Completed,
    /// The driver reported this error.
    DriverFailed(E),
    /// The sink reported this error.
    SinkFailed(E),
    /// The state that the driver reported.
    Observed(DeviceState),
    /// A read handed back this many bytes.
    BytesRead(u64),
    /// A sink write took this many bytes.
    BytesWritten(u64),
    /// The session was cancelled instead of doing the command. A capture
    /// takes a cancel only between buffers, never while a buffer is being
    /// written out.
    Cancelled,
}

} // verus!
