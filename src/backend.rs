use vstd::prelude::*;
use crate::descriptor::{DeviceDescriptor, Speed};
use crate::error::IoError;

verus! {

/// What can be read from an open USB connection: its descriptors and the
/// data that arrives on an IN pipe.
pub trait Input {
    fn device_descriptor(&self) -> Result<DeviceDescriptor, IoError>;

    fn speed(&self) -> Result<Speed, IoError>;

    /// Reads one transfer from the pipe at address `pipe_index` into `buf` and
    /// returns how many bytes arrived.
    fn read_pipe(&self, pipe_index: u8, buf: &mut [u8]) -> (r: Result<usize, IoError>)
        ensures
            final(buf)@.len() == old(buf)@.len(),
            r matches Ok(n) ==> n <= old(buf)@.len(),
    ;
}

/// What can be sent over an open USB connection.
pub trait Output {
    /// Writes `buf` to the pipe at address `pipe_index` and returns how many
    /// bytes were taken.
    fn write_pipe(&self, pipe_index: u8, buf: &[u8]) -> (r: Result<usize, IoError>)
        ensures
            r matches Ok(n) ==> n <= buf@.len(),
    ;

    fn flush_pipe(&self, pipe_index: u8) -> Result<(), IoError>;
}

/// A host context (a PC, or a chip with USB on-the-go) that can list the
/// devices present and open one into a connection.
pub trait Host {
    /// Where a present device can be found (a device path).
    type Device;

    /// An open connection to a device.
    type Handle: Input + Output;

    /// The devices present, in the order the system reports them. A failure
    /// while walking the system's list ends the sequence with one error item.
    fn available(&self) -> Result<Vec<Result<Self::Device, IoError>>, IoError>;

    fn open(&self, device: &Self::Device) -> Result<Self::Handle, IoError>;
}

} // verus!
