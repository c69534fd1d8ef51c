//! Host-side USB access and the command protocol of an in-circuit debug
//! probe: device lists, open connections, command frames, firmware version
//! decoding and the target-voltage query.
use vstd::prelude::*;

pub mod backend;
pub mod command;
pub mod consts;
pub mod descriptor;
pub mod dummy;
pub mod error;
pub mod handle;
pub mod handles;
pub mod list;
pub mod setup;
pub mod text;
pub mod version;
pub mod winusb;

pub use backend::{Host, Input, Output};
pub use descriptor::{
    DeviceDescriptor, EndpointAddr, InterfaceDescriptor, ProductId, Speed, VendorId,
};
pub use error::IoError;
pub use handle::{AdcReadings, Handle, TryFromHandleError};
pub use handles::{handles, HandleList, Handles};
pub use list::{devices, DeviceIntoIter, DeviceList, Devices};
pub use version::{JtagApi, Version};

verus! {

} // verus!
