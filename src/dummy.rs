use vstd::prelude::*;
use crate::backend::{Host, Input, Output};
use crate::descriptor::{DeviceDescriptor, Speed};
use crate::error::IoError;

verus! {

/// A host with a fixed set of named devices and no hardware behind them.
pub struct DummyHost {
    vec: Vec<&'static str>,
}

#[derive(Debug, Clone, Copy, PartialEq, Eq, Structural)]
pub struct DummyError;

/// A device of the dummy host, known by its name.
#[derive(Debug)]
pub struct DummyDevice {
    id: &'static str,
}

/// An open connection to a dummy device. It takes every byte written to it
/// and never has data to read.
#[derive(Debug)]
pub struct DummyHandle {
    id: &'static str,
}

/// The devices of a dummy host.
#[derive(Debug)]
pub struct DummyList {
    vec: Vec<DummyDevice>,
}

/// An owning cursor over the devices of a dummy host.
#[derive(Debug)]
pub struct DummyIntoIter {
    rest: Vec<DummyDevice>,
}

/// The descriptor that every dummy device reports: 66 in each field.
pub open spec fn dummy_descriptor() -> DeviceDescriptor {
    DeviceDescriptor {
        length: 66,
        descriptor_type: 66,
        bcd_usb: 66,
        device_class: 66,
        device_sub_class: 66,
        device_protocol: 66,
        max_packet_size_0: 66,
        id_vendor: 66,
        id_product: 66,
        bcd_device: 66,
        manufacturer: 66,
        product: 66,
        serial_number: 66,
        num_configurations: 66,
    }
}

impl DummyHost {
    pub closed spec fn names(&self) -> Seq<&'static str> {
        self.vec@
    }

    pub fn from(vec: Vec<&'static str>) -> (r: DummyHost)
        ensures
            r.names() == vec@,
    {
        DummyHost { vec }
    }

    /// One device for each name, in order.
    pub fn list(&self) -> (r: DummyList)
        ensures
            r.len() == self.names().len(),
            forall|i: int| 0 <= i < r.len() ==> #[trigger] r.name(i) == self.names()[i],
    {
        let mut vec: Vec<DummyDevice> = Vec::new();
        let mut i: usize = 0;
        while i < self.vec.len()
            invariant
                i <= self.vec@.len(),
                vec@.len() == i,
                forall|j: int| 0 <= j < i ==> #[trigger] vec@[j].id == self.vec@[j],
            decreases self.vec@.len() - i,
        {
            vec.push(DummyDevice { id: self.vec[i] });
            i += 1;
        }
        DummyList { vec }
    }
}

/// The dummy host with its three test devices.
pub fn new_default_host() -> (r: DummyHost)
    ensures
        r.names() == seq!["Test", "Test2", "Test3"],
{
    let mut vec: Vec<&'static str> = Vec::new();
    vec.push("Test");
    vec.push("Test2");
    vec.push("Test3");
    assert(vec@ =~= seq!["Test", "Test2", "Test3"]);
    DummyHost::from(vec)
}

impl DummyDevice {
    pub closed spec fn name(&self) -> &'static str {
        self.id
    }

    pub fn open(&self) -> (r: Result<DummyHandle, DummyError>)
        ensures
            r matches Ok(h) && h.name() == self.name(),
    {
        Ok(DummyHandle { id: self.id })
    }
}

impl DummyHandle {
    pub closed spec fn name(&self) -> &'static str {
        self.id
    }

    pub fn speed(&self) -> (r: Speed)
        ensures
            r == Speed::Low,
    {
        Speed::Low
    }

    pub fn device_descriptor(&self) -> (r: Result<DeviceDescriptor, DummyError>)
        ensures
            r == Ok::<DeviceDescriptor, DummyError>(dummy_descriptor()),
    {
        Ok(
            DeviceDescriptor {
                length: 66,
                descriptor_type: 66,
                bcd_usb: 66,
                device_class: 66,
                device_sub_class: 66,
                device_protocol: 66,
                max_packet_size_0: 66,
                id_vendor: 66,
                id_product: 66,
                bcd_device: 66,
                manufacturer: 66,
                product: 66,
                serial_number: 66,
                num_configurations: 66,
            },
        )
    }
}

impl DummyList {
    pub closed spec fn len(&self) -> int {
        self.vec@.len() as int
    }

    pub closed spec fn name(&self, i: int) -> &'static str {
        self.vec@[i].id
    }

    pub fn into_iter(self) -> (r: DummyIntoIter)
        ensures
            r.len() == self.len(),
            forall|i: int| 0 <= i < r.len() ==> #[trigger] r.name(i) == self.name(i),
    {
        DummyIntoIter { rest: self.vec }
    }
}

impl DummyIntoIter {
    pub closed spec fn len(&self) -> int {
        self.rest@.len() as int
    }

    pub closed spec fn name(&self, i: int) -> &'static str {
        self.rest@[i].id
    }

    /// The next device, always found; `None` once all were taken.
    pub fn next(&mut self) -> (r: Option<Result<DummyDevice, DummyError>>)
        ensures
            old(self).len() == 0 ==> r is None && final(self).len() == 0,
            old(self).len() > 0 ==> (r matches Some(Ok(d)) && d.name() == old(self).name(0))
                && final(self).len() == old(self).len() - 1
                && forall|i: int| 0 <= i < final(self).len() ==> #[trigger] final(self).name(i)
                    == old(self).name(i + 1),
    {
        if self.rest.len() == 0 {
            None
        } else {
            Some(Ok(self.rest.remove(0)))
        }
    }
}

impl Input for DummyHandle {
    fn device_descriptor(&self) -> Result<DeviceDescriptor, IoError> {
        match DummyHandle::device_descriptor(self) {
            Ok(d) => Ok(d),
            Err(_) => Err(IoError { code: 0 }),
        }
    }

    fn speed(&self) -> Result<Speed, IoError> {
        Ok(DummyHandle::speed(self))
    }

    fn read_pipe(&self, pipe_index: u8, buf: &mut [u8]) -> (r: Result<usize, IoError>) {
        Ok(0)
    }
}

impl Output for DummyHandle {
    fn write_pipe(&self, pipe_index: u8, buf: &[u8]) -> (r: Result<usize, IoError>) {
        Ok(buf.len())
    }

    fn flush_pipe(&self, pipe_index: u8) -> Result<(), IoError> {
        Ok(())
    }
}

impl Host for DummyHost {
    type Device = DummyDevice;

    type Handle = DummyHandle;

    fn available(&self) -> Result<Vec<Result<DummyDevice, IoError>>, IoError> {
        let mut list = self.list().into_iter();
        let mut out: Vec<Result<DummyDevice, IoError>> = Vec::new();
        loop
            decreases list.len(),
        {
            match list.next() {
                Some(Ok(d)) => out.push(Ok(d)),
                _ => break,
            }
        }
        Ok(out)
    }

    fn open(&self, device: &DummyDevice) -> Result<DummyHandle, IoError> {
        match device.open() {
            Ok(h) => Ok(h),
            Err(_) => Err(IoError { code: 0 }),
        }
    }
}

} // verus!
