use vstd::prelude::*;
use crate::version::le_u16;

verus! {

/// A USB device descriptor, field for field as the standard lays it out.
#[derive(Debug, Clone, Copy, Hash, PartialEq, Eq, Structural)]
pub struct DeviceDescriptor {
    pub length: u8,
    pub descriptor_type: u8,
    pub bcd_usb: u16,
    pub device_class: u8,
    pub device_sub_class: u8,
    pub device_protocol: u8,
    pub max_packet_size_0: u8,
    pub id_vendor: u16,
    pub id_product: u16,
    pub bcd_device: u16,
    pub manufacturer: u8,
    pub product: u8,
    pub serial_number: u8,
    pub num_configurations: u8,
}

/// A USB interface descriptor: one alternate setting of one interface.
#[derive(Debug, Clone, Copy, Hash, PartialEq, Eq, Structural)]
pub struct InterfaceDescriptor {
    pub length: u8,
    pub descriptor_type: u8,
    pub interface_number: u8,
    pub alternate_setting: u8,
    pub num_endpoints: u8,
    pub interface_class: u8,
    pub interface_subclass: u8,
    pub interface_protocol: u8,
    pub index_interface: u8,
}

#[derive(Debug, Clone, Copy, Hash, PartialEq, Eq, Structural)]
pub enum Speed {
    Unknown,
    Low,
    Full,
    High,
    Super,
}

/// A vendor id as assigned by the USB organisation.
#[derive(Debug, Clone, Copy, Hash, PartialEq, Eq, Structural)]
pub struct VendorId(pub u16);

/// A product id within a vendor's range.
#[derive(Debug, Clone, Copy, Hash, PartialEq, Eq, Structural)]
pub struct ProductId(pub u16);

/// The address of an endpoint: its number, and in the top bit its direction.
#[derive(Debug, Clone, Copy, Hash, PartialEq, Eq, Structural)]
pub struct EndpointAddr(pub u8);

impl EndpointAddr {
    /// Whether data flows from the device to the host.
    pub fn is_in(&self) -> (r: bool)
        ensures
            r == (self.0 >= 0x80),
    {
        self.0 >= 0x80
    }

    /// The endpoint number, without the direction bit.
    pub fn number(&self) -> (r: u8)
        ensures
            r == self.0 % 0x80,
    {
        self.0 % 0x80
    }
}

/// Size of a device descriptor on the wire.
pub const DEVICE_DESCRIPTOR_LEN: usize = 18;

/// Size of an interface descriptor on the wire.
pub const INTERFACE_DESCRIPTOR_LEN: usize = 9;

/// The device descriptor that the standard 18-byte record `b` holds, its
/// two-byte fields little-endian.
pub open spec fn device_descriptor_of(b: Seq<u8>) -> DeviceDescriptor {
    DeviceDescriptor {
        length: b[0],
        descriptor_type: b[1],
        bcd_usb: le_u16(b[2], b[3]),
        device_class: b[4],
        device_sub_class: b[5],
        device_protocol: b[6],
        max_packet_size_0: b[7],
        id_vendor: le_u16(b[8], b[9]),
        id_product: le_u16(b[10], b[11]),
        bcd_device: le_u16(b[12], b[13]),
        manufacturer: b[14],
        product: b[15],
        serial_number: b[16],
        num_configurations: b[17],
    }
}

/// The interface descriptor that the standard 9-byte record `b` holds.
pub open spec fn interface_descriptor_of(b: Seq<u8>) -> InterfaceDescriptor {
    InterfaceDescriptor {
        length: b[0],
        descriptor_type: b[1],
        interface_number: b[2],
        alternate_setting: b[3],
        num_endpoints: b[4],
        interface_class: b[5],
        interface_subclass: b[6],
        interface_protocol: b[7],
        index_interface: b[8],
    }
}

fn read_le_u16(lo: u8, hi: u8) -> (r: u16)
    ensures
        r == le_u16(lo, hi),
{
    (lo as u16) + (hi as u16) * 256
}

impl DeviceDescriptor {
    /// Copies the fields of a device descriptor record as the system returned
    /// it; no field is checked.
    pub fn from_bytes(b: &[u8]) -> (r: DeviceDescriptor)
        requires
            b@.len() == DEVICE_DESCRIPTOR_LEN,
        ensures
            r == device_descriptor_of(b@),
    {
        DeviceDescriptor {
            length: b[0],
            descriptor_type: b[1],
            bcd_usb: read_le_u16(b[2], b[3]),
            device_class: b[4],
            device_sub_class: b[5],
            device_protocol: b[6],
            max_packet_size_0: b[7],
            id_vendor: read_le_u16(b[8], b[9]),
            id_product: read_le_u16(b[10], b[11]),
            bcd_device: read_le_u16(b[12], b[13]),
            manufacturer: b[14],
            product: b[15],
            serial_number: b[16],
            num_configurations: b[17],
        }
    }

    pub fn vendor_id(&self) -> (r: VendorId)
        ensures
            r.0 == self.id_vendor,
    {
        VendorId(self.id_vendor)
    }

    pub fn product_id(&self) -> (r: ProductId)
        ensures
            r.0 == self.id_product,
    {
        ProductId(self.id_product)
    }
}

impl InterfaceDescriptor {
    /// Copies the fields of an interface descriptor record as the system
    /// returned it; no field is checked.
    pub fn from_bytes(b: &[u8]) -> (r: InterfaceDescriptor)
        requires
            b@.len() == INTERFACE_DESCRIPTOR_LEN,
        ensures
            r == interface_descriptor_of(b@),
    {
        InterfaceDescriptor {
            length: b[0],
            descriptor_type: b[1],
            interface_number: b[2],
            alternate_setting: b[3],
            num_endpoints: b[4],
            interface_class: b[5],
            interface_subclass: b[6],
            interface_protocol: b[7],
            index_interface: b[8],
        }
    }
}

/// The link speed that the platform's speed code stands for: 0 low, 1 full,
/// 2 high, 3 super; any other code is unknown.
pub open spec fn speed_of(code: u32) -> Speed {
    if code == 0 {
        Speed::Low
    } else if code == 1 {
        Speed::Full
    } else if code == 2 {
        Speed::High
    } else if code == 3 {
        Speed::Super
    } else {
        Speed::Unknown
    }
}

impl Speed {
    pub fn from_code(code: u32) -> (r: Speed)
        ensures
            r == speed_of(code),
    {
        match code {
            0 => Speed::Low,
            1 => Speed::Full,
            2 => Speed::High,
            3 => Speed::Super,
            _ => Speed::Unknown,
        }
    }
}

} // verus!
