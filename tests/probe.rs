use nihao::handles::binding_item;
use std::cell::RefCell;
use std::collections::VecDeque;

use nihao::command::{command, command_frame, debug_command, debug_command_frame};
use nihao::consts::{STLINK_RX_EP, STLINK_TX_EP, STLINK_V2_PID, STLINK_VID};
use nihao::{
    handles, DeviceDescriptor, Handle, Host, Input, IoError, JtagApi, Output, Speed,
    TryFromHandleError,
};

fn descriptor(vid: u16, pid: u16) -> DeviceDescriptor {
    DeviceDescriptor {
        length: 18,
        descriptor_type: 1,
        bcd_usb: 0x0200,
        device_class: 0,
        device_sub_class: 0,
        device_protocol: 0,
        max_packet_size_0: 64,
        id_vendor: vid,
        id_product: pid,
        bcd_device: 0x0100,
        manufacturer: 1,
        product: 2,
        serial_number: 3,
        num_configurations: 1,
    }
}

/// A connection that answers from a script and records what it was sent.
#[derive(Debug)]
struct FakeUsb {
    name: &'static str,
    descriptor: Result<DeviceDescriptor, IoError>,
    answers: RefCell<VecDeque<Result<Vec<u8>, IoError>>>,
    sent: RefCell<Vec<(u8, Vec<u8>)>>,
}

impl FakeUsb {
    fn new(name: &'static str, vid: u16, pid: u16, answers: Vec<Result<Vec<u8>, IoError>>) -> FakeUsb {
        FakeUsb {
            name,
            descriptor: Ok(descriptor(vid, pid)),
            answers: RefCell::new(answers.into()),
            sent: RefCell::new(Vec::new()),
        }
    }
}

impl Input for FakeUsb {
    fn device_descriptor(&self) -> Result<DeviceDescriptor, IoError> {
        self.descriptor
    }

    fn speed(&self) -> Result<Speed, IoError> {
        Ok(Speed::Full)
    }

    fn read_pipe(&self, pipe_index: u8, buf: &mut [u8]) -> Result<usize, IoError> {
        assert_eq!(pipe_index, STLINK_RX_EP);
        match self.answers.borrow_mut().pop_front() {
            Some(Ok(a)) => {
                let n = a.len().min(buf.len());
                buf[..n].copy_from_slice(&a[..n]);
                Ok(n)
            }
            Some(Err(e)) => Err(e),
            None => Err(IoError { code: 31 }),
        }
    }
}

impl Output for FakeUsb {
    fn write_pipe(&self, pipe_index: u8, buf: &[u8]) -> Result<usize, IoError> {
        self.sent.borrow_mut().push((pipe_index, buf.to_vec()));
        Ok(buf.len())
    }

    fn flush_pipe(&self, _pipe_index: u8) -> Result<(), IoError> {
        Ok(())
    }
}

fn version_answer(v: u16, x: u16, y: u16) -> Vec<u8> {
    let w = (v << 12) | (x << 6) | y;
    vec![(w >> 8) as u8, w as u8, 0x83, 0x04, 0x48, 0x37]
}

fn frame(head: &[u8]) -> Vec<u8> {
    let mut f = vec![0u8; 16];
    f[..head.len()].copy_from_slice(head);
    f
}

#[test]
fn command_frames_are_sixteen_bytes() {
    assert_eq!(command_frame(0xF1, 0x80), frame(&[0xF1, 0x80]));
    assert_eq!(debug_command_frame(0x30, 0xA3), frame(&[0xF2, 0x30, 0xA3]));
}

#[test]
fn command_writes_then_reads() {
    let usb = FakeUsb::new("p", STLINK_VID, STLINK_V2_PID, vec![Ok(vec![1, 2])]);
    let r = command(&usb, 0xF5, 0, 2).unwrap();
    assert_eq!(r, vec![1, 2]);
    assert_eq!(*usb.sent.borrow(), vec![(STLINK_TX_EP, frame(&[0xF5, 0]))]);
    let usb = FakeUsb::new("p", STLINK_VID, STLINK_V2_PID, vec![Ok(vec![9; 4])]);
    assert_eq!(debug_command(&usb, 0x30, 0xA3, 4).unwrap(), vec![9; 4]);
    assert_eq!(*usb.sent.borrow(), vec![(STLINK_TX_EP, frame(&[0xF2, 0x30, 0xA3]))]);
}

#[test]
fn command_read_error_is_returned() {
    let usb = FakeUsb::new("p", STLINK_VID, STLINK_V2_PID, vec![Err(IoError { code: 22 })]);
    assert_eq!(command(&usb, 0xF5, 0, 2), Err(IoError { code: 22 }));
}

#[test]
fn binds_probe_and_reads_version() {
    let usb = FakeUsb::new("p", STLINK_VID, STLINK_V2_PID, vec![Ok(version_answer(2, 27, 6))]);
    let h = Handle::try_from(usb).unwrap();
    let ver = h.version();
    assert_eq!((ver.stlink_version, ver.jtag, ver.swim), (2, 27, 6));
    assert_eq!(ver.jtag_api, JtagApi::V2);
    assert_eq!(*h.as_ref().sent.borrow(), vec![(STLINK_TX_EP, frame(&[0xF1, 0]))]);
    assert_eq!(h.into_inner().name, "p");
}

#[test]
fn identity_mismatch_returns_device() {
    let usb = FakeUsb::new("other", 0x1234, 0x5678, vec![]);
    match Handle::try_from(usb) {
        Err((back, TryFromHandleError::InvalidVendorProductId(vid, pid))) => {
            assert_eq!((vid, pid), (0x1234, 0x5678));
            assert_eq!(back.name, "other");
            assert!(back.sent.borrow().is_empty());
            assert_eq!(back.device_descriptor().unwrap().id_vendor, 0x1234);
        }
        other => panic!("unexpected {:?}", other.map(|h| h.version())),
    }
    let usb = FakeUsb::new("v1", STLINK_VID, 0x3744, vec![]);
    assert!(matches!(
        Handle::try_from(usb),
        Err((_, TryFromHandleError::InvalidVendorProductId(0x0483, 0x3744)))
    ));
}

#[test]
fn check_identity_cases() {
    let ok = Handle::check_identity(7u8, Ok(descriptor(STLINK_VID, STLINK_V2_PID)));
    assert_eq!(ok, Ok(7u8));
    let bad = Handle::check_identity(7u8, Ok(descriptor(STLINK_VID, 0x374B)));
    assert_eq!(bad, Err((7u8, TryFromHandleError::InvalidVendorProductId(0x0483, 0x374B))));
    let failed = Handle::check_identity(7u8, Err(IoError { code: 5 }));
    assert_eq!(failed, Err((7u8, TryFromHandleError::IoError(IoError { code: 5 }))));
}

#[test]
fn descriptor_error_returns_device() {
    let mut usb = FakeUsb::new("p", STLINK_VID, STLINK_V2_PID, vec![]);
    usb.descriptor = Err(IoError { code: 1167 });
    match Handle::try_from(usb) {
        Err((back, e)) => {
            assert_eq!(e, TryFromHandleError::IoError(IoError { code: 1167 }));
            assert_eq!(back.name, "p");
        }
        Ok(_) => panic!("bound a device whose descriptor failed"),
    }
}

#[test]
fn version_read_error_returns_device() {
    let usb = FakeUsb::new("p", STLINK_VID, STLINK_V2_PID, vec![Err(IoError { code: 121 })]);
    match Handle::try_from(usb) {
        Err((back, e)) => {
            assert_eq!(e, TryFromHandleError::IoError(IoError { code: 121 }));
            assert_eq!(back.name, "p");
        }
        Ok(_) => panic!("bound a probe without a version"),
    }
}

#[test]
fn unknown_major_version_is_an_error() {
    let usb = FakeUsb::new("p", STLINK_VID, STLINK_V2_PID, vec![Ok(version_answer(5, 27, 6))]);
    assert!(matches!(Handle::try_from(usb), Err((_, TryFromHandleError::UnsupportedVersion(5)))));
}

#[test]
fn voltage_needs_trace_support() {
    let usb = FakeUsb::new("p", STLINK_VID, STLINK_V2_PID, vec![Ok(version_answer(2, 12, 6))]);
    let h = Handle::try_from(usb).unwrap();
    assert_eq!(h.get_voltage(), Ok(None));
    assert_eq!(h.as_ref().sent.borrow().len(), 1);
}

#[test]
fn voltage_query_reads_two_readings() {
    let answer = vec![0x40, 0x42, 0x0F, 0x00, 0x68, 0x89, 0x09, 0x00];
    let usb = FakeUsb::new(
        "p",
        STLINK_VID,
        STLINK_V2_PID,
        vec![Ok(version_answer(2, 27, 6)), Ok(answer)],
    );
    let h = Handle::try_from(usb).unwrap();
    let a = h.get_voltage().unwrap().unwrap();
    assert_eq!((a.reference, a.target), (1000000, 625000));
    let (num, den) = a.voltage_fraction();
    assert_eq!(num as f32 / den as f32, 1.5);
    assert_eq!(h.as_ref().sent.borrow()[1], (STLINK_TX_EP, frame(&[0xF7, 0])));
}

#[test]
fn mode_is_first_answer_byte() {
    let usb = FakeUsb::new(
        "p",
        STLINK_VID,
        STLINK_V2_PID,
        vec![Ok(version_answer(2, 27, 6)), Ok(vec![3, 0])],
    );
    let h = Handle::try_from(usb).unwrap();
    assert_eq!(h.get_mode(), Ok(3));
    assert_eq!(h.as_ref().sent.borrow()[1], (STLINK_TX_EP, frame(&[0xF5, 0])));
}

/// A host whose devices are scripted connections; a name starting with `!`
/// cannot be opened.
struct FakeHost {
    devices: Vec<Result<(&'static str, u16, u16, Vec<u8>), IoError>>,
}

impl Host for FakeHost {
    type Device = (&'static str, u16, u16, Vec<u8>);
    type Handle = FakeUsb;

    fn available(&self) -> Result<Vec<Result<Self::Device, IoError>>, IoError> {
        Ok(self.devices.clone())
    }

    fn open(&self, device: &Self::Device) -> Result<FakeUsb, IoError> {
        if device.0.starts_with('!') {
            return Err(IoError { code: 5 });
        }
        let answers = if device.3.is_empty() { vec![] } else { vec![Ok(device.3.clone())] };
        Ok(FakeUsb::new(device.0, device.1, device.2, answers))
    }
}

#[test]
fn handles_skip_other_devices() {
    let host = FakeHost {
        devices: vec![
            Ok(("mouse", 0x046D, 0xC077, vec![])),
            Ok(("!locked", STLINK_VID, STLINK_V2_PID, version_answer(2, 27, 6))),
            Ok(("a", STLINK_VID, STLINK_V2_PID, version_answer(2, 27, 6))),
            Ok(("b", STLINK_VID, STLINK_V2_PID, version_answer(3, 2, 1))),
        ],
    };
    let list = handles(host).unwrap();
    assert_eq!(list.len(), 4);
    let mut it = list.iter();
    let a = it.next().unwrap().unwrap();
    assert_eq!(a.as_ref().name, "a");
    let b = it.next().unwrap().unwrap();
    assert_eq!(b.version().jtag_api, JtagApi::V3);
    assert!(it.next().is_none());
    assert!(it.next().is_none());
    let mut again = list.iter();
    assert_eq!(again.next().unwrap().unwrap().as_ref().name, "a");
}

#[test]
fn handles_stop_at_error_item() {
    let host = FakeHost {
        devices: vec![
            Ok(("a", STLINK_VID, STLINK_V2_PID, version_answer(2, 27, 6))),
            Err(IoError { code: 13 }),
            Ok(("b", STLINK_VID, STLINK_V2_PID, version_answer(2, 27, 6))),
        ],
    };
    let list = handles(host).unwrap();
    assert_eq!(list.len(), 2);
    let mut it = list.iter();
    assert!(it.next().unwrap().is_ok());
    assert_eq!(it.next().unwrap().err(), Some(IoError { code: 13 }));
    assert!(it.next().is_none());
    assert!(it.next().is_none());
}

#[test]
fn binding_outcomes() {
    let r: Result<Handle<u8>, (u8, TryFromHandleError)> =
        Err((1, TryFromHandleError::IoError(IoError { code: 4 })));
    assert_eq!(binding_item(r).map(|x| x.err()), Some(Some(IoError { code: 4 })));
    let r: Result<Handle<u8>, (u8, TryFromHandleError)> =
        Err((1, TryFromHandleError::InvalidVendorProductId(1, 2)));
    assert!(binding_item(r).is_none());
    let r: Result<Handle<u8>, (u8, TryFromHandleError)> =
        Err((1, TryFromHandleError::UnsupportedVersion(7)));
    assert!(binding_item(r).is_none());
    let ver = nihao::version::decode_version(&version_answer(2, 27, 6)).unwrap();
    let h = Handle::bind_version(9u8, Ok(ver)).unwrap();
    assert_eq!(h.version(), ver);
    let got = binding_item(Ok::<Handle<u8>, (u8, TryFromHandleError)>(h)).unwrap().unwrap();
    assert_eq!(*got.as_ref(), 9);
    let back = Handle::bind_version(9u8, Err(TryFromHandleError::IoError(IoError { code: 3 })));
    assert_eq!(back.err(), Some((9u8, TryFromHandleError::IoError(IoError { code: 3 }))));
}

#[test]
fn handles_yield_transfer_failure() {
    let host = FakeHost {
        devices: vec![Ok(("a", STLINK_VID, STLINK_V2_PID, vec![]))],
    };
    let list = handles(host).unwrap();
    let mut it = list.iter();
    assert_eq!(it.next().unwrap().err(), Some(IoError { code: 31 }));
    assert!(it.next().is_none());
}

#[test]
fn handles_over_empty_host() {
    let list = handles(FakeHost { devices: vec![] }).unwrap();
    assert_eq!(list.len(), 0);
    assert!(list.iter().next().is_none());
}

#[test]
fn accepted_ids_are_configurable() {
    let ids = [(STLINK_VID, 0x374B), (STLINK_VID, 0x374E)];
    let usb = FakeUsb::new("v3", STLINK_VID, 0x374E, vec![Ok(version_answer(3, 1, 0))]);
    let h = Handle::try_from_ids(usb, &ids).unwrap();
    assert_eq!(h.version().jtag_api, JtagApi::V3);
    let usb = FakeUsb::new("v2", STLINK_VID, STLINK_V2_PID, vec![Ok(version_answer(2, 27, 6))]);
    match Handle::try_from_ids(usb, &ids) {
        Err((back, e)) => {
            assert_eq!(e, TryFromHandleError::InvalidVendorProductId(STLINK_VID, STLINK_V2_PID));
            assert_eq!(back.name, "v2");
        }
        Ok(_) => panic!("accepted an id outside the set"),
    }
    let none: [(u16, u16); 0] = [];
    assert_eq!(
        Handle::check_identity_in(1u8, Ok(descriptor(STLINK_VID, STLINK_V2_PID)), &none),
        Err((1u8, TryFromHandleError::InvalidVendorProductId(STLINK_VID, STLINK_V2_PID)))
    );
}
