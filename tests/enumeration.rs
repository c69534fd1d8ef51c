use nihao::setup::{
    usb_device_interface_class, Guid, InfoAction, InfoEvent, InfoIter, ListOptions, Phase,
    DIGCF_DEVICEINTERFACE, DIGCF_PRESENT, ERROR_INSUFFICIENT_BUFFER, ERROR_NO_MORE_ITEMS,
};
use nihao::{devices, DeviceList, IoError};

#[test]
fn empty_registry_ends_at_once() {
    let mut it = InfoIter::new();
    assert_eq!(it.next(InfoEvent::Resume), InfoAction::EnumInterface(0));
    assert_eq!(it.next(InfoEvent::InterfaceFailed(ERROR_NO_MORE_ITEMS)), InfoAction::End);
    assert!(it.is_finished());
    assert_eq!(it.next(InfoEvent::Resume), InfoAction::End);
    assert_eq!(it.next(InfoEvent::InterfaceFound), InfoAction::End);
}

#[test]
fn entry_grows_buffer_then_yields() {
    let mut it = InfoIter::new();
    assert_eq!(it.next(InfoEvent::Resume), InfoAction::EnumInterface(0));
    assert_eq!(it.next(InfoEvent::InterfaceFound), InfoAction::QueryDetail(0));
    let too_small = InfoEvent::DetailFailed { code: ERROR_INSUFFICIENT_BUFFER, required: 100 };
    assert_eq!(it.next(too_small), InfoAction::QueryDetail(100));
    assert_eq!(it.next(InfoEvent::DetailFilled(100)), InfoAction::Yield(47));
    assert_eq!(it.iter_index, 1);
    assert_eq!(it.phase, Phase::Idle);
    assert_eq!(it.next(InfoEvent::Resume), InfoAction::EnumInterface(1));
    assert_eq!(it.next(InfoEvent::InterfaceFound), InfoAction::QueryDetail(100));
    let smaller = InfoEvent::DetailFailed { code: ERROR_INSUFFICIENT_BUFFER, required: 60 };
    assert_eq!(it.next(smaller), InfoAction::QueryDetail(100));
    assert_eq!(it.detail_cap, 100);
    assert_eq!(it.next(InfoEvent::DetailFilled(80)), InfoAction::Yield(37));
    assert_eq!(it.next(InfoEvent::Resume), InfoAction::EnumInterface(2));
    assert_eq!(it.next(InfoEvent::InterfaceFailed(ERROR_NO_MORE_ITEMS)), InfoAction::End);
}

#[test]
fn failure_yields_one_error_item() {
    let mut it = InfoIter::new();
    it.next(InfoEvent::Resume);
    assert_eq!(it.next(InfoEvent::InterfaceFailed(5)), InfoAction::Fail(IoError { code: 5 }));
    assert_eq!(it.next(InfoEvent::Resume), InfoAction::End);

    let mut it = InfoIter::new();
    it.next(InfoEvent::Resume);
    it.next(InfoEvent::InterfaceFound);
    let denied = InfoEvent::DetailFailed { code: 1, required: 0 };
    assert_eq!(it.next(denied), InfoAction::Fail(IoError { code: 1 }));
    assert!(it.is_finished());
    assert_eq!(it.next(InfoEvent::Resume), InfoAction::End);
}

#[test]
fn short_detail_record_has_empty_path() {
    let mut it = InfoIter::new();
    it.next(InfoEvent::Resume);
    it.next(InfoEvent::InterfaceFound);
    assert_eq!(it.next(InfoEvent::DetailFilled(4)), InfoAction::Yield(0));
}

#[test]
fn list_options_flags() {
    let o = ListOptions::all_usb_interfaces().present();
    assert_eq!(o.flags, DIGCF_DEVICEINTERFACE | DIGCF_PRESENT);
    assert_eq!(o.flags, 0x12);
    let g = usb_device_interface_class();
    assert_eq!(o.class_guid, Some(g));
    assert_eq!(
        g,
        Guid { data1: 0xA5DCBF10, data2: 0x6530, data3: 0x11D2, data4: 0x901F00C04FB951ED }
    );
    assert_eq!(ListOptions::all_devices().profile().flags, 0x0C);
    assert_eq!(ListOptions::all_interfaces().supports_default().flags, 0x15);
    assert_eq!(ListOptions::device_by_class(g).flags(7), ListOptions { class_guid: Some(g), flags: 7 });
}

#[test]
fn device_list_cut_after_error() {
    let list = DeviceList::from_entries(vec![Ok(1), Ok(2), Err(IoError { code: 9 }), Ok(3)]);
    assert_eq!(list.len(), 3);
    let mut it = list.iter();
    assert_eq!(it.next(), Some(&Ok(1)));
    assert_eq!(it.next(), Some(&Ok(2)));
    assert_eq!(it.next(), Some(&Err(IoError { code: 9 })));
    assert_eq!(it.next(), None);
    assert_eq!(it.next(), None);
}

#[test]
fn device_list_cursors_are_independent() {
    let list = DeviceList::from_entries(vec![Ok("a"), Ok("b")]);
    let mut one = list.iter();
    let mut two = list.iter();
    assert_eq!(one.next(), Some(&Ok("a")));
    assert_eq!(one.next(), Some(&Ok("b")));
    assert_eq!(two.next(), Some(&Ok("a")));
    let mut owned = list.into_iter();
    assert_eq!(owned.next(), Some(Ok("a")));
    assert_eq!(owned.next(), Some(Ok("b")));
    assert_eq!(owned.next(), None);
}

#[test]
fn empty_device_list() {
    let list: DeviceList<u8> = DeviceList::from_entries(vec![]);
    assert_eq!(list.len(), 0);
    assert_eq!(list.iter().next(), None);
}

#[test]
fn devices_of_dummy_host() {
    let host = nihao::dummy::DummyHost::from(vec!["Test", "Test2", "Test3"]);
    let list = devices(&host).unwrap();
    assert_eq!(list.len(), 3);
    let mut it = list.iter();
    let first = it.next().unwrap().as_ref().unwrap();
    let h = first.open().unwrap();
    assert_eq!(h.speed(), nihao::Speed::Low);
    assert_eq!(h.device_descriptor().unwrap().id_vendor, 66);
}

#[test]
fn class_filter_can_be_replaced() {
    let g = Guid { data1: 1, data2: 2, data3: 3, data4: 4 };
    let o = ListOptions::all_devices().class_guid(g);
    assert_eq!(o, ListOptions { class_guid: Some(g), flags: 0x04 });
}
