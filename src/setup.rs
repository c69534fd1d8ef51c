use vstd::prelude::*;
use crate::error::IoError;

verus! {

/// Error code of a successful call that ran out of entries.
pub const ERROR_NO_MORE_ITEMS: u32 = 259;

/// Error code of a call whose output buffer was too small.
pub const ERROR_INSUFFICIENT_BUFFER: u32 = 122;

pub const DIGCF_DEFAULT: u32 = 0x01;

pub const DIGCF_PRESENT: u32 = 0x02;

pub const DIGCF_ALLCLASSES: u32 = 0x04;

pub const DIGCF_PROFILE: u32 = 0x08;

pub const DIGCF_DEVICEINTERFACE: u32 = 0x10;

/// A class identifier of the device registry.
#[derive(Debug, Clone, Copy, PartialEq, Eq, Hash, Structural)]
pub struct Guid {
    pub data1: u32,
    pub data2: u16,
    pub data3: u16,
    /// The last eight bytes, the first one in the most significant position.
    pub data4: u64,
}

/// The interface class of USB devices, `A5DCBF10-6530-11D2-901F-00C04FB951ED`.
pub fn usb_device_interface_class() -> (g: Guid)
    ensures
        g == usb_device_interface_class_spec(),
{
    Guid { data1: 0xA5DCBF10, data2: 0x6530, data3: 0x11D2, data4: 0x901F00C04FB951ED }
}

/// What to ask the device registry for: a class filter and the search flags.
#[derive(Debug, Clone, Copy, PartialEq, Eq, Structural)]
pub struct ListOptions {
    pub class_guid: Option<Guid>,
    pub flags: u32,
}

impl ListOptions {
    /// Devices of every class.
    pub fn all_devices() -> (r: ListOptions)
        ensures
            r == (ListOptions { class_guid: None, flags: DIGCF_ALLCLASSES }),
    {
        ListOptions { class_guid: None, flags: DIGCF_ALLCLASSES }
    }

    /// Devices of one setup class.
    pub fn device_by_class(class_guid: Guid) -> (r: ListOptions)
        ensures
            r == (ListOptions { class_guid: Some(class_guid), flags: 0 }),
    {
        ListOptions { class_guid: Some(class_guid), flags: 0 }
    }

    /// Device interfaces of every class.
    pub fn all_interfaces() -> (r: ListOptions)
        ensures
            r == (ListOptions { class_guid: None, flags: DIGCF_DEVICEINTERFACE | DIGCF_ALLCLASSES }),
    {
        ListOptions { class_guid: None, flags: DIGCF_DEVICEINTERFACE | DIGCF_ALLCLASSES }
    }

    /// Device interfaces of one interface class.
    pub fn interface_by_class(class_guid: Guid) -> (r: ListOptions)
        ensures
            r == (ListOptions { class_guid: Some(class_guid), flags: DIGCF_DEVICEINTERFACE }),
    {
        ListOptions { class_guid: Some(class_guid), flags: DIGCF_DEVICEINTERFACE }
    }

    /// USB device interfaces that are present now: what device lists are made of.
    pub fn all_usb_interfaces() -> (r: ListOptions)
        ensures
            r.class_guid == Some(usb_device_interface_class_spec()),
            r.flags == DIGCF_DEVICEINTERFACE,
    {
        Self::interface_by_class(usb_device_interface_class())
    }

    pub fn flags(self, flags: u32) -> (r: ListOptions)
        ensures
            r == (ListOptions { flags, ..self }),
    {
        ListOptions { flags, ..self }
    }

    /// Filters by `class_guid` instead.
    pub fn class_guid(self, class_guid: Guid) -> (r: ListOptions)
        ensures
            r == (ListOptions { class_guid: Some(class_guid), ..self }),
    {
        ListOptions { class_guid: Some(class_guid), ..self }
    }

    /// Only devices that are present now.
    pub fn present(self) -> (r: ListOptions)
        ensures
            r == (ListOptions { flags: self.flags | DIGCF_PRESENT, ..self }),
    {
        ListOptions { flags: self.flags | DIGCF_PRESENT, ..self }
    }

    /// Only devices of the current hardware profile.
    pub fn profile(self) -> (r: ListOptions)
        ensures
            r == (ListOptions { flags: self.flags | DIGCF_PROFILE, ..self }),
    {
        ListOptions { flags: self.flags | DIGCF_PROFILE, ..self }
    }

    /// Only the default interface of each device.
    pub fn supports_default(self) -> (r: ListOptions)
        ensures
            r == (ListOptions { flags: self.flags | DIGCF_DEFAULT, ..self }),
    {
        ListOptions { flags: self.flags | DIGCF_DEFAULT, ..self }
    }
}

pub open spec fn usb_device_interface_class_spec() -> Guid {
    Guid {
        data1: 0xA5DCBF10u32,
        data2: 0x6530u16,
        data3: 0x11D2u16,
        data4: 0x901F00C04FB951EDu64,
    }
}

/// Where a cursor over the device registry stands between two system calls.
#[derive(Debug, Clone, Copy, PartialEq, Eq, Structural)]
pub enum Phase {
    /// Waiting for the caller to ask for the next entry.
    Idle,
    /// The entry at the cursor's index was asked for.
    Enumerating,
    /// The detail record (the device path) of that entry was asked for.
    Querying,
    /// The sequence has ended; it yields nothing more.
    Finished,
}

/// What a system call reported back to the cursor.
#[derive(Debug, Clone, Copy, PartialEq, Eq, Structural)]
pub enum InfoEvent {
    /// The caller asks for the next entry.
    Resume,
    /// The entry at the cursor's index exists.
    InterfaceFound,
    /// Asking for the entry failed with this code.
    InterfaceFailed(u32),
    /// The detail record was written; it takes this many bytes.
    DetailFilled(u32),
    /// Asking for the detail record failed with `code`; it needs `required` bytes.
    DetailFailed { code: u32, required: u32 },
}

/// What the cursor asks of its caller next.
#[derive(Debug, Clone, Copy, PartialEq, Eq, Structural)]
pub enum InfoAction {
    /// Ask the registry for the entry with this index.
    EnumInterface(u32),
    /// Ask for the entry's detail record into a scratch buffer of this many
    /// bytes, growing the buffer first if it is smaller.
    QueryDetail(u32),
    /// The entry is ready: its device path has this many UTF-16 units.
    Yield(u32),
    /// The sequence fails with this error item and then ends.
    Fail(IoError),
    /// The sequence has ended.
    End,
}

/// A cursor over the device interfaces of one registry list. It keeps the
/// size of its scratch buffer for detail records, which it reuses across
/// entries and only ever grows.
#[derive(Debug, Clone, Copy, PartialEq, Eq, Structural)]
pub struct InfoIter {
    pub iter_index: u32,
    pub detail_cap: u32,
    pub phase: Phase,
}

/// Length in UTF-16 units of the device path in a detail record of `len`
/// bytes: the record holds a four-byte size field and a terminating zero.
pub open spec fn path_len_of(len: u32) -> u32 {
    if len >= 6 {
        (len / 2 - 3) as u32
    } else {
        0
    }
}

/// One step of the cursor: the state after `e` and the action it asks for.
pub open spec fn step_spec(s: InfoIter, e: InfoEvent) -> (InfoIter, InfoAction) {
    let i = s.iter_index;
    let cap = s.detail_cap;
    match s.phase {
        Phase::Finished => (s, InfoAction::End),
        Phase::Idle => (InfoIter { phase: Phase::Enumerating, ..s }, InfoAction::EnumInterface(i)),
        Phase::Enumerating => match e {
            InfoEvent::InterfaceFound => (
                InfoIter { phase: Phase::Querying, ..s },
                InfoAction::QueryDetail(cap),
            ),
            InfoEvent::InterfaceFailed(code) => (
                InfoIter { phase: Phase::Finished, ..s },
                if code == ERROR_NO_MORE_ITEMS {
                    InfoAction::End
                } else {
                    InfoAction::Fail(IoError { code })
                },
            ),
            _ => (s, InfoAction::EnumInterface(i)),
        },
        Phase::Querying => match e {
            InfoEvent::DetailFilled(len) => (
                if i < u32::MAX {
                    InfoIter { iter_index: (i + 1) as u32, detail_cap: cap, phase: Phase::Idle }
                } else {
                    InfoIter { phase: Phase::Finished, ..s }
                },
                InfoAction::Yield(path_len_of(len)),
            ),
            InfoEvent::DetailFailed { code, required } => if code == ERROR_INSUFFICIENT_BUFFER {
                let grown = if required > cap {
                    required
                } else {
                    cap
                };
                (
                    InfoIter { detail_cap: grown, ..s },
                    InfoAction::QueryDetail(grown),
                )
            } else {
                (InfoIter { phase: Phase::Finished, ..s }, InfoAction::Fail(IoError { code }))
            },
            _ => (s, InfoAction::QueryDetail(cap)),
        },
    }
}

impl InfoIter {
    /// A fresh cursor at the first entry, with no scratch buffer yet.
    pub fn new() -> (r: InfoIter)
        ensures
            r == (InfoIter { iter_index: 0, detail_cap: 0, phase: Phase::Idle }),
    {
        InfoIter { iter_index: 0, detail_cap: 0, phase: Phase::Idle }
    }

    pub fn is_finished(&self) -> (r: bool)
        ensures
            r == (self.phase == Phase::Finished),
    {
        matches!(self.phase, Phase::Finished)
    }

    /// Takes what the last system call reported and says what to do next.
    /// An entry is asked for by index; its detail record is then asked for,
    /// growing the scratch buffer while the system reports it too small; the
    /// entry is yielded and the index moves on. No more entries ends the
    /// sequence; any other failure yields one error item and ends it.
    pub fn next(&mut self, e: InfoEvent) -> (a: InfoAction)
        ensures
            (*final(self), a) == step_spec(*old(self), e),
            final(self).detail_cap >= old(self).detail_cap,
    {
        let i = self.iter_index;
        let cap = self.detail_cap;
        match self.phase {
            Phase::Finished => InfoAction::End,
            Phase::Idle => {
                self.phase = Phase::Enumerating;
                InfoAction::EnumInterface(i)
            },
            Phase::Enumerating => match e {
                InfoEvent::InterfaceFound => {
                    self.phase = Phase::Querying;
                    InfoAction::QueryDetail(cap)
                },
                InfoEvent::InterfaceFailed(code) => {
                    self.phase = Phase::Finished;
                    if code == ERROR_NO_MORE_ITEMS {
                        InfoAction::End
                    } else {
                        InfoAction::Fail(IoError { code })
                    }
                },
                _ => InfoAction::EnumInterface(i),
            },
            Phase::Querying => match e {
                InfoEvent::DetailFilled(len) => {
                    if i < u32::MAX {
                        self.iter_index = i + 1;
                        self.phase = Phase::Idle;
                    } else {
                        self.phase = Phase::Finished;
                    }
                    let path_len: u32 = if len >= 6 {
                        len / 2 - 3
                    } else {
                        0
                    };
                    InfoAction::Yield(path_len)
                },
                InfoEvent::DetailFailed { code, required } => {
                    if code == ERROR_INSUFFICIENT_BUFFER {
                        let grown = if required > cap {
                            required
                        } else {
                            cap
                        };
                        self.detail_cap = grown;
                        InfoAction::QueryDetail(grown)
                    } else {
                        self.phase = Phase::Finished;
                        InfoAction::Fail(IoError { code })
                    }
                },
                _ => InfoAction::QueryDetail(cap),
            },
        }
    }
}

/// Once a cursor has ended, every further step leaves it as it is and
/// reports the end.
pub proof fn lemma_finished_is_terminal(s: InfoIter, e: InfoEvent)
    requires
        s.phase == Phase::Finished,
    ensures
        step_spec(s, e) == (s, InfoAction::End),
{
}

/// Over a list with no present device, a fresh cursor asks for entry 0,
/// learns that there are no items, and ends without an error item; from then
/// on it only reports the end.
pub proof fn lemma_empty_list_ends_at_once(e: InfoEvent)
    ensures
        ({
            let s0 = InfoIter { iter_index: 0, detail_cap: 0, phase: Phase::Idle };
            let (s1, a1) = step_spec(s0, InfoEvent::Resume);
            let (s2, a2) = step_spec(s1, InfoEvent::InterfaceFailed(ERROR_NO_MORE_ITEMS));
            &&& a1 == InfoAction::EnumInterface(0)
            &&& a2 == InfoAction::End
            &&& s2.phase == Phase::Finished
            &&& step_spec(s2, e) == (s2, InfoAction::End)
        }),
{
}

/// A failure other than the end of the list yields exactly one error item:
/// the cursor has ended when it reports it.
pub proof fn lemma_error_item_is_last(s: InfoIter, e: InfoEvent)
    ensures
        step_spec(s, e).1 is Fail ==> step_spec(s, e).0.phase == Phase::Finished,
{
}

/// The scratch buffer never shrinks, and it only grows to the size that the
/// system asked for.
pub proof fn lemma_buffer_only_grows(s: InfoIter, e: InfoEvent)
    ensures
        step_spec(s, e).0.detail_cap >= s.detail_cap,
        step_spec(s, e).0.detail_cap > s.detail_cap ==> (e matches InfoEvent::DetailFailed {
            code,
            required,
        } && required == step_spec(s, e).0.detail_cap),
{
}

} // verus!
