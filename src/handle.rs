use vstd::prelude::*;
use crate::backend::{Input, Output};
use crate::command::command;
use crate::consts::{STLINK_GET_CURRENT_MODE, STLINK_GET_TARGET_VOLTAGE, STLINK_V2_PID, STLINK_VID};
use crate::descriptor::DeviceDescriptor;
use crate::error::IoError;
use crate::version::{decode_spec, lemma_decoded_wf, read_handle, Version};

verus! {

/// Why a USB connection could not be bound as a probe.
#[derive(Debug, Clone, Copy, PartialEq, Eq, Structural)]
pub enum TryFromHandleError {
    /// The device is not a probe: it reported this vendor id and product id.
    InvalidVendorProductId(u16, u16),
    /// A transfer with the device failed.
    IoError(IoError),
    /// The probe announced a major version that has no feature table.
    UnsupportedVersion(u8),
}

impl TryFromHandleError {
    pub fn from(src: IoError) -> (r: TryFromHandleError)
        ensures
            r == TryFromHandleError::IoError(src),
    {
        TryFromHandleError::IoError(src)
    }
}

/// The vendor and product ids that a connection must report to be bound as a probe.
pub open spec fn is_probe_id(vid: u16, pid: u16) -> bool {
    vid == STLINK_VID && pid == STLINK_V2_PID
}

/// Whether some six-byte version response decodes to `v`.
pub open spec fn is_decoded(v: Version) -> bool {
    exists|b: Seq<u8>| b.len() == 6 && decode_spec(b) == Some(v)
}

/// A little-endian 32-bit value.
pub open spec fn le_u32(b0: u8, b1: u8, b2: u8, b3: u8) -> u32 {
    (b0 as int + b1 as int * 0x100 + b2 as int * 0x10000 + b3 as int * 0x1000000) as u32
}

/// The two ADC readings of a target-voltage answer: the reference channel
/// and the channel wired to the target supply.
#[derive(Debug, Clone, Copy, PartialEq, Eq, Structural)]
pub struct AdcReadings {
    pub reference: u32,
    pub target: u32,
}

impl AdcReadings {
    /// Reads the two little-endian readings of an eight-byte answer.
    pub fn from_response(r: &[u8]) -> (a: AdcReadings)
        requires
            r@.len() == 8,
        ensures
            a.reference == le_u32(r@[0], r@[1], r@[2], r@[3]),
            a.target == le_u32(r@[4], r@[5], r@[6], r@[7]),
    {
        let reference: u32 = (r[0] as u32) + (r[1] as u32) * 0x100 + (r[2] as u32) * 0x10000 + (
        r[3] as u32) * 0x1000000;
        let target: u32 = (r[4] as u32) + (r[5] as u32) * 0x100 + (r[6] as u32) * 0x10000 + (
        r[7] as u32) * 0x1000000;
        AdcReadings { reference, target }
    }

    /// The target voltage in volts, `2 * 1.2 * target / reference`, as an
    /// exact fraction `(numerator, denominator)`; zero volts when the
    /// reference reading is zero. The denominator is never zero.
    pub fn voltage_fraction(&self) -> (r: (u64, u64))
        ensures
            r.1 > 0,
            self.reference == 0 ==> r == (0u64, 1u64),
            self.reference != 0 ==> r == ((12 * self.target) as u64, (5 * self.reference) as u64),
    {
        if self.reference != 0 {
            (12 * (self.target as u64), 5 * (self.reference as u64))
        } else {
            (0, 1)
        }
    }
}

/// An open connection to a probe, with the version it reported.
///
/// The connection may break at any time; the methods then return errors.
#[derive(Debug)]
pub struct Handle<U> {
    inner: U,
    version: Version,
}

impl<U> Handle<U> {
    pub closed spec fn spec_inner(self) -> U {
        self.inner
    }

    pub closed spec fn spec_version(self) -> Version {
        self.version
    }

    /// Every handle holds the version that its probe reported, which is
    /// internally consistent.
    #[verifier::type_invariant]
    spec fn inv(self) -> bool {
        is_decoded(self.version) && self.version.wf()
    }

    pub open spec fn wf(self) -> bool {
        is_decoded(self.spec_version())
    }

    pub fn version(&self) -> (r: Version)
        ensures
            r == self.spec_version(),
            is_decoded(r),
            r.wf(),
    {
        proof {
            use_type_invariant(self);
        }
        self.version
    }

    pub fn as_ref(&self) -> (r: &U)
        ensures
            *r == self.spec_inner(),
    {
        &self.inner
    }

    pub fn into_inner(self) -> (r: U)
        ensures
            r == self.spec_inner(),
    {
        self.inner
    }

    /// Binds a connection to the result of reading its version: a handle
    /// holding that version, or the connection back with the read's error.
    pub fn bind_version(src: U, read: Result<Version, TryFromHandleError>) -> (r: Result<
        Handle<U>,
        (U, TryFromHandleError),
    >)
        requires
            read matches Ok(v) ==> is_decoded(v),
        ensures
            read matches Ok(v) ==> r matches Ok(h) && h.spec_inner() == src && h.spec_version()
                == v && h.spec_version().wf(),
            read matches Err(e) ==> r == Err::<Handle<U>, (U, TryFromHandleError)>((src, e)),
    {
        match read {
            Ok(version) => {
                proof {
                    let b = choose|b: Seq<u8>| b.len() == 6 && decode_spec(b) == Some(version);
                    lemma_decoded_wf(b);
                }
                Ok(Handle { inner: src, version })
            },
            Err(err) => Err((src, err)),
        }
    }

    /// Keeps a connection whose descriptor was read as `desc` when its ids
    /// are one of the pairs `ids`; otherwise hands the connection back with
    /// the reason.
    pub fn check_identity_in(src: U, desc: Result<DeviceDescriptor, IoError>, ids: &[(u16, u16)]) -> (r:
        Result<U, (U, TryFromHandleError)>)
        ensures
            match desc {
                Err(e) => r == Err::<U, (U, TryFromHandleError)>(
                    (src, TryFromHandleError::IoError(e)),
                ),
                Ok(d) => if ids@.contains((d.id_vendor, d.id_product)) {
                    r == Ok::<U, (U, TryFromHandleError)>(src)
                } else {
                    r == Err::<U, (U, TryFromHandleError)>(
                        (src, TryFromHandleError::InvalidVendorProductId(d.id_vendor, d.id_product)),
                    )
                },
            },
    {
        match desc {
            Err(e) => Err((src, TryFromHandleError::IoError(e))),
            Ok(d) => {
                let mut i: usize = 0;
                while i < ids.len()
                    invariant
                        desc == Ok::<DeviceDescriptor, IoError>(d),
                        0 <= i <= ids@.len(),
                        forall|j: int| 0 <= j < i ==> ids@[j] != (d.id_vendor, d.id_product),
                    decreases ids@.len() - i,
                {
                    if ids[i].0 == d.id_vendor && ids[i].1 == d.id_product {
                        assert(ids@[i as int] == (d.id_vendor, d.id_product));
                        return Ok(src);
                    }
                    i += 1;
                }
                Err((src, TryFromHandleError::InvalidVendorProductId(d.id_vendor, d.id_product)))
            },
        }
    }

    /// Keeps a connection whose descriptor was read as `desc` when its ids
    /// are the probe's; otherwise hands the connection back with the reason.
    pub fn check_identity(src: U, desc: Result<DeviceDescriptor, IoError>) -> (r: Result<
        U,
        (U, TryFromHandleError),
    >)
        ensures
            match desc {
                Err(e) => r == Err::<U, (U, TryFromHandleError)>(
                    (src, TryFromHandleError::IoError(e)),
                ),
                Ok(d) => if is_probe_id(d.id_vendor, d.id_product) {
                    r == Ok::<U, (U, TryFromHandleError)>(src)
                } else {
                    r == Err::<U, (U, TryFromHandleError)>(
                        (src, TryFromHandleError::InvalidVendorProductId(d.id_vendor, d.id_product)),
                    )
                },
            },
    {
        let ids = [(STLINK_VID, STLINK_V2_PID)];
        assert(ids@ =~= seq![(STLINK_VID, STLINK_V2_PID)]);
        let r = Self::check_identity_in(src, desc, &ids);
        proof {
            if let Ok(d) = desc {
                if ids@.contains((d.id_vendor, d.id_product)) {
                    let j = choose|j: int| 0 <= j < ids@.len() && ids@[j] == (d.id_vendor, d.id_product);
                    assert(j == 0);
                } else {
                    assert(ids@[0] == (STLINK_VID, STLINK_V2_PID));
                }
            }
        }
        r
    }
}

impl<U: Input + Output> Handle<U> {
    /// Binds an open USB connection as a probe: reads its device descriptor,
    /// refuses a device whose ids are not the classic probe's, then reads the
    /// probe's version. On every refusal the connection is handed back
    /// unchanged with the reason.
    pub fn try_from(src: U) -> (r: Result<Handle<U>, (U, TryFromHandleError)>)
        ensures
            r matches Ok(h) ==> h.spec_inner() == src && h.wf() && h.spec_version().wf(),
            r matches Err((u, _)) ==> u == src,
            r matches Err((_, TryFromHandleError::InvalidVendorProductId(v, p))) ==> !is_probe_id(
                v,
                p,
            ),
    {
        let desc = src.device_descriptor();
        let src = match Self::check_identity(src, desc) {
            Ok(src) => src,
            Err(e) => return Err(e),
        };
        Self::bind(src)
    }

    /// Like `try_from`, accepting the devices whose vendor and product ids
    /// are one of the pairs `ids`.
    pub fn try_from_ids(src: U, ids: &[(u16, u16)]) -> (r: Result<
        Handle<U>,
        (U, TryFromHandleError),
    >)
        ensures
            r matches Ok(h) ==> h.spec_inner() == src && h.wf() && h.spec_version().wf(),
            r matches Err((u, _)) ==> u == src,
            r matches Err((_, TryFromHandleError::InvalidVendorProductId(v, p))) ==> !ids@.contains(
                (v, p),
            ),
    {
        let desc = src.device_descriptor();
        let src = match Self::check_identity_in(src, desc, ids) {
            Ok(src) => src,
            Err(e) => return Err(e),
        };
        Self::bind(src)
    }

    /// Reads the version of a connection whose ids were accepted.
    fn bind(src: U) -> (r: Result<Handle<U>, (U, TryFromHandleError)>)
        ensures
            r matches Ok(h) ==> h.spec_inner() == src && h.wf() && h.spec_version().wf(),
            r matches Err((u, e)) ==> u == src && !(e is InvalidVendorProductId),
    {
        let read = read_handle(&src);
        Self::bind_version(src, read)
    }

    /// Reads the two ADC readings from which the target voltage follows; none
    /// when the probe's version has no trace support, in which case nothing
    /// is sent.
    pub fn get_voltage(&self) -> (r: Result<Option<AdcReadings>, IoError>)
        ensures
            !self.spec_version().has_trace ==> r == Ok::<Option<AdcReadings>, IoError>(None),
            self.spec_version().has_trace ==> !(r matches Ok(None)),
    {
        if !self.version.has_trace {
            return Ok(None);
        }
        let r = command(&self.inner, STLINK_GET_TARGET_VOLTAGE, 0, 8)?;
        Ok(Some(AdcReadings::from_response(r.as_slice())))
    }

    /// Reads the probe's current mode byte.
    pub fn get_mode(&self) -> (r: Result<u8, IoError>) {
        let r = command(&self.inner, STLINK_GET_CURRENT_MODE, 0, 2)?;
        Ok(r[0])
    }
}

} // verus!
