use vstd::prelude::*;
use crate::backend::{Input, Output};
use crate::command::command;
use crate::consts::{STLINK_GET_VERSION, STLINK_V2_1_NO_MSD_PID, STLINK_V2_1_PID};
use crate::handle::{is_decoded, TryFromHandleError};
use crate::text::{dec, hex4, push_dec, push_hex4};
use vstd::string::StringExecFns;

verus! {

/// Generation of the JTAG/SWD command set that a probe speaks.
#[derive(Debug, Clone, Copy, Hash, PartialEq, Eq, Structural)]
pub enum JtagApi {
    V1,
    V2,
    V3,
}

/// Firmware revisions of a probe and the features they enable.
#[derive(Debug, Clone, Copy, Hash, PartialEq, Eq, Structural)]
pub struct Version {
    pub stlink_version: u8,
    pub jtag_api: JtagApi,
    pub jtag: u8,
    pub swim: u8,
    pub msd: u8,
    pub bridge: u8,
    pub vid: u16,
    pub pid: u16,
    pub has_trace: bool,
    pub has_get_last_rwstatus2: bool,
    pub has_swd_set_freq: bool,
    pub has_jtag_set_freq: bool,
    pub has_mem_16bit: bool,
}

/// A 16-bit value stored most significant byte first.
pub open spec fn be_u16(hi: u8, lo: u8) -> u16 {
    (hi as int * 256 + lo as int) as u16
}

/// A 16-bit value stored least significant byte first.
pub open spec fn le_u16(lo: u8, hi: u8) -> u16 {
    (lo as int + hi as int * 256) as u16
}

/// Major probe version: the top four bits of the version word.
pub open spec fn major_of(w: u16) -> u16 {
    (w >> 12u16) & 0x0fu16
}

/// The six bits below the major version.
pub open spec fn x_of(w: u16) -> u16 {
    (w >> 6u16) & 0x3fu16
}

/// The lowest six bits of the version word.
pub open spec fn y_of(w: u16) -> u16 {
    w & 0x3fu16
}

/// Product ids of the probes whose version word carries a mass-storage revision.
pub open spec fn reports_msd(pid: u16) -> bool {
    pid == STLINK_V2_1_PID || pid == STLINK_V2_1_NO_MSD_PID
}

/// The revision counters `(msd, swim, jtag)` encoded by `x` and `y` for product `pid`.
pub open spec fn revisions_of(pid: u16, x: u16, y: u16) -> (u16, u16, u16) {
    if reports_msd(pid) {
        if (x <= 22 && y == 7) || (x >= 25 && 7 <= y && y <= 12) {
            (x, y, 0)
        } else {
            (y, 0, x)
        }
    } else {
        (0, y, x)
    }
}

/// The command set of a probe of major version `v` with JTAG revision `jtag`;
/// none for a major version outside 1 to 3.
pub open spec fn jtag_api_of(v: int, jtag: int) -> Option<JtagApi> {
    if v == 1 {
        if jtag >= 11 {
            Some(JtagApi::V2)
        } else {
            Some(JtagApi::V1)
        }
    } else if v == 2 {
        Some(JtagApi::V2)
    } else if v == 3 {
        Some(JtagApi::V3)
    } else {
        None
    }
}

impl Version {
    /// The feature flags agree with the major version and JTAG revision, and
    /// the command set is the one they select.
    pub open spec fn wf(self) -> bool {
        let v = self.stlink_version as int;
        let j = self.jtag as int;
        &&& jtag_api_of(v, j) == Some(self.jtag_api)
        &&& self.has_trace == ((v == 2 && j >= 13) || v == 3)
        &&& self.has_get_last_rwstatus2 == ((v == 2 && j >= 15) || v == 3)
        &&& self.has_swd_set_freq == (v == 2 && j >= 22)
        &&& self.has_jtag_set_freq == (v == 2 && j >= 24)
        &&& self.has_mem_16bit == ((v == 2 && j >= 26) || v == 3)
    }
}

/// The version described by a version response of six bytes: a big-endian
/// version word, then the vendor and product ids, each little-endian.
pub open spec fn decode_spec(b: Seq<u8>) -> Option<Version> {
    let w = be_u16(b[0], b[1]);
    let v = major_of(w);
    let (msd, swim, jtag) = revisions_of(le_u16(b[4], b[5]), x_of(w), y_of(w));
    match jtag_api_of(v as int, jtag as int) {
        None => None,
        Some(api) => Some(
            Version {
                stlink_version: v as u8,
                jtag_api: api,
                jtag: jtag as u8,
                swim: swim as u8,
                msd: msd as u8,
                bridge: 0,
                vid: le_u16(b[2], b[3]),
                pid: le_u16(b[4], b[5]),
                has_trace: (v == 2 && jtag >= 13) || v == 3,
                has_get_last_rwstatus2: (v == 2 && jtag >= 15) || v == 3,
                has_swd_set_freq: v == 2 && jtag >= 22,
                has_jtag_set_freq: v == 2 && jtag >= 24,
                has_mem_16bit: (v == 2 && jtag >= 26) || v == 3,
            },
        ),
    }
}

/// The major version announced by a six-byte version response.
pub open spec fn response_major(b: Seq<u8>) -> u16 {
    major_of(be_u16(b[0], b[1]))
}

/// Decodes a six-byte version response; `None` when its major version is
/// not one of 1, 2 or 3, for which no feature table exists.
pub fn decode_version(resp: &[u8]) -> (r: Option<Version>)
    requires
        resp@.len() == 6,
    ensures
        r == decode_spec(resp@),
{
    let version: u16 = (resp[0] as u16) * 256 + (resp[1] as u16);
    let v: u16 = (version >> 12) & 0x0f;
    let x: u16 = (version >> 6) & 0x3f;
    let y: u16 = version & 0x3f;
    let vid: u16 = (resp[2] as u16) + (resp[3] as u16) * 256;
    let pid: u16 = (resp[4] as u16) + (resp[5] as u16) * 256;
    let (msd, swim, jtag): (u16, u16, u16) = if pid == STLINK_V2_1_PID || pid
        == STLINK_V2_1_NO_MSD_PID {
        if (x <= 22 && y == 7) || (x >= 25 && y >= 7 && y <= 12) {
            (x, y, 0)
        } else {
            (y, 0, x)
        }
    } else {
        (0, y, x)
    };
    let jtag_api = if v == 1 {
        if jtag >= 11 {
            JtagApi::V2
        } else {
            JtagApi::V1
        }
    } else if v == 2 {
        JtagApi::V2
    } else if v == 3 {
        JtagApi::V3
    } else {
        return None;
    };
    Some(
        Version {
            stlink_version: v as u8,
            jtag_api,
            jtag: jtag as u8,
            swim: swim as u8,
            msd: msd as u8,
            bridge: 0,
            vid,
            pid,
            has_trace: (v == 2 && jtag >= 13) || v == 3,
            has_get_last_rwstatus2: (v == 2 && jtag >= 15) || v == 3,
            has_swd_set_freq: v == 2 && jtag >= 22,
            has_jtag_set_freq: v == 2 && jtag >= 24,
            has_mem_16bit: (v == 2 && jtag >= 26) || v == 3,
        },
    )
}

/// Asks the probe for its version and decodes the answer.
pub fn read_handle<H: Input + Output>(handle: &H) -> (r: Result<Version, TryFromHandleError>)
    ensures
        r matches Ok(ver) ==> is_decoded(ver),
        r matches Err(TryFromHandleError::UnsupportedVersion(m)) ==> !(1 <= m <= 3) && exists|
            b: Seq<u8>,
        | b.len() == 6 && decode_spec(b) is None && response_major(b) == m as u16,
        !(r matches Err(TryFromHandleError::InvalidVendorProductId(_, _))),
{
    let resp = match command(handle, STLINK_GET_VERSION, 0, 6) {
        Ok(resp) => resp,
        Err(e) => return Err(TryFromHandleError::IoError(e)),
    };
    match decode_version(resp.as_slice()) {
        Some(ver) => Ok(ver),
        None => {
            let w: u16 = (resp[0] as u16) * 256 + (resp[1] as u16);
            let m: u16 = (w >> 12) & 0x0f;
            assert(m <= 15) by (bit_vector)
                requires
                    m == (w >> 12u16) & 0x0fu16,
            ;
            let major: u8 = m as u8;
            assert(response_major(resp@) == major as u16);
            Err(TryFromHandleError::UnsupportedVersion(major))
        },
    }
}

/// The tag of a command set: "v1", "v2" or "v3".
pub open spec fn api_tag(a: JtagApi) -> Seq<char> {
    match a {
        JtagApi::V1 => seq!['v', '1'],
        JtagApi::V2 => seq!['v', '2'],
        JtagApi::V3 => seq!['v', '3'],
    }
}

/// A segment of the revision code: `tag` and `n` in decimal, when shown.
pub open spec fn segment(tag: char, n: u8, shown: bool) -> Seq<char> {
    if shown {
        seq![tag] + dec(n as nat)
    } else {
        Seq::empty()
    }
}

/// The short revision code: `V` and the major version, then `J`, `M`, `B`
/// and `S` segments for the revisions that the probe reports.
pub open spec fn short_code(v: Version) -> Seq<char> {
    seq!['V'] + dec(v.stlink_version as nat) + segment('J', v.jtag, v.jtag > 0 || v.msd == 0)
        + segment('M', v.msd, v.msd > 0) + segment('B', v.bridge, v.bridge > 0) + segment(
        'S',
        v.swim,
        v.swim > 0 || v.msd == 0,
    )
}

/// The fixed parts of the text form, in order.
pub open spec fn text_prefix() -> Seq<char> {
    seq!['S', 'T', '-', 'L', 'i', 'n', 'k', ' ']
}

pub open spec fn text_api() -> Seq<char> {
    seq![' ', '(', 'A', 'P', 'I', ' ']
}

pub open spec fn text_ids() -> Seq<char> {
    seq![')', ' ', 'V', 'I', 'D', ':', 'P', 'I', 'D', ' ']
}

/// `ST-Link <code> (API <tag>) VID:PID <vid>:<pid>`, ids in four hex digits.
pub open spec fn version_text(v: Version) -> Seq<char> {
    text_prefix() + short_code(v) + text_api() + api_tag(v.jtag_api) + text_ids() + hex4(v.vid)
        + seq![':'] + hex4(v.pid)
}

/// Where the command-set tag starts in the text of `v`.
pub open spec fn api_tag_at(v: Version) -> int {
    (text_prefix().len() + short_code(v).len() + text_api().len()) as int
}

impl JtagApi {
    pub fn to_string(&self) -> (r: String)
        ensures
            r@ == api_tag(*self),
    {
        proof {
            reveal_strlit("v1");
            reveal_strlit("v2");
            reveal_strlit("v3");
        }
        match self {
            JtagApi::V1 => String::from_str("v1"),
            JtagApi::V2 => String::from_str("v2"),
            JtagApi::V3 => String::from_str("v3"),
        }
    }
}

/// Appends `tag` and the decimal notation of `n` when `shown`.
fn push_segment(s: &mut String, tag: &str, c: Ghost<char>, n: u8, shown: bool)
    requires
        tag@ == seq![c@],
    ensures
        final(s)@ == old(s)@ + segment(c@, n, shown),
{
    let ghost start = s@;
    if shown {
        s.append(tag);
        push_dec(s, n);
    }
    assert(s@ =~= start + segment(c@, n, shown));
}

impl Version {
    /// Appends the short revision code.
    fn push_short_code(&self, s: &mut String)
        ensures
            final(s)@ == old(s)@ + short_code(*self),
    {
        proof {
            reveal_strlit("V");
            reveal_strlit("J");
            reveal_strlit("M");
            reveal_strlit("B");
            reveal_strlit("S");
            assert("J"@ =~= seq!['J']);
            assert("M"@ =~= seq!['M']);
            assert("B"@ =~= seq!['B']);
            assert("S"@ =~= seq!['S']);
        }
        let ghost start = s@;
        s.append("V");
        push_dec(s, self.stlink_version);
        push_segment(s, "J", Ghost('J'), self.jtag, self.jtag > 0 || self.msd == 0);
        push_segment(s, "M", Ghost('M'), self.msd, self.msd > 0);
        push_segment(s, "B", Ghost('B'), self.bridge, self.bridge > 0);
        push_segment(s, "S", Ghost('S'), self.swim, self.swim > 0 || self.msd == 0);
        assert(s@ =~= start + short_code(*self));
    }

    /// The text form of the version, for people to read.
    pub fn to_string(&self) -> (r: String)
        ensures
            r@ == version_text(*self),
    {
        proof {
            reveal_strlit("ST-Link ");
            reveal_strlit(" (API ");
            reveal_strlit(") VID:PID ");
            reveal_strlit(":");
        }
        let mut s = String::from_str("ST-Link ");
        self.push_short_code(&mut s);
        s.append(" (API ");
        let tag = self.jtag_api.to_string();
        s.append(tag.as_str());
        s.append(") VID:PID ");
        push_hex4(&mut s, self.vid);
        s.append(":");
        push_hex4(&mut s, self.pid);
        assert(s@ =~= version_text(*self));
        s
    }
}

/// The text of every version begins with `ST-Link V` and the major version in
/// decimal, and carries the command-set tag right after `(API `, which
/// follows the revision code.
#[verifier::rlimit(60)]
pub proof fn lemma_text_layout(v: Version)
    ensures
        version_text(v).subrange(0, 9) == seq!['S', 'T', '-', 'L', 'i', 'n', 'k', ' ', 'V'],
        version_text(v).subrange(9, 9 + dec(v.stlink_version as nat).len() as int) == dec(
            v.stlink_version as nat,
        ),
        version_text(v).subrange(api_tag_at(v) - 6, api_tag_at(v)) == text_api(),
        version_text(v).subrange(api_tag_at(v), api_tag_at(v) + 2) == api_tag(v.jtag_api),
{
    let d = dec(v.stlink_version as nat);
    let rest = text_ids() + hex4(v.vid) + seq![':'] + hex4(v.pid);
    let head = text_prefix() + short_code(v) + text_api();
    let t = version_text(v);
    assert(t =~= head + (api_tag(v.jtag_api) + rest));
    assert(head.len() == api_tag_at(v));
    let code_tail = segment('J', v.jtag, v.jtag > 0 || v.msd == 0) + segment('M', v.msd, v.msd > 0)
        + segment('B', v.bridge, v.bridge > 0) + segment('S', v.swim, v.swim > 0 || v.msd == 0);
    assert(short_code(v) =~= seq!['V'] + d + code_tail);
    assert(t =~= (text_prefix() + seq!['V']) + d + (code_tail + text_api() + (api_tag(v.jtag_api)
        + rest)));
    assert(t.subrange(0, 9) =~= seq!['S', 'T', '-', 'L', 'i', 'n', 'k', ' ', 'V']);
    assert(t.subrange(9, 9 + d.len() as int) =~= d);
    assert(t.subrange(api_tag_at(v) - 6, api_tag_at(v)) =~= text_api());
    assert(t.subrange(api_tag_at(v), api_tag_at(v) + 2) =~= api_tag(v.jtag_api));
}
/// Bounds of the fields cut from a version word.
pub proof fn lemma_field_bounds(w: u16)
    ensures
        major_of(w) <= 15,
        x_of(w) <= 63,
        y_of(w) <= 63,
{
    assert((w >> 12u16) & 0x0fu16 <= 15) by (bit_vector);
    assert((w >> 6u16) & 0x3fu16 <= 63) by (bit_vector);
    assert(w & 0x3fu16 <= 63) by (bit_vector);
}

/// A decoded version is internally consistent: its command set and every
/// feature flag are the ones that its major version and JTAG revision select,
/// and it reports no bridge revision.
pub proof fn lemma_decoded_wf(b: Seq<u8>)
    requires
        b.len() == 6,
        decode_spec(b) is Some,
    ensures
        decode_spec(b)->Some_0.wf(),
        decode_spec(b)->Some_0.bridge == 0,
{
    lemma_field_bounds(be_u16(b[0], b[1]));
}

} // verus!
