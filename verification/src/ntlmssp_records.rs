//! The wire format of NTLMSSP messages, as far as identity fields go.
//!
//! A message starts with the eight bytes `NTLMSSP\0` and a little-endian
//! message type of four bytes. An AUTHENTICATE message goes on with six field
//! descriptors of eight bytes each (length, maximum length, offset from the
//! start of the message), four bytes of negotiation flags, an optional version
//! record of eight bytes, and the payload that the descriptors point into.

use vstd::prelude::*;
use vstd::slice::slice_subrange;

verus! {

/// The message type of a NEGOTIATE message.
pub const NTLMSSP_NEGOTIATE: u32 = 1;

/// The message type of a CHALLENGE message.
pub const NTLMSSP_CHALLENGE: u32 = 2;

/// The message type of an AUTHENTICATE message.
pub const NTLMSSP_AUTH: u32 = 3;

/// The bytes that precede the body of a message: signature and message type.
pub const NTLMSSP_PREFIX_LEN: usize = 12;

/// The version record of an AUTHENTICATE message.
#[derive(Debug, Clone, Copy, PartialEq, Eq, Structural)]
pub struct NTLMSSPVersion {
    pub ver_major: u8,
    pub ver_minor: u8,
    pub ver_build: u16,
    pub ver_ntlm_rev: u8,
}

/// A message: its type, and the bytes behind the type.
#[derive(Debug, PartialEq, Eq)]
pub struct NTLMSSPRecord<'a> {
    pub msg_type: u32,
    pub data: &'a [u8],
}

/// The identity fields of an AUTHENTICATE message, as they stand on the wire.
#[derive(Debug, PartialEq, Eq)]
pub struct NTLMSSPAuthRecord<'a> {
    pub domain: &'a [u8],
    pub user: &'a [u8],
    pub host: &'a [u8],
    pub version: Option<NTLMSSPVersion>,
}

/// The mathematical value of an [`NTLMSSPRecord`].
pub struct RecordView {
    pub msg_type: u32,
    pub data: Seq<u8>,
}

/// The mathematical value of an [`NTLMSSPAuthRecord`].
pub struct AuthRecordView {
    pub domain: Seq<u8>,
    pub user: Seq<u8>,
    pub host: Seq<u8>,
    pub version: Option<NTLMSSPVersion>,
}

impl<'a> View for NTLMSSPRecord<'a> {
    type V = RecordView;

    open spec fn view(&self) -> RecordView {
        RecordView { msg_type: self.msg_type, data: self.data@ }
    }
}

impl<'a> View for NTLMSSPAuthRecord<'a> {
    type V = AuthRecordView;

    open spec fn view(&self) -> AuthRecordView {
        AuthRecordView {
            domain: self.domain@,
            user: self.user@,
            host: self.host@,
            version: self.version,
        }
    }
}

/// The view of an optional message.
pub open spec fn record_view(record: Option<NTLMSSPRecord<'_>>) -> Option<RecordView> {
    match record {
        Some(r) => Some(r@),
        None => None,
    }
}

/// The view of an optional AUTHENTICATE record.
pub open spec fn auth_record_view(record: Option<NTLMSSPAuthRecord<'_>>) -> Option<AuthRecordView> {
    match record {
        Some(r) => Some(r@),
        None => None,
    }
}

/// The signature that opens every message: `NTLMSSP` and a zero byte.
pub open spec fn signature() -> Seq<u8> {
    seq![0x4eu8, 0x54u8, 0x4cu8, 0x4du8, 0x53u8, 0x53u8, 0x50u8, 0x00u8]
}

/// The signature stands in `blob` at offset `at`.
pub open spec fn signature_at(blob: Seq<u8>, at: int) -> bool {
    0 <= at && at + 8 <= blob.len() && blob.subrange(at, at + 8) == signature()
}

/// The signature stands at `at`, and nowhere before.
pub open spec fn first_signature_at(blob: Seq<u8>, at: int) -> bool {
    signature_at(blob, at) && forall|before: int| 0 <= before < at ==> !signature_at(blob, before)
}

/// The offset of the first signature in `blob`, if there is one.
pub open spec fn signature_offset(blob: Seq<u8>) -> Option<int> {
    if exists|at: int| first_signature_at(blob, at) {
        Some(choose|at: int| first_signature_at(blob, at))
    } else {
        None
    }
}

/// The little-endian number in the two bytes at `at`.
pub open spec fn le_u16(bytes: Seq<u8>, at: int) -> int {
    bytes[at] + 0x100 * bytes[at + 1]
}

/// The little-endian number in the four bytes at `at`.
pub open spec fn le_u32(bytes: Seq<u8>, at: int) -> int {
    bytes[at] + 0x100 * bytes[at + 1] + 0x1_0000 * bytes[at + 2] + 0x100_0000 * bytes[at + 3]
}

/// The message in `blob`: whatever precedes the first signature is passed
/// over, the message type follows the signature, and the rest is the body.
/// There is none without a signature, or with fewer than four bytes behind it.
pub open spec fn ntlmssp_record(blob: Seq<u8>) -> Option<RecordView> {
    match signature_offset(blob) {
        Some(at) => if at + NTLMSSP_PREFIX_LEN <= blob.len() {
            Some(
                RecordView {
                    msg_type: le_u32(blob, at + 8) as u32,
                    data: blob.skip(at + NTLMSSP_PREFIX_LEN),
                },
            )
        } else {
            None
        },
        None => None,
    }
}

/// Whether the flags of an AUTHENTICATE body announce a version record: the
/// second lowest bit of the first flag byte.
pub open spec fn announces_version(data: Seq<u8>) -> bool {
    (data[48] >> 1u8) & 1u8 == 1u8
}

/// The length of the fixed part of an AUTHENTICATE body: descriptors, flags,
/// and the version record where one is announced.
pub open spec fn auth_header_len(data: Seq<u8>) -> int {
    if announces_version(data) {
        60
    } else {
        52
    }
}

/// The identity fields of the AUTHENTICATE body `data` (the message without
/// signature and type). The domain starts where its descriptor's offset
/// points, counted from the start of the message; user and host follow it
/// directly, each as long as its descriptor says. There are none where the
/// fixed part is cut short, where the domain's offset points into the fixed
/// part, or where the three fields do not fit into `data`.
pub open spec fn ntlm_auth_record(data: Seq<u8>) -> Option<AuthRecordView> {
    if data.len() < 52 {
        None
    } else {
        let header = auth_header_len(data);
        let start = le_u32(data, 20) - NTLMSSP_PREFIX_LEN;
        let domain_end = start + le_u16(data, 16);
        let user_end = domain_end + le_u16(data, 24);
        let host_end = user_end + le_u16(data, 32);
        if data.len() < header || start < header || host_end > data.len() {
            None
        } else {
            Some(
                AuthRecordView {
                    domain: data.subrange(start, domain_end),
                    user: data.subrange(domain_end, user_end),
                    host: data.subrange(user_end, host_end),
                    version: if announces_version(data) {
                        Some(
                            NTLMSSPVersion {
                                ver_major: data[52],
                                ver_minor: data[53],
                                ver_build: le_u16(data, 54) as u16,
                                ver_ntlm_rev: data[59],
                            },
                        )
                    } else {
                        None
                    },
                },
            )
        }
    }
}

/// There is at most one first signature.
pub proof fn first_signature_is_unique(blob: Seq<u8>, at: int)
    requires
        first_signature_at(blob, at),
    ensures
        signature_offset(blob) == Some(at),
{
    let chosen = choose|c: int| first_signature_at(blob, c);
    assert(first_signature_at(blob, chosen));
    if chosen < at {
        assert(!signature_at(blob, chosen));
    }
    if at < chosen {
        assert(!signature_at(blob, at));
    }
}

/// Reads the little-endian number in the two bytes at `at`.
pub fn read_le_u16(bytes: &[u8], at: usize) -> (value: u16)
    requires
        at + 2 <= bytes@.len(),
    ensures
        value == le_u16(bytes@, at as int),
{
    let low: u16 = bytes[at] as u16;
    let high: u16 = bytes[at + 1] as u16;
    low + 0x100 * high
}

/// Reads the little-endian number in the four bytes at `at`.
pub fn read_le_u32(bytes: &[u8], at: usize) -> (value: u32)
    requires
        at + 4 <= bytes@.len(),
    ensures
        value == le_u32(bytes@, at as int),
{
    let b0: u32 = bytes[at] as u32;
    let b1: u32 = bytes[at + 1] as u32;
    let b2: u32 = bytes[at + 2] as u32;
    let b3: u32 = bytes[at + 3] as u32;
    b0 + 0x100 * b1 + 0x1_0000 * b2 + 0x100_0000 * b3
}

/// Whether the signature stands in `blob` at offset `at`.
pub fn has_signature_at(blob: &[u8], at: usize) -> (found: bool)
    requires
        at + 8 <= blob@.len(),
    ensures
        found == signature_at(blob@, at as int),
{
    let found = blob[at] == 0x4e && blob[at + 1] == 0x54 && blob[at + 2] == 0x4c && blob[at + 3]
        == 0x4d && blob[at + 4] == 0x53 && blob[at + 5] == 0x53 && blob[at + 6] == 0x50 && blob[at
        + 7] == 0x00;
    proof {
        let window = blob@.subrange(at as int, at + 8);
        if found {
            assert(window == signature());
        } else {
            assert(exists|k: int| 0 <= k < 8 && window[k] != signature()[k]) by {
                if blob[at as int] != 0x4e {
                    assert(window[0] != signature()[0]);
                } else if blob[at + 1] != 0x54 {
                    assert(window[1] != signature()[1]);
                } else if blob[at + 2] != 0x4c {
                    assert(window[2] != signature()[2]);
                } else if blob[at + 3] != 0x4d {
                    assert(window[3] != signature()[3]);
                } else if blob[at + 4] != 0x53 {
                    assert(window[4] != signature()[4]);
                } else if blob[at + 5] != 0x53 {
                    assert(window[5] != signature()[5]);
                } else if blob[at + 6] != 0x50 {
                    assert(window[6] != signature()[6]);
                } else {
                    assert(window[7] != signature()[7]);
                }
            }
        }
    }
    found
}

/// Finds the message in `blob`: looks for the first signature, reads the
/// message type behind it and hands out the rest as the body.
pub fn parse_ntlmssp<'a>(blob: &'a [u8]) -> (record: Option<NTLMSSPRecord<'a>>)
    ensures
        record_view(record) == ntlmssp_record(blob@),
{
    let len = blob.len();
    let mut at: usize = 0;
    while len >= 8 && at <= len - 8
        invariant
            len == blob@.len(),
            forall|before: int| 0 <= before < at ==> !signature_at(blob@, before),
        decreases len - at,
    {
        if has_signature_at(blob, at) {
            proof {
                first_signature_is_unique(blob@, at as int);
            }
            if len - at < NTLMSSP_PREFIX_LEN {
                return None;
            }
            let msg_type = read_le_u32(blob, at + 8);
            let data = slice_subrange(blob, at + NTLMSSP_PREFIX_LEN, len);
            return Some(NTLMSSPRecord { msg_type, data });
        }
        at += 1;
    }
    assert(signature_offset(blob@) is None) by {
        if exists|c: int| first_signature_at(blob@, c) {
            let c = choose|c: int| first_signature_at(blob@, c);
            assert(signature_at(blob@, c));
        }
    }
    None
}

/// Reads the identity fields of an AUTHENTICATE body: `data` is the message
/// without signature and type.
pub fn parse_ntlm_auth_record<'a>(data: &'a [u8]) -> (record: Option<NTLMSSPAuthRecord<'a>>)
    ensures
        auth_record_view(record) == ntlm_auth_record(data@),
{
    let len = data.len();
    if len < 52 {
        return None;
    }
    let domain_len = read_le_u16(data, 16) as usize;
    let domain_offset = read_le_u32(data, 20);
    let user_len = read_le_u16(data, 24) as usize;
    let host_len = read_le_u16(data, 32) as usize;
    let with_version = (data[48] >> 1u8) & 1u8 == 1u8;
    let header: usize = if with_version {
        60
    } else {
        52
    };
    if len < header || domain_offset < NTLMSSP_PREFIX_LEN as u32 {
        return None;
    }
    let start = (domain_offset - NTLMSSP_PREFIX_LEN as u32) as usize;
    if start < header || start > len {
        return None;
    }
    if domain_len > len - start {
        return None;
    }
    let domain_end = start + domain_len;
    if user_len > len - domain_end {
        return None;
    }
    let user_end = domain_end + user_len;
    if host_len > len - user_end {
        return None;
    }
    let host_end = user_end + host_len;
    let version = if with_version {
        Some(
            NTLMSSPVersion {
                ver_major: data[52],
                ver_minor: data[53],
                ver_build: read_le_u16(data, 54),
                ver_ntlm_rev: data[59],
            },
        )
    } else {
        None
    };
    Some(
        NTLMSSPAuthRecord {
            domain: slice_subrange(data, start, domain_end),
            user: slice_subrange(data, domain_end, user_end),
            host: slice_subrange(data, user_end, host_end),
            version,
        },
    )
}

} // verus!
