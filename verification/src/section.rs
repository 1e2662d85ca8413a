//! Generic PSI / SI section reader with CRC-32 (MPEG-2) validation.
//!
//! A packet payload that starts a section holds a pointer byte, the section
//! header, the section body and a trailing CRC-32. [`SectionReader::new`]
//! validates the framing and the CRC and exposes the header fields and the
//! body (with the CRC stripped).
use vstd::prelude::*;

use crate::crc32::{crc32_mpeg2, crc32_mpeg2_of};

verus! {

/// Why a section (or a table parsed from one) was rejected.
#[derive(Debug, Clone, Copy, PartialEq, Eq, Structural)]
pub enum SectionError {
    /// The payload slice was empty.
    EmptyPayload,
    /// The payload ends before the fixed section header.
    ShortSection,
    /// The section length leaves no room for the header and the CRC.
    InvalidLength,
    /// The declared section end lies past the payload.
    TruncatedSection,
    /// The stored CRC-32 does not match the computed one.
    CrcMismatch,
    /// The table_id is not one the parser accepts.
    WrongTableId,
    /// The section body ends before the parser's fixed fields.
    ShortBody,
}

/// Big-endian pairing of two bytes.
pub open spec fn be16(a: u8, b: u8) -> int {
    (a as int) * 256 + (b as int)
}

/// Big-endian pairing of four bytes.
pub open spec fn be32(a: u8, b: u8, c: u8, d: u8) -> int {
    (a as int) * 0x1000000 + (b as int) * 0x10000 + (c as int) * 0x100 + (d as int)
}

/// Offset of the section's first header byte: one past the pointer field.
pub open spec fn sec_start(p: Seq<u8>) -> int {
    1 + p[0]
}

/// The 12-bit section_length field.
pub open spec fn sec_slen(p: Seq<u8>) -> int {
    ((p[sec_start(p) + 1] & 0x0F) as int) * 256 + p[sec_start(p) + 2]
}

/// One past the section's last byte (the end of the CRC).
pub open spec fn sec_end(p: Seq<u8>) -> int {
    sec_start(p) + 3 + sec_slen(p)
}

/// The bytes the CRC is computed over: header and body, CRC excluded.
pub open spec fn sec_bytes(p: Seq<u8>) -> Seq<u8> {
    p.subrange(sec_start(p), sec_end(p) - 4)
}

/// The stored CRC-32, big-endian, in the section's last four bytes.
pub open spec fn sec_stored_crc(p: Seq<u8>) -> int {
    be32(p[sec_end(p) - 4], p[sec_end(p) - 3], p[sec_end(p) - 2], p[sec_end(p) - 1])
}

/// The framing checks that precede the CRC comparison. A section needs at
/// least 9 bytes past the length field: five more header bytes and the CRC.
pub open spec fn sec_well_framed(p: Seq<u8>) -> bool {
    &&& p.len() > 0
    &&& p.len() >= sec_start(p) + 8
    &&& sec_slen(p) >= 9
    &&& sec_end(p) <= p.len()
}

/// The CRC stored in the section matches the CRC of its bytes.
pub open spec fn sec_crc_ok(p: Seq<u8>) -> bool {
    crc32_mpeg2_of(sec_bytes(p)) == sec_stored_crc(p)
}

/// A section is accepted exactly when it is well framed and its CRC matches.
pub open spec fn sec_valid(p: Seq<u8>) -> bool {
    sec_well_framed(p) && sec_crc_ok(p)
}

/// A true CRC failure: the framing is sound, so the CRC could be evaluated,
/// and it does not match. Structural failures are not CRC failures.
pub open spec fn sec_crc_failed(p: Seq<u8>) -> bool {
    sec_well_framed(p) && !sec_crc_ok(p)
}

/// The table_id readable from a payload whose pointer and first header
/// byte are present, independent of the CRC outcome.
pub open spec fn peeked_table_id(p: Seq<u8>) -> Option<u8> {
    if p.len() > 0 && sec_start(p) < p.len() {
        Some(p[sec_start(p)])
    } else {
        None
    }
}

/// Reads the table_id of a section whose CRC may be broken: the failure is
/// still classified by table class.
pub fn peek_table_id(payload: &[u8]) -> (r: Option<u8>)
    ensures
        r == peeked_table_id(payload@),
{
    if payload.len() == 0 {
        return None;
    }
    let start = 1 + payload[0] as usize;
    if start < payload.len() {
        Some(payload[start])
    } else {
        None
    }
}

/// The error reported for a rejected payload, in check order.
pub open spec fn sec_error(p: Seq<u8>) -> SectionError {
    if p.len() == 0 {
        SectionError::EmptyPayload
    } else if p.len() < sec_start(p) + 8 {
        SectionError::ShortSection
    } else if sec_slen(p) < 9 {
        SectionError::InvalidLength
    } else if sec_end(p) > p.len() {
        SectionError::TruncatedSection
    } else {
        SectionError::CrcMismatch
    }
}

/// Spec-level view of the validated header fields.
pub open spec fn sec_table_id(p: Seq<u8>) -> u8 {
    p[sec_start(p)]
}

pub open spec fn sec_version(p: Seq<u8>) -> u8 {
    (p[sec_start(p) + 5] & 0x3E) >> 1
}

pub open spec fn sec_current_next(p: Seq<u8>) -> bool {
    p[sec_start(p) + 5] & 0x01 != 0
}

pub open spec fn sec_section_number(p: Seq<u8>) -> u8 {
    p[sec_start(p) + 6]
}

pub open spec fn sec_last_section(p: Seq<u8>) -> u8 {
    p[sec_start(p) + 7]
}

pub open spec fn sec_program_number(p: Seq<u8>) -> int {
    be16(p[sec_start(p) + 3], p[sec_start(p) + 4])
}

/// The section body: bytes between the fixed header and the CRC.
pub open spec fn sec_body(p: Seq<u8>) -> Seq<u8> {
    p.subrange(sec_start(p) + 8, sec_end(p) - 4)
}

/// A validated PSI/SI section: header fields and the body with CRC stripped.
pub struct SectionReader {
    pub table_id: u8,
    pub version: u8,
    pub current_next: bool,
    pub section_number: u8,
    pub last_section: u8,
    pub program_number: u16,
    pub body: Vec<u8>,
}

/// The fields of a reader that parsed payload `p`.
pub open spec fn sec_reader_of(r: SectionReader, p: Seq<u8>) -> bool {
    &&& r.table_id == sec_table_id(p)
    &&& r.version == sec_version(p)
    &&& r.current_next == sec_current_next(p)
    &&& r.section_number == sec_section_number(p)
    &&& r.last_section == sec_last_section(p)
    &&& r.program_number == sec_program_number(p)
    &&& r.body@ == sec_body(p)
}

impl SectionReader {
    /// Validates pointer, lengths and CRC-32, and exposes the section.
    pub fn new(payload: &[u8]) -> (r: Result<SectionReader, SectionError>)
        ensures
            r is Ok <==> sec_valid(payload@),
            r matches Ok(s) ==> sec_reader_of(s, payload@),
            r matches Err(e) ==> e == sec_error(payload@),
    {
        if payload.len() == 0 {
            return Err(SectionError::EmptyPayload);
        }
        let pointer = payload[0] as usize;
        let start = 1 + pointer;
        if payload.len() < start + 8 {
            return Err(SectionError::ShortSection);
        }
        let table_id = payload[start];
        let sec_len = ((payload[start + 1] & 0x0F) as usize) * 256 + payload[start + 2] as usize;
        if sec_len < 9 {
            return Err(SectionError::InvalidLength);
        }
        let end = start + 3 + sec_len;
        if end > payload.len() {
            return Err(SectionError::TruncatedSection);
        }

        let crc_calc = crc32_mpeg2(&payload[start..end - 4]);
        let crc_pkt = (payload[end - 4] as u32) * 0x1000000 + (payload[end - 3] as u32) * 0x10000
            + (payload[end - 2] as u32) * 0x100 + (payload[end - 1] as u32);
        if crc_calc != crc_pkt {
            return Err(SectionError::CrcMismatch);
        }

        let mut body: Vec<u8> = Vec::new();
        let mut i: usize = start + 8;
        while i < end - 4
            invariant
                start + 8 <= i <= end - 4,
                end <= payload@.len(),
                sec_valid(payload@),
                start == sec_start(payload@),
                end == sec_end(payload@),
                body@ == payload@.subrange(start + 8, i as int),
            decreases end - 4 - i,
        {
            body.push(payload[i]);
            proof {
                assert(body@ =~= payload@.subrange(start + 8, i + 1));
            }
            i += 1;
        }
        proof {
            assert(body@ =~= sec_body(payload@));
        }

        Ok(SectionReader {
            table_id,
            version: (payload[start + 5] & 0x3E) >> 1,
            current_next: payload[start + 5] & 0x01 != 0,
            section_number: payload[start + 6],
            last_section: payload[start + 7],
            program_number: (payload[start + 3] as u16) * 256 + payload[start + 4] as u16,
            body,
        })
    }
}

} // verus!
