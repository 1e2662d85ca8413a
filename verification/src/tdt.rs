//! TDT (table_id 0x70, no CRC) and TOT (table_id 0x73, CRC present).
use vstd::prelude::*;

use crate::crc32::{crc32_mpeg2, crc32_mpeg2_of};
use crate::section::{be32, sec_end, sec_slen, sec_start, SectionError};

verus! {

/// The time table carried on the TDT/TOT PID: the UTC field bytes for a
/// TDT, or the UTC field plus descriptors (CRC stripped) for a TOT.
#[derive(Debug, Clone)]
pub enum TdtTot {
    Tdt(Vec<u8>),
    Tot(Vec<u8>),
}

/// TDT/TOT framing: pointer, table_id and length, with no fixed 8-byte
/// header demanded (the time tables use the short section form).
pub open spec fn tdt_framed(p: Seq<u8>) -> bool {
    &&& p.len() > 0
    &&& p.len() >= sec_start(p) + 3
    &&& sec_end(p) <= p.len()
}

/// A payload parses as a TDT when framed with table_id 0x70; it parses as
/// a TOT when framed with table_id 0x73, the length leaves room for the
/// CRC, and the CRC over the section bytes matches the stored one.
pub open spec fn tdt_tot_ok(p: Seq<u8>) -> bool {
    &&& tdt_framed(p)
    &&& {
        ||| p[sec_start(p)] == 0x70
        ||| (p[sec_start(p)] == 0x73 && sec_slen(p) >= 4 && tot_crc_ok(p))
    }
}

/// The CRC of a TOT: computed over the section bytes without the CRC,
/// compared with the last four section bytes, big-endian.
pub open spec fn tot_crc_ok(p: Seq<u8>) -> bool {
    crc32_mpeg2_of(p.subrange(sec_start(p), sec_end(p) - 4)) == be32(
        p[sec_end(p) - 4],
        p[sec_end(p) - 3],
        p[sec_end(p) - 2],
        p[sec_end(p) - 1],
    )
}

/// The error reported for a payload that parses as neither TDT nor TOT.
pub open spec fn tdt_tot_error(p: Seq<u8>) -> SectionError {
    if p.len() == 0 {
        SectionError::EmptyPayload
    } else if p.len() < sec_start(p) + 3 {
        SectionError::ShortSection
    } else if sec_end(p) > p.len() {
        SectionError::TruncatedSection
    } else if p[sec_start(p)] == 0x70 {
        SectionError::WrongTableId  // unreachable: a framed TDT is accepted
    } else if p[sec_start(p)] == 0x73 {
        if sec_slen(p) < 4 {
            SectionError::InvalidLength
        } else {
            SectionError::CrcMismatch
        }
    } else {
        SectionError::WrongTableId
    }
}

/// Parses a TDT or TOT payload. A TDT carries no CRC; a TOT's CRC is
/// validated. The returned bytes start after the 3-byte section head.
pub fn parse_tdt_tot(payload: &[u8]) -> (r: Result<(u8, TdtTot), SectionError>)
    ensures
        r is Ok <==> tdt_tot_ok(payload@),
        r matches Ok((tid, t)) ==> {
            &&& tid == payload@[sec_start(payload@)]
            &&& (tid == 0x70 || tid == 0x73)
            &&& (t matches TdtTot::Tdt(b) ==> tid == 0x70 && b@ == payload@.subrange(
                sec_start(payload@) + 3,
                sec_end(payload@),
            ))
            &&& (t matches TdtTot::Tot(b) ==> tid == 0x73 && b@ == payload@.subrange(
                sec_start(payload@) + 3,
                sec_end(payload@) - 4,
            ))
        },
        r matches Err(e) ==> e == tdt_tot_error(payload@),
{
    if payload.len() == 0 {
        return Err(SectionError::EmptyPayload);
    }
    let pointer = payload[0] as usize;
    let start = 1 + pointer;
    if payload.len() < start + 3 {
        return Err(SectionError::ShortSection);
    }
    let tid = payload[start];
    proof {
        crate::bits::lemma_u8_and_bound(payload@[start + 1], 0x0F);
    }
    let sec_len = ((payload[start + 1] & 0x0F) as usize) * 256 + payload[start + 2] as usize;
    let end = start + 3 + sec_len;
    if end > payload.len() {
        return Err(SectionError::TruncatedSection);
    }

    if tid == 0x70 {
        let body = vstd::slice::slice_to_vec(vstd::slice::slice_subrange(payload, start + 3, end));
        Ok((tid, TdtTot::Tdt(body)))
    } else if tid == 0x73 {
        if sec_len < 4 {
            return Err(SectionError::InvalidLength);
        }
        let crc_calc = crc32_mpeg2(vstd::slice::slice_subrange(payload, start, end - 4));
        let crc_pkt = (payload[end - 4] as u32) * 0x1000000 + (payload[end - 3] as u32) * 0x10000
            + (payload[end - 2] as u32) * 0x100 + (payload[end - 1] as u32);
        if crc_calc != crc_pkt {
            return Err(SectionError::CrcMismatch);
        }
        let body = vstd::slice::slice_to_vec(
            vstd::slice::slice_subrange(payload, start + 3, end - 4),
        );
        Ok((tid, TdtTot::Tot(body)))
    } else {
        Err(SectionError::WrongTableId)
    }
}

} // verus!
