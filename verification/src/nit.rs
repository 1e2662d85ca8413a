//! Network Information Table (table_ids 0x40 / 0x41): network id and the
//! transport list; descriptors are skipped.
use vstd::prelude::*;

use crate::section::{
    be16, sec_body, sec_error, sec_table_id, sec_valid, sec_version, SectionError, SectionReader,
};

verus! {

/// One transport entry of a NIT.
#[derive(Debug, Clone, Copy, PartialEq, Eq, Structural)]
pub struct Transport {
    pub ts_id: u16,
    pub orig_net_id: u16,
}

/// A validated NIT: version, network id and transports.
#[derive(Debug, Clone)]
pub struct NitSection {
    pub version: u8,
    pub network_id: u16,
    pub transports: Vec<Transport>,
}

/// The transport list read from a NIT body starting at byte `idx`: 6-byte
/// heads followed by a descriptor loop. An entry whose descriptors run past
/// the body is dropped, and the walk stops there.
pub open spec fn nit_transports_from(b: Seq<u8>, idx: int) -> Seq<Transport>
    decreases b.len() - idx when idx >= 0
{
    if idx < 0 || idx + 6 > b.len() {
        Seq::empty()
    } else {
        let ts_id = be16(b[idx], b[idx + 1]);
        let onid = be16(b[idx + 2], b[idx + 3]);
        let dlen = ((b[idx + 4] & 0x0F) as int) * 256 + b[idx + 5];
        if idx + 6 + dlen > b.len() {
            Seq::empty()
        } else {
            seq![Transport { ts_id: ts_id as u16, orig_net_id: onid as u16 }]
                + nit_transports_from(b, idx + 6 + dlen)
        }
    }
}

/// Offset of the transport loop: past the network descriptors.
pub open spec fn nit_loop_start(b: Seq<u8>) -> int {
    4 + ((b[2] & 0x0F) as int) * 256 + b[3]
}

/// A payload parses as a NIT when its section is valid, its table_id is
/// 0x40 or 0x41, the body holds the fixed head, and the network descriptors
/// fit inside the body.
pub open spec fn nit_ok(p: Seq<u8>) -> bool {
    &&& sec_valid(p)
    &&& (sec_table_id(p) == 0x40 || sec_table_id(p) == 0x41)
    &&& sec_body(p).len() >= 8
    &&& nit_loop_start(sec_body(p)) <= sec_body(p).len()
}

/// The error reported for a payload that does not parse as a NIT.
pub open spec fn nit_error(p: Seq<u8>) -> SectionError {
    if !sec_valid(p) {
        sec_error(p)
    } else if sec_table_id(p) != 0x40 && sec_table_id(p) != 0x41 {
        SectionError::WrongTableId
    } else if sec_body(p).len() < 8 {
        SectionError::ShortBody
    } else {
        SectionError::TruncatedSection
    }
}

/// Recursive worker matching [`nit_transports_from`].
fn nit_collect(b: &[u8], idx: usize) -> (r: Vec<Transport>)
    requires
        idx <= b@.len(),
    ensures
        r@ == nit_transports_from(b@, idx as int),
    decreases b@.len() - idx,
{
    if b.len() - idx < 6 {
        Vec::new()
    } else {
        let ts_id = (b[idx] as u16) * 256 + b[idx + 1] as u16;
        let onid = (b[idx + 2] as u16) * 256 + b[idx + 3] as u16;
        proof {
            crate::bits::lemma_u8_and_bound(b@[idx + 4], 0x0F);
        }
        let dlen = ((b[idx + 4] & 0x0F) as usize) * 256 + b[idx + 5] as usize;
        if 6 + dlen > b.len() - idx {
            Vec::new()
        } else {
            let mut rest = nit_collect(b, idx + 6 + dlen);
            rest.insert(0, Transport { ts_id, orig_net_id: onid });
            proof {
                assert(rest@ =~= nit_transports_from(b@, idx as int));
            }
            rest
        }
    }
}

/// Parses a NIT payload: validates the section (including its CRC), reads
/// the network id, skips the network descriptors and collects transports.
pub fn parse_nit(payload: &[u8]) -> (r: Result<(u8, NitSection), SectionError>)
    ensures
        r is Ok <==> nit_ok(payload@),
        r matches Ok((tid, nit)) ==> {
            &&& tid == sec_table_id(payload@)
            &&& nit.version == sec_version(payload@)
            &&& nit.network_id == be16(sec_body(payload@)[0], sec_body(payload@)[1])
            &&& nit.transports@ == nit_transports_from(
                sec_body(payload@),
                nit_loop_start(sec_body(payload@)),
            )
        },
        r matches Err(e) ==> e == nit_error(payload@),
{
    let sec = match SectionReader::new(payload) {
        Ok(s) => s,
        Err(e) => { return Err(e); },
    };
    if sec.table_id != 0x40 && sec.table_id != 0x41 {
        return Err(SectionError::WrongTableId);
    }
    let b = sec.body.as_slice();
    if b.len() < 8 {
        return Err(SectionError::ShortBody);
    }
    let network_id = (b[0] as u16) * 256 + b[1] as u16;
    proof {
        crate::bits::lemma_u8_and_bound(b@[2], 0x0F);
    }
    let net_desc_len = ((b[2] & 0x0F) as usize) * 256 + b[3] as usize;
    let idx = 4 + net_desc_len;
    if idx > b.len() {
        return Err(SectionError::TruncatedSection);
    }
    let transports = nit_collect(b, idx);
    Ok((sec.table_id, NitSection { version: sec.version, network_id, transports }))
}

} // verus!
