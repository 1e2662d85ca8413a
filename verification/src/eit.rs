//! Event Information Table, present/following (table_ids 0x4E / 0x4F):
//! CRC validation and version only.
use vstd::prelude::*;

use crate::section::{sec_error, sec_table_id, sec_valid, sec_version, SectionError, SectionReader};

verus! {

/// A validated EIT p/f: only the version is retained.
#[derive(Debug, Clone, Copy, PartialEq, Eq, Structural)]
pub struct EitPfSection {
    pub version: u8,
}

/// A payload parses as an EIT p/f when its section is valid and its
/// table_id is 0x4E or 0x4F.
pub open spec fn eit_ok(p: Seq<u8>) -> bool {
    sec_valid(p) && (sec_table_id(p) == 0x4E || sec_table_id(p) == 0x4F)
}

/// The error reported for a payload that does not parse as an EIT p/f.
pub open spec fn eit_error(p: Seq<u8>) -> SectionError {
    if !sec_valid(p) {
        sec_error(p)
    } else {
        SectionError::WrongTableId
    }
}

/// Parses an EIT p/f payload: CRC validation only.
pub fn parse_eit_pf(payload: &[u8]) -> (r: Result<(u8, EitPfSection), SectionError>)
    ensures
        r is Ok <==> eit_ok(payload@),
        r matches Ok((tid, eit)) ==> tid == sec_table_id(payload@) && eit.version
            == sec_version(payload@),
        r matches Err(e) ==> e == eit_error(payload@),
{
    let sec = match SectionReader::new(payload) {
        Ok(s) => s,
        Err(e) => { return Err(e); },
    };
    if sec.table_id != 0x4E && sec.table_id != 0x4F {
        return Err(SectionError::WrongTableId);
    }
    Ok((sec.table_id, EitPfSection { version: sec.version }))
}

} // verus!
