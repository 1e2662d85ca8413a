//! Conditional Access Table (table_id 0x01): CRC validation and version.
use vstd::prelude::*;

use crate::section::{sec_error, sec_table_id, sec_valid, sec_version, SectionError, SectionReader};

verus! {

/// A validated CAT: only the version is retained.
#[derive(Debug, Clone, Copy, PartialEq, Eq, Structural)]
pub struct CatSection {
    pub version: u8,
}

/// A payload parses as a CAT when its section is valid and its table_id is 1.
pub open spec fn cat_ok(p: Seq<u8>) -> bool {
    sec_valid(p) && sec_table_id(p) == 0x01
}

/// The error reported for a payload that does not parse as a CAT.
pub open spec fn cat_error(p: Seq<u8>) -> SectionError {
    if !sec_valid(p) {
        sec_error(p)
    } else {
        SectionError::WrongTableId
    }
}

/// Parses a CAT payload: CRC validation only; exposes table_id and version.
pub fn parse_cat(payload: &[u8]) -> (r: Result<(u8, CatSection), SectionError>)
    ensures
        r is Ok <==> cat_ok(payload@),
        r matches Ok((tid, cat)) ==> tid == sec_table_id(payload@) && cat.version
            == sec_version(payload@),
        r matches Err(e) ==> e == cat_error(payload@),
{
    let sec = match SectionReader::new(payload) {
        Ok(s) => s,
        Err(e) => { return Err(e); },
    };
    if sec.table_id != 0x01 {
        return Err(SectionError::WrongTableId);
    }
    Ok((sec.table_id, CatSection { version: sec.version }))
}

} // verus!
