//! Program Association Table (table_id 0x00).
use vstd::prelude::*;

use crate::section::{
    be16, sec_body, sec_current_next, sec_error, sec_table_id, sec_valid, sec_version,
    SectionError, SectionReader,
};

verus! {

/// One PAT entry: a program and the PID that carries its PMT.
#[derive(Debug, Clone, Copy, PartialEq, Eq, Structural)]
pub struct PatEntry {
    pub program_number: u16,
    pub pmt_pid: u16,
}

/// A validated PAT: version, current/next flag and the program list.
#[derive(Debug, Clone)]
pub struct PatSection {
    pub version: u8,
    pub current_next: bool,
    pub programs: Vec<PatEntry>,
}

/// The program list read from a PAT body starting at byte `idx`: 4-byte
/// groups of (program_number, pmt_pid), with program 0 (the NIT PID) skipped.
pub open spec fn pat_programs_from(b: Seq<u8>, idx: int) -> Seq<PatEntry>
    decreases b.len() - idx when idx >= 0
{
    if idx < 0 || idx + 4 > b.len() {
        Seq::empty()
    } else {
        let pn = be16(b[idx], b[idx + 1]);
        let pid = ((b[idx + 2] & 0x1F) as int) * 256 + b[idx + 3];
        let rest = pat_programs_from(b, idx + 4);
        if pn != 0 {
            seq![PatEntry { program_number: pn as u16, pmt_pid: pid as u16 }] + rest
        } else {
            rest
        }
    }
}

/// The program list of a valid PAT payload.
pub open spec fn pat_programs(p: Seq<u8>) -> Seq<PatEntry> {
    pat_programs_from(sec_body(p), 0)
}

/// A payload parses as a PAT when its section is valid and its table_id is 0.
pub open spec fn pat_ok(p: Seq<u8>) -> bool {
    sec_valid(p) && sec_table_id(p) == 0x00
}

/// The error reported for a payload that does not parse as a PAT.
pub open spec fn pat_error(p: Seq<u8>) -> SectionError {
    if !sec_valid(p) {
        sec_error(p)
    } else {
        SectionError::WrongTableId
    }
}

impl PatSection {
    /// A copy with the same fields.
    pub fn clone_section(&self) -> (r: PatSection)
        ensures
            r.version == self.version,
            r.current_next == self.current_next,
            r.programs@ == self.programs@,
    {
        PatSection {
            version: self.version,
            current_next: self.current_next,
            programs: vstd::slice::slice_to_vec(self.programs.as_slice()),
        }
    }
}

/// Recursive worker matching [`pat_programs_from`].
fn pat_collect(b: &[u8], idx: usize) -> (r: Vec<PatEntry>)
    requires
        idx <= b@.len(),
    ensures
        r@ == pat_programs_from(b@, idx as int),
    decreases b@.len() - idx,
{
    if b.len() - idx < 4 {
        Vec::new()
    } else {
        let pn = (b[idx] as u16) * 256 + b[idx + 1] as u16;
        proof {
            crate::bits::lemma_u8_and_bound(b@[idx + 2], 0x1F);
        }
        let pid = ((b[idx + 2] & 0x1F) as u16) * 256 + b[idx + 3] as u16;
        let mut rest = pat_collect(b, idx + 4);
        if pn != 0 {
            rest.insert(0, PatEntry { program_number: pn, pmt_pid: pid });
        }
        proof {
            assert(rest@ =~= pat_programs_from(b@, idx as int));
        }
        rest
    }
}

/// Parses a PAT payload: validates the section (including its CRC) and
/// collects the program list, skipping program 0.
pub fn parse_pat(payload: &[u8]) -> (r: Result<PatSection, SectionError>)
    ensures
        r is Ok <==> pat_ok(payload@),
        r matches Ok(pat) ==> {
            &&& pat.version == sec_version(payload@)
            &&& pat.current_next == sec_current_next(payload@)
            &&& pat.programs@ == pat_programs(payload@)
        },
        r matches Err(e) ==> e == pat_error(payload@),
{
    let sec = match SectionReader::new(payload) {
        Ok(s) => s,
        Err(e) => { return Err(e); },
    };
    if sec.table_id != 0x00 {
        return Err(SectionError::WrongTableId);
    }
    let programs = pat_collect(sec.body.as_slice(), 0);
    Ok(PatSection { version: sec.version, current_next: sec.current_next, programs })
}

} // verus!
