//! Program Map Table (table_id 0x02).
use vstd::prelude::*;

use crate::section::{
    sec_body, sec_error, sec_program_number, sec_table_id, sec_valid, sec_version,
    SectionError, SectionReader,
};

verus! {

/// One elementary stream declared by a PMT.
#[derive(Debug, Clone, Copy, PartialEq, Eq, Structural)]
pub struct StreamInfo {
    pub stream_type: u8,
    pub elementary_pid: u16,
}

/// A validated PMT: version, program, PCR PID and the stream list.
#[derive(Debug, Clone)]
pub struct PmtSection {
    pub version: u8,
    pub program_number: u16,
    pub pcr_pid: u16,
    pub streams: Vec<StreamInfo>,
}

/// The stream list read from a PMT body starting at byte `idx`: 5-byte
/// heads (stream_type, elementary_pid, es_info_length), each followed by
/// `es_info_length` descriptor bytes that are skipped.
pub open spec fn pmt_streams_from(b: Seq<u8>, idx: int) -> Seq<StreamInfo>
    decreases b.len() - idx when idx >= 0
{
    if idx < 0 || idx + 5 > b.len() {
        Seq::empty()
    } else {
        let stype = b[idx];
        let pid = ((b[idx + 1] & 0x1F) as int) * 256 + b[idx + 2];
        let eslen = ((b[idx + 3] & 0x0F) as int) * 256 + b[idx + 4];
        let next = if idx + 5 + eslen > b.len() { b.len() as int } else { idx + 5 + eslen };
        seq![StreamInfo { stream_type: stype, elementary_pid: pid as u16 }]
            + pmt_streams_from(b, next)
    }
}

/// The PCR PID in the first two body bytes.
pub open spec fn pmt_pcr_pid(b: Seq<u8>) -> int {
    ((b[0] & 0x1F) as int) * 256 + b[1]
}

/// The program_info_length field in body bytes 2 and 3.
pub open spec fn pmt_prog_info_len(b: Seq<u8>) -> int {
    ((b[2] & 0x0F) as int) * 256 + b[3]
}

/// The stream list of a valid PMT payload: the loop starts after the fixed
/// body head and the program descriptors.
pub open spec fn pmt_streams(p: Seq<u8>) -> Seq<StreamInfo> {
    pmt_streams_from(sec_body(p), 4 + pmt_prog_info_len(sec_body(p)))
}

/// A payload parses as a PMT when its section is valid, its table_id is 2,
/// and the body holds at least the fixed four head bytes.
pub open spec fn pmt_ok(p: Seq<u8>) -> bool {
    sec_valid(p) && sec_table_id(p) == 0x02 && sec_body(p).len() >= 4
}

/// The error reported for a payload that does not parse as a PMT.
pub open spec fn pmt_error(p: Seq<u8>) -> SectionError {
    if !sec_valid(p) {
        sec_error(p)
    } else if sec_table_id(p) != 0x02 {
        SectionError::WrongTableId
    } else {
        SectionError::ShortBody
    }
}

impl PmtSection {
    /// A copy with the same fields.
    pub fn clone_section(&self) -> (r: PmtSection)
        ensures
            r.version == self.version,
            r.program_number == self.program_number,
            r.pcr_pid == self.pcr_pid,
            r.streams@ == self.streams@,
    {
        PmtSection {
            version: self.version,
            program_number: self.program_number,
            pcr_pid: self.pcr_pid,
            streams: vstd::slice::slice_to_vec(self.streams.as_slice()),
        }
    }
}

/// Recursive worker matching [`pmt_streams_from`].
fn pmt_collect(b: &[u8], idx: usize) -> (r: Vec<StreamInfo>)
    requires
        idx <= b@.len(),
    ensures
        r@ == pmt_streams_from(b@, idx as int),
    decreases b@.len() - idx,
{
    if b.len() - idx < 5 {
        Vec::new()
    } else {
        let stype = b[idx];
        proof {
            crate::bits::lemma_u8_and_bound(b@[idx + 1], 0x1F);
            crate::bits::lemma_u8_and_bound(b@[idx + 3], 0x0F);
        }
        let pid = ((b[idx + 1] & 0x1F) as u16) * 256 + b[idx + 2] as u16;
        let eslen = ((b[idx + 3] & 0x0F) as usize) * 256 + b[idx + 4] as usize;
        let rem = b.len() - (idx + 5);
        let next = if eslen > rem { b.len() } else { idx + 5 + eslen };
        let mut rest = pmt_collect(b, next);
        rest.insert(0, StreamInfo { stream_type: stype, elementary_pid: pid });
        proof {
            assert(rest@ =~= pmt_streams_from(b@, idx as int));
        }
        rest
    }
}

/// Parses a PMT payload: validates the section (including its CRC), reads
/// the PCR PID, skips the program descriptors and collects the streams.
pub fn parse_pmt(payload: &[u8]) -> (r: Result<PmtSection, SectionError>)
    ensures
        r is Ok <==> pmt_ok(payload@),
        r matches Ok(pmt) ==> {
            &&& pmt.version == sec_version(payload@)
            &&& pmt.program_number == sec_program_number(payload@)
            &&& pmt.pcr_pid == pmt_pcr_pid(sec_body(payload@))
            &&& pmt.streams@ == pmt_streams(payload@)
        },
        r matches Err(e) ==> e == pmt_error(payload@),
{
    let sec = match SectionReader::new(payload) {
        Ok(s) => s,
        Err(e) => { return Err(e); },
    };
    if sec.table_id != 0x02 {
        return Err(SectionError::WrongTableId);
    }
    let b = sec.body.as_slice();
    if b.len() < 4 {
        return Err(SectionError::ShortBody);
    }
    proof {
        crate::bits::lemma_u8_and_bound(b@[0], 0x1F);
        crate::bits::lemma_u8_and_bound(b@[2], 0x0F);
    }
    let pcr_pid = ((b[0] & 0x1F) as u16) * 256 + b[1] as u16;
    let prog_info_len = ((b[2] & 0x0F) as usize) * 256 + b[3] as usize;
    let loop_start = if 4 + prog_info_len > b.len() { b.len() } else { 4 + prog_info_len };
    let streams = pmt_collect(b, loop_start);
    proof {
        if 4 + prog_info_len > b@.len() {
            assert(pmt_streams_from(b@, 4 + pmt_prog_info_len(b@)) =~= Seq::<StreamInfo>::empty());
            assert(pmt_streams_from(b@, b@.len() as int) =~= Seq::<StreamInfo>::empty());
        }
    }
    Ok(PmtSection {
        version: sec.version,
        program_number: sec.program_number,
        pcr_pid,
        streams,
    })
}

} // verus!
