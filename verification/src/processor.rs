//! The per-packet dispatcher: TS header decode, PSI and elementary-stream
//! routing, PCR extraction, splice-countdown checking and the TR 101 290
//! engine.
use vstd::prelude::*;

use crate::constants::{NULL_PID, PID_LIMIT, TS_PACKET_SIZE, TS_SYNC_BYTE};
use crate::keymap::U16Map;
use crate::pat::{parse_pat, PatSection};
use crate::pidmap::PidMap;
use crate::pmt::{parse_pmt, PmtSection};
use crate::section::SectionError;
use crate::si_cache::SiCache;
use crate::stats::StatsManager;
use crate::tr101::{splice_legal, Tr101Metrics};
use vstd::string::StringExecFns;
use crate::types::{
    mode_is_p1, mode_is_p2, mode_is_p3, mode_p1, mode_p2, mode_p3, AnalysisCommand, AnalysisMode,
    AnalysisStatus, CodecInfo, CrcValidation, EsStats, PacketContext, SiTableContext,
    SubtitleInfo,
};

verus! {

/// Top-level per-packet dispatcher owning all stream state.
pub struct PacketProcessor {
    /// Program number to the PAT that declared it.
    pub pat_map: U16Map<PatSection>,
    /// PMT PID to its most recent validated PMT.
    pub pmt_map: PidMap<PmtSection>,
    /// Program number to its PCR PID.
    pub pcr_pid_map: U16Map<u16>,
    pub stats_manager: StatsManager,
    pub si_cache: SiCache,
    pub tr101: Option<Tr101Metrics>,
}

/// Whether the cached PATs declare `pid` as a PMT PID.
pub open spec fn declares_pmt(pats: Map<u16, PatSection>, pid: u16) -> bool {
    exists|k: u16|
        #[trigger] pats.contains_key(k) && exists|j: int|
            0 <= j < pats[k].programs@.len() && #[trigger] pats[k].programs@[j].pmt_pid == pid
}

/// Whether a cached PMT declares `pid` as an elementary stream PID.
pub open spec fn declares_es(pmts: Map<u16, PmtSection>, pid: u16) -> bool {
    exists|k: u16|
        #[trigger] pmts.contains_key(k) && exists|j: int|
            0 <= j < pmts[k].streams@.len() && #[trigger] pmts[k].streams@[j].elementary_pid
                == pid
}

/// The splice countdown byte of a packet with an adaptation field: the
/// last byte of the field.
pub open spec fn splice_byte(c: Seq<u8>) -> i8 {
    c[5 + c[4]] as i8
}

/// A packet that carries a splice countdown: adaptation field present with
/// the splicing-point flag set and the countdown byte inside the packet.
pub open spec fn has_splice(c: Seq<u8>) -> bool {
    &&& crate::tr101::pkt_afc(c) == 3
    &&& c[4] >= 1
    &&& (c[5] & 0x04) != 0
    &&& c[4] < 183
}

/// A payload that starts a video PES packet carrying a PTS: the start
/// code, a video stream id, and the PTS flag, with the five PTS bytes
/// present.
pub open spec fn pes_has_pts(p: Seq<u8>) -> bool {
    &&& p.len() > 14
    &&& p[0] == 0x00
    &&& p[1] == 0x00
    &&& p[2] == 0x01
    &&& (p[3] & 0xF0) == 0xE0
    &&& ((p[7] & 0xC0) >> 6) & 0b10 != 0
}

/// The 33-bit PTS spread over payload bytes 9..14.
pub open spec fn pes_pts(p: Seq<u8>) -> u64 {
    (((p[9] & 0x0E) as int) * 0x20000000 + (p[10] as int) * 0x400000 + (((p[11] & 0xFE) as int)
        / 2) * 0x8000 + (p[12] as int) * 0x80 + (p[13] as int) / 2) as u64
}

/// The PTS sample ring after one sample: appended, trimmed to ten.
pub open spec fn pushed_samples(s: Seq<u64>, pts: u64) -> Seq<u64> {
    let s2 = s.push(pts);
    if s2.len() > 10 {
        s2.skip(1)
    } else {
        s2
    }
}

/// TR 101 290 counter monotonicity lifted to the optional engine.
pub open spec fn tr101_monotone(a: Option<Tr101Metrics>, b: Option<Tr101Metrics>) -> bool {
    match (a, b) {
        (Some(x), Some(y)) => Tr101Metrics::counters_monotone(&x, &y),
        (None, None) => true,
        _ => false,
    }
}

impl PacketProcessor {
    pub open spec fn wf(&self) -> bool {
        &&& self.pat_map.wf()
        &&& self.pmt_map.wf()
        &&& self.pcr_pid_map.wf()
        &&& self.stats_manager.wf()
        &&& self.si_cache.wf()
        &&& (self.tr101 matches Some(t) ==> t.wf())
    }

    /// A fresh processor; the TR 101 290 engine is attached on request.
    pub fn new(enable_tr101: bool, now_ms: u64) -> (r: PacketProcessor)
        ensures
            r.wf(),
            r.tr101 is Some <==> enable_tr101,
            r.pat_map@ == Map::<u16, PatSection>::empty(),
            r.pmt_map@ == Map::<u16, PmtSection>::empty(),
            r.pcr_pid_map@ == Map::<u16, u16>::empty(),
            r.stats_manager.es_stats@ == Map::<u16, EsStats>::empty(),
            r.si_cache.pat is None && r.si_cache.sdt is None && r.si_cache.nit is None,
    {
        PacketProcessor {
            pat_map: U16Map::new(),
            pmt_map: PidMap::new(),
            pcr_pid_map: U16Map::new(),
            stats_manager: StatsManager::new(),
            si_cache: SiCache::new(),
            tr101: if enable_tr101 {
                Some(Tr101Metrics::new(now_ms))
            } else {
                None
            },
        }
    }

    /// Attaches the TR 101 290 engine when a TR 101 290 mode is requested
    /// and none is attached yet; other requests leave the state as it is.
    pub fn set_analysis_mode(&mut self, mode: Option<AnalysisMode>, now_ms: u64)
        requires
            old(self).wf(),
        ensures
            final(self).wf(),
            (mode matches Some(m) && mode_p1(m) && old(self).tr101 is None) ==> final(self).tr101 is Some,
            !(mode matches Some(m) && mode_p1(m) && old(self).tr101 is None) ==> *final(self)
                == *old(self),
    {
        match mode {
            Some(m) => {
                if matches!(m, AnalysisMode::Tr101 | AnalysisMode::Tr101Priority1
                    | AnalysisMode::Tr101Priority12) {
                    if self.tr101.is_none() {
                        self.tr101 = Some(Tr101Metrics::new(now_ms));
                    }
                }
            },
            None => {},
        }
    }

    /// The PCR PID recorded for a program.
    pub fn get_pcr_pid(&self, program_number: u16) -> (r: Option<u16>)
        requires
            self.wf(),
        ensures
            r is Some <==> self.pcr_pid_map@.contains_key(program_number),
            r matches Some(p) ==> p == self.pcr_pid_map@[program_number],
    {
        match self.pcr_pid_map.get(program_number) {
            Some(p) => Some(*p),
            None => None,
        }
    }

    /// The version of the cached PMT on a PMT PID.
    pub fn get_pmt_version(&self, pmt_pid: u16) -> (r: Option<u8>)
        requires
            self.wf(),
            pmt_pid < PID_LIMIT,
        ensures
            r is Some <==> self.pmt_map@.contains_key(pmt_pid),
            r matches Some(v) ==> v == self.pmt_map@[pmt_pid].version,
    {
        match self.pmt_map.get(pmt_pid) {
            Some(pmt) => Some(pmt.version),
            None => None,
        }
    }

    /// A copy of the TR 101 290 counters; a fresh zeroed record when the
    /// engine is not attached.
    pub fn get_tr101_metrics(&self) -> (r: Tr101Metrics)
        requires
            self.wf(),
        ensures
            r.wf(),
            self.tr101 matches Some(t) ==> Tr101Metrics::state_eq(&r, &t),
    {
        match &self.tr101 {
            Some(t) => t.duplicate(),
            None => Tr101Metrics::new(0),
        }
    }

    /// Evicts elementary streams idle longer than `timeout_secs`. The
    /// TR 101 290 counters accumulated so far are untouched.
    pub fn cleanup_old_streams(&mut self, timeout_secs: u64, now_ms: u64)
        requires
            old(self).wf(),
            timeout_secs <= u64::MAX / 1000,
        ensures
            final(self).wf(),
            final(self).tr101 == old(self).tr101,
            final(self).pat_map@ == old(self).pat_map@,
            final(self).pmt_map@ == old(self).pmt_map@,
            forall|p: u16|
                final(self).stats_manager.es_stats@.contains_key(p) <==> (#[trigger] old(self).stats_manager.es_stats@.contains_key(p) && now_ms.saturating_sub(
                    old(self).stats_manager.es_stats@[p].start_ms,
                ) < timeout_secs * 1000),
            forall|p: u16|
                final(self).stats_manager.es_stats@.contains_key(p)
                    ==> #[trigger] final(self).stats_manager.es_stats@[p] == old(self).stats_manager.es_stats@[p],
    {
        self.stats_manager.cleanup_old_streams(timeout_secs * 1000, now_ms);
    }

    /// The SI table dispatch for one packet payload: PAT on PID 0, CAT on
    /// PID 1, NIT on PID 0x10, PMT on the PIDs the cached PATs declare,
    /// SDT then EIT on PID 0x11, TDT/TOT on PID 0x14. Only payloads that
    /// start a section (PUSI set) are examined, and only sections whose
    /// CRC validates update the cache.
    #[verifier::rlimit(100)]
    #[verifier::spinoff_prover]
    fn process_si_tables(
        &mut self,
        pid: u16,
        payload_unit_start: bool,
        payload: &[u8],
        context: &mut SiTableContext,
        analysis_mode: AnalysisMode,
    ) -> (r: ())
        requires
            old(self).wf(),
            pid < PID_LIMIT,
            old(context).pat_crc_ok is None,
            old(context).pmt_crc_ok is None,
            old(context).cat_crc_ok is None,
            old(context).nit_crc_ok is None,
            old(context).sdt_crc_ok is None,
            old(context).eit_crc_ok is None,
            old(context).tdt_crc_ok is None,
        ensures
            final(self).wf(),
            tr101_monotone(old(self).tr101, final(self).tr101),
            final(self).stats_manager.es_stats@ == old(self).stats_manager.es_stats@,
            old(self).tr101 matches Some(t) ==> (final(self).tr101 matches Some(t2)
                && t2.sync_byte_errors == t.sync_byte_errors && t2.continuity_counter_errors
                == t.continuity_counter_errors && t2.last_cc@ == t.last_cc@
                && t2.splice_count_errors == t.splice_count_errors && t2.last_splice_value
                == t.last_splice_value && t2.pid_errors == t.pid_errors && t2.last_pat_seen
                == t.last_pat_seen && t2.pat_crc_errors == t.pat_crc_errors
                && t2.pmt_crc_errors == t.pmt_crc_errors && t2.service_id_mismatch
                == t.service_id_mismatch && t2.last_pcr_info@ == t.last_pcr_info@),
            // A payload without PUSI never touches the tables.
            !payload_unit_start ==> final(self).pat_map@ == old(self).pat_map@ && final(self).pmt_map@ == old(self).pmt_map@ && final(self).si_cache.pat == old(self).si_cache.pat && final(self).si_cache.pmts@ == old(self).si_cache.pmts@ && final(self).si_cache.sdt == old(self).si_cache.sdt && final(self).si_cache.nit == old(self).si_cache.nit && *final(context) == *old(context),
            // A PID outside the table set never touches the tables.
            (pid != 0x0000 && pid != 0x0001 && pid != 0x0010 && pid != 0x0011 && pid != 0x0014
                && !declares_pmt(old(self).pat_map@, pid)) ==> final(self).pat_map@ == old(self).pat_map@ && final(self).pmt_map@ == old(self).pmt_map@ && final(self).si_cache.pat
                == old(self).si_cache.pat && final(self).si_cache.pmts@ == old(self).si_cache.pmts@ && final(self).si_cache.sdt == old(self).si_cache.sdt && final(self).si_cache.nit == old(self).si_cache.nit && *final(context) == *old(context),
            // Only a PAT packet can change the program map.
            pid != 0x0000 ==> final(self).pat_map@ == old(self).pat_map@,
            // The PAT outcome: validated, CRC-failed, or not evaluable.
            (payload_unit_start && pid == 0x0000) ==> final(context).pat_crc_ok == (
            if crate::pat::pat_ok(payload@) {
                Some(true)
            } else if crate::section::sec_crc_failed(payload@) {
                Some(false)
            } else {
                Option::<bool>::None
            }),
            !(payload_unit_start && pid == 0x0000) ==> final(context).pat_crc_ok is None,
            // A validated PAT replaces the cached PAT.
            (payload_unit_start && pid == 0x0000 && crate::pat::pat_ok(payload@)) ==> (final(self).si_cache.pat matches Some(p) && p.programs@ == crate::pat::pat_programs(payload@)),
            !(payload_unit_start && pid == 0x0000 && crate::pat::pat_ok(payload@)) ==> final(self).si_cache.pat == old(self).si_cache.pat,
            // The PMT outcome, for declared PMT PIDs.
            (payload_unit_start && pid != 0x0000 && declares_pmt(old(self).pat_map@, pid))
                ==> final(context).pmt_crc_ok == (
            if crate::pmt::pmt_ok(payload@) {
                Some(true)
            } else if crate::section::sec_crc_failed(payload@) {
                Some(false)
            } else {
                Option::<bool>::None
            }),
            !(payload_unit_start && pid != 0x0000 && declares_pmt(old(self).pat_map@, pid))
                ==> final(context).pmt_crc_ok is None,
            // A validated PMT replaces the cached PMT for its PID.
            (payload_unit_start && pid != 0x0000 && declares_pmt(old(self).pat_map@, pid)
                && crate::pmt::pmt_ok(payload@)) ==> final(self).pmt_map@.contains_key(pid)
                && final(self).pmt_map@[pid].streams@ == crate::pmt::pmt_streams(payload@)
                && final(self).pmt_map@[pid].pcr_pid == crate::pmt::pmt_pcr_pid(
                crate::section::sec_body(payload@),
            ) && final(self).si_cache.pmts@.contains_key(pid),
            // The CAT outcome.
            (payload_unit_start && pid == 0x0001) ==> final(context).cat_crc_ok == (
            if crate::cat::cat_ok(payload@) {
                Some(true)
            } else if crate::section::sec_crc_failed(payload@) {
                Some(false)
            } else {
                Option::<bool>::None
            }),
            !(payload_unit_start && pid == 0x0001) ==> final(context).cat_crc_ok is None,
            // The NIT outcome, and the cache update on a validated NIT.
            (payload_unit_start && pid == 0x0010) ==> final(context).nit_crc_ok == (
            if crate::nit::nit_ok(payload@) {
                Some(true)
            } else if crate::section::sec_crc_failed(payload@) {
                Some(false)
            } else {
                Option::<bool>::None
            }),
            !(payload_unit_start && pid == 0x0010) ==> final(context).nit_crc_ok is None,
            (payload_unit_start && pid == 0x0010 && crate::nit::nit_ok(payload@)) ==> final(self).si_cache.nit is Some,
            !(payload_unit_start && pid == 0x0010 && crate::nit::nit_ok(payload@)) ==> final(self).si_cache.nit == old(self).si_cache.nit,
            // The SDT outcome: a CRC failure is classified by the readable
            // table_id; structural failures leave the counter untouched.
            (payload_unit_start && pid == 0x0011) ==> final(context).sdt_crc_ok == (
            if crate::sdt::sdt_ok(payload@) {
                Some(true)
            } else if crate::section::sec_crc_failed(payload@) && (
            crate::section::peeked_table_id(payload@) == Some(0x42u8)
                || crate::section::peeked_table_id(payload@) == Some(0x46u8)) {
                Some(false)
            } else {
                Option::<bool>::None
            }),
            !(payload_unit_start && pid == 0x0011) ==> final(context).sdt_crc_ok is None,
            (payload_unit_start && pid == 0x0011 && crate::sdt::sdt_ok(payload@)) ==> final(self).si_cache.sdt is Some,
            !(payload_unit_start && pid == 0x0011 && crate::sdt::sdt_ok(payload@)) ==> final(self).si_cache.sdt == old(self).si_cache.sdt,
            // The EIT outcome, classified alike.
            (payload_unit_start && pid == 0x0011) ==> final(context).eit_crc_ok == (
            if crate::eit::eit_ok(payload@) {
                Some(true)
            } else if crate::section::sec_crc_failed(payload@) && (
            crate::section::peeked_table_id(payload@) == Some(0x4Eu8)
                || crate::section::peeked_table_id(payload@) == Some(0x4Fu8)) {
                Some(false)
            } else {
                Option::<bool>::None
            }),
            !(payload_unit_start && pid == 0x0011) ==> final(context).eit_crc_ok is None,
            // The TDT/TOT outcome: a TOT's CRC validates or fails; a TDT
            // carries no CRC and reports nothing.
            (payload_unit_start && pid == 0x0014) ==> final(context).tdt_crc_ok == (
            if crate::tdt::tdt_tot_ok(payload@) && crate::section::peeked_table_id(payload@)
                == Some(0x73u8) {
                Some(true)
            } else if crate::tdt::tdt_framed(payload@) && crate::section::peeked_table_id(
                payload@,
            ) == Some(0x73u8) && crate::section::sec_slen(payload@) >= 4 && !crate::tdt::tot_crc_ok(
                payload@,
            ) {
                Some(false)
            } else {
                Option::<bool>::None
            }),
            !(payload_unit_start && pid == 0x0014) ==> final(context).tdt_crc_ok is None,
    {
        // PAT (PID 0x0000)
        if pid == 0x0000 && payload_unit_start {
            match parse_pat(payload) {
                Ok(pat) => {
                    context.pat_crc_ok = Some(true);
                    match &mut self.tr101 {
                        Some(t) => {
                            let n = pat.programs.len();
                            let mut i: usize = 0;
                            while i < n
                                invariant
                                    t.wf(),
                                    n == pat.programs@.len(),
                                    i <= n,
                                    old(self).tr101 matches Some(t0)
                                        && Tr101Metrics::counters_monotone(&t0, t)
                                        && t.sync_byte_errors == t0.sync_byte_errors
                                        && t.continuity_counter_errors
                                        == t0.continuity_counter_errors && t.last_cc@
                                        == t0.last_cc@ && t.splice_count_errors
                                        == t0.splice_count_errors && t.last_splice_value
                                        == t0.last_splice_value && t.pid_errors
                                        == t0.pid_errors && t.last_pat_seen
                                        == t0.last_pat_seen && t.pat_crc_errors
                                        == t0.pat_crc_errors && t.pmt_crc_errors
                                        == t0.pmt_crc_errors && t.service_id_mismatch
                                        == t0.service_id_mismatch && t.last_pcr_info@
                                        == t0.last_pcr_info@,
                                decreases n - i,
                            {
                                let pn = pat.programs[i].program_number;
                                t.check_pat_version_change(pn, pat.version, analysis_mode);
                                i += 1;
                            }
                        },
                        None => {},
                    }
                    self.si_cache.update_pat(pat.clone_section());
                    let n = pat.programs.len();
                    let mut i: usize = 0;
                    while i < n
                        invariant
                            self.wf(),
                            n == pat.programs@.len(),
                            i <= n,
                            self.si_cache.pat matches Some(p) && p.programs@
                                == pat.programs@,
                            self.pmt_map@ == old(self).pmt_map@,
                            self.si_cache.pmts@ == old(self).si_cache.pmts@,
                            self.si_cache.sdt == old(self).si_cache.sdt,
                            self.si_cache.nit == old(self).si_cache.nit,
                            self.stats_manager.es_stats@ == old(self).stats_manager.es_stats@,
                            tr101_monotone(old(self).tr101, self.tr101),
                            old(self).tr101 matches Some(t0) ==> (self.tr101 matches Some(t)
                                && t.sync_byte_errors == t0.sync_byte_errors
                                && t.continuity_counter_errors == t0.continuity_counter_errors
                                && t.last_cc@ == t0.last_cc@ && t.splice_count_errors
                                == t0.splice_count_errors && t.last_splice_value
                                == t0.last_splice_value && t.pid_errors == t0.pid_errors
                                && t.last_pat_seen == t0.last_pat_seen && t.pat_crc_errors
                                == t0.pat_crc_errors && t.pmt_crc_errors == t0.pmt_crc_errors
                                && t.service_id_mismatch == t0.service_id_mismatch
                                && t.last_pcr_info@ == t0.last_pcr_info@),
                        decreases n - i,
                    {
                        let pn = pat.programs[i].program_number;
                        self.pat_map.insert(pn, pat.clone_section());
                        i += 1;
                    }
                },
                Err(e) => {
                    if matches!(e, SectionError::CrcMismatch) {
                        context.pat_crc_ok = Some(false);
                    }
                },
            }
        }

        // CAT (PID 0x0001)
        if pid == 0x0001 && payload_unit_start {
            match crate::cat::parse_cat(payload) {
                Ok((tid, _cat)) => {
                    context.cat_crc_ok = Some(true);
                    context.table_id = tid;
                },
                Err(e) => {
                    if matches!(e, SectionError::CrcMismatch) {
                        context.cat_crc_ok = Some(false);
                    }
                },
            }
        }

        // NIT (PID 0x0010)
        if pid == 0x0010 && payload_unit_start {
            match crate::nit::parse_nit(payload) {
                Ok((tid, nit)) => {
                    context.nit_crc_ok = Some(true);
                    context.table_id = tid;
                    self.si_cache.update_nit(nit);
                },
                Err(e) => {
                    if matches!(e, SectionError::CrcMismatch) {
                        context.nit_crc_ok = Some(false);
                    }
                },
            }
        }

        // PMT on a PID some cached PAT declares
        if pid != 0x0000 && payload_unit_start && self.pat_declares_pmt(pid) {
            match parse_pmt(payload) {
                Ok(pmt) => {
                    context.pmt_crc_ok = Some(true);
                    match &mut self.tr101 {
                        Some(t) => {
                            t.check_pmt_version_change(pid, pmt.version, analysis_mode);
                            if pmt.pcr_pid < PID_LIMIT as u16 {
                                t.register_known_pid(pmt.pcr_pid);
                            }
                            let n = pmt.streams.len();
                            let mut i: usize = 0;
                            while i < n
                                invariant
                                    t.wf(),
                                    n == pmt.streams@.len(),
                                    i <= n,
                                    old(self).tr101 matches Some(t0)
                                        && Tr101Metrics::counters_monotone(&t0, t)
                                        && t.sync_byte_errors == t0.sync_byte_errors
                                        && t.continuity_counter_errors
                                        == t0.continuity_counter_errors && t.last_cc@
                                        == t0.last_cc@ && t.splice_count_errors
                                        == t0.splice_count_errors && t.last_splice_value
                                        == t0.last_splice_value && t.pid_errors
                                        == t0.pid_errors && t.last_pat_seen
                                        == t0.last_pat_seen && t.pat_crc_errors
                                        == t0.pat_crc_errors && t.pmt_crc_errors
                                        == t0.pmt_crc_errors && t.service_id_mismatch
                                        == t0.service_id_mismatch && t.last_pcr_info@
                                        == t0.last_pcr_info@,
                                decreases n - i,
                            {
                                let spid = pmt.streams[i].elementary_pid;
                                if spid < PID_LIMIT as u16 {
                                    t.register_known_pid(spid);
                                }
                                i += 1;
                            }
                        },
                        None => {},
                    }
                    let prog = self.program_of_pmt_pid(pid);
                    match prog {
                        Some(pn) => {
                            self.pcr_pid_map.insert(pn, pmt.pcr_pid);
                        },
                        None => {},
                    }
                    self.si_cache.update_pmt(pid, pmt.clone_section());
                    self.pmt_map.insert(pid, pmt);
                },
                Err(e) => {
                    if matches!(e, SectionError::CrcMismatch) {
                        context.pmt_crc_ok = Some(false);
                    }
                },
            }
        }

        // SDT / EIT (PID 0x0011)
        if pid == 0x0011 && payload_unit_start {
            match crate::sdt::parse_sdt(payload) {
                Ok((tid, sdt)) => {
                    context.sdt_crc_ok = Some(true);
                    context.table_id = tid;
                    self.si_cache.update_sdt(sdt);
                },
                Err(e) => {
                    if matches!(e, SectionError::CrcMismatch) {
                        // the CRC could be evaluated: classify the failure
                        // by the table_id, which is readable regardless
                        match crate::section::peek_table_id(payload) {
                            Some(tid) => {
                                if tid == 0x42 || tid == 0x46 {
                                    context.sdt_crc_ok = Some(false);
                                } else if tid == 0x4E || tid == 0x4F {
                                    context.eit_crc_ok = Some(false);
                                }
                            },
                            None => {},
                        }
                    } else {
                        match crate::eit::parse_eit_pf(payload) {
                            Ok((tid, _eit)) => {
                                context.eit_crc_ok = Some(true);
                                context.table_id = tid;
                            },
                            Err(_) => {
                                // may be TDT/TOT on the wrong PID
                            },
                        }
                    }
                },
            }
        }

        // TDT / TOT (PID 0x0014)
        if pid == 0x0014 && payload_unit_start {
            match crate::tdt::parse_tdt_tot(payload) {
                Ok((tid, _t)) => {
                    context.table_id = tid;
                    if tid == 0x73 {
                        context.tdt_crc_ok = Some(true);
                    }
                },
                Err(e) => {
                    if matches!(e, SectionError::CrcMismatch) {
                        context.tdt_crc_ok = Some(false);
                    }
                },
            }
        }
    }

    /// Whether some cached PAT declares `pid` as a PMT PID.
    fn pat_declares_pmt(&self, pid: u16) -> (r: bool)
        requires
            self.wf(),
        ensures
            r == declares_pmt(self.pat_map@, pid),
    {
        let n = self.pat_map.len();
        let mut i: usize = 0;
        while i < n
            invariant
                self.wf(),
                n == self.pat_map.pairs().len(),
                i <= n,
                forall|ii: int|
                    0 <= ii < i ==> !(exists|j: int|
                        0 <= j < (#[trigger] self.pat_map.pairs()[ii]).1.programs@.len()
                            && #[trigger] self.pat_map.pairs()[ii].1.programs@[j].pmt_pid
                            == pid),
            decreases n - i,
        {
            let entry = self.pat_map.entry_at(i);
            let m = entry.1.programs.len();
            let mut j: usize = 0;
            while j < m
                invariant
                    self.wf(),
                    n == self.pat_map.pairs().len(),
                    i < n,
                    m == self.pat_map.pairs()[i as int].1.programs@.len(),
                    *entry == self.pat_map.pairs()[i as int],
                    j <= m,
                    forall|jj: int|
                        0 <= jj < j
                            ==> #[trigger] self.pat_map.pairs()[i as int].1.programs@[jj].pmt_pid
                            != pid,
                decreases m - j,
            {
                if entry.1.programs[j].pmt_pid == pid {
                    proof {
                        self.pat_map.lemma_pair_is_view(i as int);
                        let k = self.pat_map.pairs()[i as int].0;
                        assert(self.pat_map@.contains_key(k) && (exists|jx: int|
                            0 <= jx < self.pat_map@[k].programs@.len()
                                && #[trigger] self.pat_map@[k].programs@[jx].pmt_pid == pid));
                    }
                    return true;
                }
                j += 1;
            }
            i += 1;
        }
        proof {
            if declares_pmt(self.pat_map@, pid) {
                let k = choose|k: u16|
                    #[trigger] self.pat_map@.contains_key(k) && exists|j: int|
                        0 <= j < self.pat_map@[k].programs@.len()
                            && #[trigger] self.pat_map@[k].programs@[j].pmt_pid == pid;
                self.pat_map.lemma_view_has_pair(k);
                let ii = choose|ii: int|
                    0 <= ii < self.pat_map.pairs().len() && self.pat_map.pairs()[ii].0 == k;
                self.pat_map.lemma_pair_is_view(ii);
            }
        }
        false
    }

    /// The program number whose PAT entry names `pid` as its PMT PID, if
    /// some cached PAT declares one.
    fn program_of_pmt_pid(&self, pid: u16) -> (r: Option<u16>)
        requires
            self.wf(),
    {
        let n = self.pat_map.len();
        let mut i: usize = 0;
        while i < n
            invariant
                self.wf(),
                n == self.pat_map.pairs().len(),
                i <= n,
            decreases n - i,
        {
            let entry = self.pat_map.entry_at(i);
            let m = entry.1.programs.len();
            let mut j: usize = 0;
            while j < m
                invariant
                    self.wf(),
                    n == self.pat_map.pairs().len(),
                    i < n,
                    m == self.pat_map.pairs()[i as int].1.programs@.len(),
                    *entry == self.pat_map.pairs()[i as int],
                    j <= m,
                decreases m - j,
            {
                if entry.1.programs[j].pmt_pid == pid {
                    return Some(entry.1.programs[j].program_number);
                }
                j += 1;
            }
            i += 1;
        }
        None
    }

    /// Whether some cached PMT declares `pid` as an elementary stream.
    fn pmt_declares_es(&self, pid: u16) -> (r: bool)
        requires
            self.wf(),
        ensures
            r == declares_es(self.pmt_map@, pid),
    {
        let keys = self.pmt_map.keys();
        let n = keys.len();
        let mut i: usize = 0;
        while i < n
            invariant
                self.wf(),
                n == keys@.len(),
                i <= n,
                forall|j: int|
                    0 <= j < n ==> self.pmt_map@.contains_key(keys@[j]) && keys@[j] < PID_LIMIT,
                forall|p: u16| self.pmt_map@.contains_key(p) ==> keys@.contains(p),
                forall|ii: int|
                    0 <= ii < i ==> !(exists|j: int|
                        0 <= j < self.pmt_map@[(#[trigger] keys@[ii])].streams@.len()
                            && (#[trigger] self.pmt_map@[keys@[ii]].streams@[j]).elementary_pid
                            == pid),
            decreases n - i,
        {
            let k = keys[i];
            let pmt = match self.pmt_map.get(k) {
                Some(p) => p,
                None => { return false;  // unreachable: k is a key
                },
            };
            let m = pmt.streams.len();
            let mut j: usize = 0;
            while j < m
                invariant
                    self.wf(),
                    i < n == keys@.len(),
                    self.pmt_map@.contains_key(keys@[i as int]),
                    m == pmt.streams@.len(),
                    *pmt == self.pmt_map@[keys@[i as int]],
                    j <= m,
                    forall|jj: int|
                        0 <= jj < j
                            ==> (#[trigger] pmt.streams@[jj]).elementary_pid != pid,
                decreases m - j,
            {
                if pmt.streams[j].elementary_pid == pid {
                    proof {
                        let k0 = keys@[i as int];
                        assert(self.pmt_map@.contains_key(k0) && (exists|jx: int|
                            0 <= jx < self.pmt_map@[k0].streams@.len()
                                && (#[trigger] self.pmt_map@[k0].streams@[jx]).elementary_pid
                                == pid));
                    }
                    return true;
                }
                j += 1;
            }
            i += 1;
        }
        proof {
            if declares_es(self.pmt_map@, pid) {
                let k = choose|k: u16|
                    #[trigger] self.pmt_map@.contains_key(k) && exists|j: int|
                        0 <= j < self.pmt_map@[k].streams@.len()
                            && #[trigger] self.pmt_map@[k].streams@[j].elementary_pid == pid;
                assert(keys@.contains(k));
                let ii = choose|ii: int| 0 <= ii < keys@.len() && keys@[ii] == k;
                assert(!(exists|j: int|
                    0 <= j < self.pmt_map@[keys@[ii]].streams@.len()
                        && (#[trigger] self.pmt_map@[keys@[ii]].streams@[j]).elementary_pid
                        == pid));
            }
        }
        false
    }

    /// The stream type a cached PMT declares for `pid`, if any.
    fn find_stream_type(&self, pid: u16) -> (r: Option<u8>)
        requires
            self.wf(),
        ensures
            r is Some <==> declares_es(self.pmt_map@, pid),
            r matches Some(st) ==> exists|k: u16|
                #[trigger] self.pmt_map@.contains_key(k) && exists|j: int|
                    0 <= j < self.pmt_map@[k].streams@.len()
                        && (#[trigger] self.pmt_map@[k].streams@[j]) == (crate::pmt::StreamInfo {
                        stream_type: st,
                        elementary_pid: pid,
                    }),
    {
        let keys = self.pmt_map.keys();
        let n = keys.len();
        let mut i: usize = 0;
        while i < n
            invariant
                self.wf(),
                n == keys@.len(),
                i <= n,
                forall|j: int|
                    0 <= j < n ==> self.pmt_map@.contains_key(keys@[j]) && keys@[j] < PID_LIMIT,
                forall|p: u16| self.pmt_map@.contains_key(p) ==> keys@.contains(p),
                forall|ii: int|
                    0 <= ii < i ==> !(exists|j: int|
                        0 <= j < self.pmt_map@[(#[trigger] keys@[ii])].streams@.len()
                            && (#[trigger] self.pmt_map@[keys@[ii]].streams@[j]).elementary_pid
                            == pid),
            decreases n - i,
        {
            let k = keys[i];
            match self.pmt_map.get(k) {
                Some(pmt) => {
                    let m = pmt.streams.len();
                    let mut j: usize = 0;
                    while j < m
                        invariant
                            self.wf(),
                            i < n == keys@.len(),
                            self.pmt_map@.contains_key(keys@[i as int]),
                            m == pmt.streams@.len(),
                            *pmt == self.pmt_map@[keys@[i as int]],
                            j <= m,
                            forall|jj: int|
                                0 <= jj < j
                                    ==> (#[trigger] pmt.streams@[jj]).elementary_pid != pid,
                        decreases m - j,
                    {
                        if pmt.streams[j].elementary_pid == pid {
                            proof {
                                let k0 = keys@[i as int];
                                assert(self.pmt_map@.contains_key(k0) && (exists|jx: int|
                                    0 <= jx < self.pmt_map@[k0].streams@.len() && (
                                    #[trigger] self.pmt_map@[k0].streams@[jx]).elementary_pid
                                        == pid));
                                assert(self.pmt_map@[k0].streams@[j as int] == (
                                crate::pmt::StreamInfo {
                                    stream_type: pmt.streams@[j as int].stream_type,
                                    elementary_pid: pid,
                                }));
                            }
                            return Some(pmt.streams[j].stream_type);
                        }
                        j += 1;
                    }
                },
                None => {},
            }
            i += 1;
        }
        proof {
            if declares_es(self.pmt_map@, pid) {
                let k = choose|k: u16|
                    #[trigger] self.pmt_map@.contains_key(k) && exists|j: int|
                        0 <= j < self.pmt_map@[k].streams@.len()
                            && #[trigger] self.pmt_map@[k].streams@[j].elementary_pid == pid;
                assert(keys@.contains(k));
                let ii = choose|ii: int| 0 <= ii < keys@.len() && keys@[ii] == k;
                assert(!(exists|j: int|
                    0 <= j < self.pmt_map@[keys@[ii]].streams@.len()
                        && (#[trigger] self.pmt_map@[keys@[ii]].streams@[j]).elementary_pid
                        == pid));
            }
        }
        None
    }

    /// The elementary-stream path: byte accounting for tracked PIDs, and
    /// registration of PIDs a cached PMT declares, on their first payload
    /// start.
    fn process_elementary_streams(
        &mut self,
        pid: u16,
        payload_unit_start: bool,
        payload: &[u8],
        analysis_mode: AnalysisMode,
        now_ms: u64,
    )
        requires
            old(self).wf(),
            pid < PID_LIMIT,
            payload@.len() < 0x1000000,
        ensures
            final(self).wf(),
            tr101_monotone(old(self).tr101, final(self).tr101),
            final(self).pat_map@ == old(self).pat_map@,
            final(self).pmt_map@ == old(self).pmt_map@,
            final(self).pcr_pid_map@ == old(self).pcr_pid_map@,
            final(self).si_cache.pat == old(self).si_cache.pat,
            final(self).si_cache.pmts@ == old(self).si_cache.pmts@,
            final(self).si_cache.sdt == old(self).si_cache.sdt,
            final(self).si_cache.nit == old(self).si_cache.nit,
            old(self).tr101 matches Some(t) ==> (final(self).tr101 matches Some(t2)
                && t2.sync_byte_errors == t.sync_byte_errors && t2.continuity_counter_errors
                == t.continuity_counter_errors && t2.last_cc@ == t.last_cc@
                && t2.splice_count_errors == t.splice_count_errors && t2.last_splice_value
                == t.last_splice_value && t2.pid_errors == t.pid_errors && t2.last_pat_seen
                == t.last_pat_seen && t2.pat_crc_errors == t.pat_crc_errors
                && t2.pmt_crc_errors == t.pmt_crc_errors && t2.service_id_mismatch
                == t.service_id_mismatch && t2.last_pcr_info@ == t.last_pcr_info@),
            // A PID no PMT declares and no record tracks is not added.
            (!old(self).stats_manager.es_stats@.contains_key(pid) && !declares_es(
                old(self).pmt_map@,
                pid,
            )) ==> final(self).stats_manager.es_stats@ == old(self).stats_manager.es_stats@,
            // Without a payload start, an untracked PID stays untracked.
            (!old(self).stats_manager.es_stats@.contains_key(pid) && !payload_unit_start)
                ==> final(self).stats_manager.es_stats@ == old(self).stats_manager.es_stats@,
            // Byte accounting for a tracked PID: 188 bytes per packet; the
            // start instant, stream type and any identified codec are kept.
            old(self).stats_manager.es_stats@.contains_key(pid) ==> ({
                let pre = old(self).stats_manager.es_stats@[pid];
                &&& final(self).stats_manager.es_stats@.contains_key(pid)
                &&& final(self).stats_manager.es_stats@[pid].bytes == pre.bytes.saturating_add(
                    TS_PACKET_SIZE as u64,
                )
                &&& final(self).stats_manager.es_stats@[pid].start_ms == pre.start_ms
                &&& final(self).stats_manager.es_stats@[pid].stream_type == pre.stream_type
                &&& (pre.codec is Some ==> final(self).stats_manager.es_stats@[pid].codec
                    == pre.codec)
            }),
            // The first payload start of a declared PID registers it with a
            // stream type some cached PMT declares for it.
            (!old(self).stats_manager.es_stats@.contains_key(pid) && payload_unit_start
                && declares_es(old(self).pmt_map@, pid)) ==> ({
                let e = final(self).stats_manager.es_stats@[pid];
                &&& final(self).stats_manager.es_stats@.contains_key(pid)
                &&& e.bytes == TS_PACKET_SIZE as u64
                &&& e.start_ms == now_ms
                &&& e.codec is None
                &&& e.last_pts is None
                &&& e.pts_samples@ == Seq::<u64>::empty()
                &&& (exists|k: u16|
                    #[trigger] old(self).pmt_map@.contains_key(k) && exists|j: int|
                        0 <= j < old(self).pmt_map@[k].streams@.len() && (#[trigger] old(self).pmt_map@[k].streams@[j]) == (crate::pmt::StreamInfo {
                            stream_type: e.stream_type,
                            elementary_pid: pid,
                        }))
            }),
            // Other PIDs' records are untouched.
            old(self).stats_manager.es_stats@.contains_key(pid) ==> final(self).stats_manager.es_stats@ == old(self).stats_manager.es_stats@.insert(
                pid,
                final(self).stats_manager.es_stats@[pid],
            ),
            (!old(self).stats_manager.es_stats@.contains_key(pid) && payload_unit_start
                && declares_es(old(self).pmt_map@, pid)) ==> final(self).stats_manager.es_stats@
                == old(self).stats_manager.es_stats@.insert(
                pid,
                final(self).stats_manager.es_stats@[pid],
            ),
    {
        if self.stats_manager.contains_pid(pid) {
            self.stats_manager.update_bytes(pid, TS_PACKET_SIZE as u64);
            self.parse_codec_info(pid, payload_unit_start, payload, analysis_mode);
        } else if payload_unit_start {
            match self.find_stream_type(pid) {
                Some(stream_type) => {
                    self.stats_manager.add_stream(pid, stream_type, now_ms);
                    self.stats_manager.update_bytes(pid, TS_PACKET_SIZE as u64);
                },
                None => {},
            }
        }
    }

    /// Codec identification for a tracked PID whose codec is still
    /// unknown: subtitle and raw-audio stream types read the payload
    /// directly; video and ADTS audio read the elementary stream behind
    /// the PES header; PTS samples feed the frame-rate estimate.
    fn parse_codec_info(
        &mut self,
        pid: u16,
        payload_unit_start: bool,
        payload: &[u8],
        analysis_mode: AnalysisMode,
    )
        requires
            old(self).wf(),
            pid < PID_LIMIT,
            payload@.len() < 0x1000000,
        ensures
            final(self).wf(),
            tr101_monotone(old(self).tr101, final(self).tr101),
            final(self).pat_map@ == old(self).pat_map@,
            final(self).pmt_map@ == old(self).pmt_map@,
            final(self).pcr_pid_map@ == old(self).pcr_pid_map@,
            final(self).si_cache.pat == old(self).si_cache.pat,
            final(self).si_cache.pmts@ == old(self).si_cache.pmts@,
            final(self).si_cache.sdt == old(self).si_cache.sdt,
            final(self).si_cache.nit == old(self).si_cache.nit,
            old(self).tr101 matches Some(t) ==> (final(self).tr101 matches Some(t2)
                && t2.sync_byte_errors == t.sync_byte_errors && t2.continuity_counter_errors
                == t.continuity_counter_errors && t2.last_cc@ == t.last_cc@
                && t2.splice_count_errors == t.splice_count_errors && t2.last_splice_value
                == t.last_splice_value && t2.pid_errors == t.pid_errors && t2.last_pat_seen
                == t.last_pat_seen && t2.pat_crc_errors == t.pat_crc_errors
                && t2.pmt_crc_errors == t.pmt_crc_errors && t2.service_id_mismatch
                == t.service_id_mismatch && t2.last_pcr_info@ == t.last_pcr_info@),
            // The record's identity fields are kept; an identified codec is
            // never replaced (first successful parse wins).
            final(self).stats_manager.es_stats@.contains_key(pid) == old(self).stats_manager.es_stats@.contains_key(pid),
            old(self).stats_manager.es_stats@.contains_key(pid) ==> ({
                let pre = old(self).stats_manager.es_stats@[pid];
                &&& final(self).stats_manager.es_stats@[pid].bytes == pre.bytes
                &&& final(self).stats_manager.es_stats@[pid].start_ms == pre.start_ms
                &&& final(self).stats_manager.es_stats@[pid].stream_type == pre.stream_type
                &&& (pre.codec is Some ==> final(self).stats_manager.es_stats@[pid].codec
                    == pre.codec)
            }),
            old(self).stats_manager.es_stats@.contains_key(pid) ==> final(self).stats_manager.es_stats@ == old(self).stats_manager.es_stats@.insert(
                pid,
                final(self).stats_manager.es_stats@[pid],
            ),
            !old(self).stats_manager.es_stats@.contains_key(pid) ==> final(self).stats_manager.es_stats@ == old(self).stats_manager.es_stats@,
    {
        let (stream_type, have_codec) = match self.stats_manager.get(pid) {
            Some(stats) => (stats.stream_type, stats.codec.is_some()),
            None => { return ; },
        };
        if have_codec {
            return ;
        }

        if stream_type == 0x06 {
            let codec = CodecInfo::Subtitle(
                SubtitleInfo { codec: String::from_str("DVB Subtitle") },
            );
            self.stats_manager.set_codec(pid, codec);
        } else if stream_type == 0x03 || stream_type == 0x04 || stream_type == 0x11
            || stream_type == 0x81 {
            match crate::audio::parse_audio_codec(stream_type, payload) {
                Some(a) => {
                    self.stats_manager.set_codec(pid, CodecInfo::Audio(a));
                },
                None => {},
            }
        }

        // PES-based parsing for video and ADTS audio
        if payload_unit_start && payload.len() >= 9 && payload[0] == 0x00 && payload[1] == 0x00
            && payload[2] == 0x01 {
            let pes_hdr_len = 9 + payload[8] as usize;
            if pes_hdr_len < payload.len() {
                let es_payload = vstd::slice::slice_subrange(payload, pes_hdr_len, payload.len());
                match crate::video::parse_video_codec(stream_type, es_payload) {
                    Some(v) => {
                        self.stats_manager.set_codec(pid, CodecInfo::Video(v));
                    },
                    None => {
                        match crate::audio::parse_audio_codec(stream_type, es_payload) {
                            Some(a) => {
                                self.stats_manager.set_codec(pid, CodecInfo::Audio(a));
                            },
                            None => {},
                        }
                    },
                }
            }
        }

        self.calculate_fps_from_pts(pid, payload_unit_start, payload, analysis_mode);
    }

    /// Frame-rate estimation from PTS samples: each video PES start with a
    /// PTS appends a sample (at most ten are kept), PTS continuity is
    /// checked, and with three or more samples the median consecutive
    /// delta yields the estimate.
    fn calculate_fps_from_pts(
        &mut self,
        pid: u16,
        payload_unit_start: bool,
        payload: &[u8],
        analysis_mode: AnalysisMode,
    )
        requires
            old(self).wf(),
            pid < PID_LIMIT,
        ensures
            final(self).wf(),
            tr101_monotone(old(self).tr101, final(self).tr101),
            final(self).pat_map@ == old(self).pat_map@,
            final(self).pmt_map@ == old(self).pmt_map@,
            final(self).pcr_pid_map@ == old(self).pcr_pid_map@,
            final(self).si_cache.pat == old(self).si_cache.pat,
            final(self).si_cache.pmts@ == old(self).si_cache.pmts@,
            final(self).si_cache.sdt == old(self).si_cache.sdt,
            final(self).si_cache.nit == old(self).si_cache.nit,
            old(self).tr101 matches Some(t) ==> (final(self).tr101 matches Some(t2)
                && t2.sync_byte_errors == t.sync_byte_errors && t2.continuity_counter_errors
                == t.continuity_counter_errors && t2.last_cc@ == t.last_cc@
                && t2.splice_count_errors == t.splice_count_errors && t2.last_splice_value
                == t.last_splice_value && t2.pid_errors == t.pid_errors && t2.last_pat_seen
                == t.last_pat_seen && t2.pat_crc_errors == t.pat_crc_errors
                && t2.pmt_crc_errors == t.pmt_crc_errors && t2.service_id_mismatch
                == t.service_id_mismatch && t2.last_pcr_info@ == t.last_pcr_info@),
            // A payload without a video PES start carrying a PTS changes
            // nothing at all.
            !(payload_unit_start && pes_has_pts(payload@)) ==> *final(self) == *old(self),
            // A PTS sample: appended to the ring (trimmed to ten) and
            // recorded as the last PTS; the identity fields are kept and
            // only a video codec's frame rate may move.
            (payload_unit_start && pes_has_pts(payload@) && old(self).stats_manager.es_stats@.contains_key(pid)) ==> ({
                let pre = old(self).stats_manager.es_stats@[pid];
                let post = final(self).stats_manager.es_stats@[pid];
                &&& final(self).stats_manager.es_stats@.contains_key(pid)
                &&& post.last_pts == Some(pes_pts(payload@))
                &&& post.pts_samples@ == pushed_samples(pre.pts_samples@, pes_pts(payload@))
                &&& post.bytes == pre.bytes
                &&& post.start_ms == pre.start_ms
                &&& post.stream_type == pre.stream_type
                &&& (pre.codec is None ==> post.codec is None)
                &&& (pre.codec matches Some(CodecInfo::Audio(a)) ==> post.codec == Some(
                    CodecInfo::Audio(a),
                ))
                &&& (pre.codec matches Some(CodecInfo::Subtitle(sub)) ==> post.codec == Some(
                    CodecInfo::Subtitle(sub),
                ))
                &&& (pre.codec matches Some(CodecInfo::Video(v)) ==> (post.codec matches Some(
                    CodecInfo::Video(v2),
                ) && v2.codec == v.codec && v2.width == v.width && v2.height == v.height
                    && v2.chroma == v.chroma && v2.interlaced == v.interlaced))
            }),
            (payload_unit_start && pes_has_pts(payload@) && !old(self).stats_manager.es_stats@.contains_key(pid)) ==> final(self).stats_manager.es_stats@ == old(self).stats_manager.es_stats@,
            (payload_unit_start && pes_has_pts(payload@) && old(self).stats_manager.es_stats@.contains_key(pid)) ==> final(self).stats_manager.es_stats@
                == old(self).stats_manager.es_stats@.insert(
                pid,
                final(self).stats_manager.es_stats@[pid],
            ),
            // The engine's PTS continuity check applies to the sample.
            (payload_unit_start && pes_has_pts(payload@)) ==> (old(self).tr101 matches Some(t)
                ==> (final(self).tr101 matches Some(t2) && (mode_p2(analysis_mode)
                ==> t2.pts_errors == t.pts_errors.saturating_add(
                if t.last_pts_per_pid@.contains_key(pid) && crate::tr101::pts_discontinuity(
                    t.last_pts_per_pid@[pid],
                    pes_pts(payload@),
                ) {
                    1
                } else {
                    0
                },
            ) && t2.last_pts_per_pid@ == t.last_pts_per_pid@.insert(pid, pes_pts(payload@)))
                && (!mode_p2(analysis_mode) ==> t2.pts_errors == t.pts_errors
                && t2.last_pts_per_pid@ == t.last_pts_per_pid@))),
    {
        if !payload_unit_start || payload.len() <= 14 {
            return ;
        }
        if !(payload[0] == 0x00 && payload[1] == 0x00 && payload[2] == 0x01) {
            return ;
        }
        let stream_id = payload[3];
        if stream_id & 0xF0 != 0xE0 {
            return ;
        }
        let pts_dts_flags = (payload[7] & 0xC0) >> 6;
        if pts_dts_flags & 0b10 == 0 {
            return ;
        }
        proof {
            crate::bits::lemma_u8_and_bound(payload@[9], 0x0E);
            crate::bits::lemma_u8_and_bound(payload@[11], 0xFE);
        }
        let pts: u64 = (((payload[9] & 0x0E) as u64) * 0x20000000) + ((payload[10] as u64)
            * 0x400000) + ((((payload[11] & 0xFE) / 2) as u64) * 0x8000) + ((payload[12] as u64)
            * 0x80) + ((payload[13] as u64) / 2);

        match self.stats_manager.take(pid) {
            None => {},
            Some(mut stats) => {
                stats.pts_samples.push(pts);
                if stats.pts_samples.len() > 10 {
                    stats.pts_samples.remove(0);
                }
                let est = Self::estimate_fps_millis(&stats.pts_samples);
                match est {
                    Some(fps_est) => {
                        match stats.codec {
                            Some(CodecInfo::Video(ref mut vinfo)) => {
                                let diff: u32 = if vinfo.fps_millis >= fps_est {
                                    vinfo.fps_millis - fps_est
                                } else {
                                    fps_est - vinfo.fps_millis
                                };
                                if vinfo.fps_millis == 0 || diff > 2000 {
                                    vinfo.fps_millis = round_to_common_fps(fps_est);
                                }
                            },
                            _ => {},
                        }
                    },
                    None => {},
                }
                stats.last_pts = Some(pts);
                self.stats_manager.put(pid, stats);
            },
        }
        match &mut self.tr101 {
            Some(t) => {
                t.check_pts_error(pid, pts, analysis_mode);
            },
            None => {},
        }
    }

    /// The median-of-deltas frame-rate estimate in millihertz, from the
    /// kept PTS samples: consecutive positive deltas of the sorted samples
    /// below one second, median taken over the sorted deltas. `None` with
    /// fewer than three samples or no usable delta.
    fn estimate_fps_millis(samples: &Vec<u64>) -> (r: Option<u32>)
    {
        if samples.len() < 3 {
            return None;
        }
        let mut sorted = vstd::slice::slice_to_vec(samples.as_slice());
        sort_u64(&mut sorted);
        let mut deltas: Vec<u64> = Vec::new();
        let mut i: usize = 1;
        while i < sorted.len()
            invariant
                i >= 1,
                deltas@.len() < i,
                forall|j: int| 0 <= j < deltas@.len() ==> 0 < #[trigger] deltas@[j] < 90000,
            decreases sorted@.len() - i,
        {
            let prev = sorted[i - 1];
            let cur = sorted[i];
            let delta = cur.saturating_sub(prev);
            if delta > 0 && delta < 90000 {
                deltas.push(delta);
            }
            i += 1;
        }
        if deltas.len() == 0 {
            return None;
        }
        sort_u64(&mut deltas);
        let median = deltas[deltas.len() / 2];
        if median == 0 {
            return None;
        }
        let est: u64 = 90000000u64 / median;
        if est > 0xFFFFFFFF {
            None
        } else {
            Some(est as u32)
        }
    }
    /// Processes one transport-stream packet, in header order: length and
    /// sync checks, PID and flags, adaptation field and PCR extraction,
    /// PSI and elementary-stream dispatch, splice-countdown check, and the
    /// TR 101 290 engine. Packets with no payload are dropped after the
    /// sync-loss and PID checks.
    #[verifier::rlimit(100)]
    #[verifier::spinoff_prover]
    pub fn process_packet(&mut self, chunk: &[u8], analysis_mode: Option<AnalysisMode>, now_ms: u64)
        requires
            old(self).wf(),
            chunk@.len() < 0x1000000,
        ensures
            final(self).wf(),
            tr101_monotone(old(self).tr101, final(self).tr101),
            chunk@.len() < TS_PACKET_SIZE ==> *final(self) == *old(self),
            // A 188-byte frame without the sync byte: in a TR 101 290 mode
            // it counts one sync-byte error and advances the sync-loss run;
            // nothing else moves.
            (chunk@.len() == TS_PACKET_SIZE && chunk@[0] != TS_SYNC_BYTE && (analysis_mode
                matches Some(m) && mode_p1(m))) ==> (old(self).tr101 matches Some(t) ==> (final(self).tr101 matches Some(t2) && (t2 == (Tr101Metrics {
                sync_byte_errors: t.sync_byte_errors.saturating_add(1),
                sync_loss_counter: t.sync_loss_counter.saturating_add(1),
                ts_sync_loss: t.ts_sync_loss.saturating_add(
                    if t.sync_loss_counter.saturating_add(1)
                        == crate::constants::SYNC_LOSS_THRESHOLD {
                        1
                    } else {
                        0
                    },
                ),
                ..t
            })) && (*final(self) == (PacketProcessor { tr101: final(self).tr101, ..*old(self) })))),
            (chunk@.len() == TS_PACKET_SIZE && chunk@[0] != TS_SYNC_BYTE && !(analysis_mode
                matches Some(m) && mode_p1(m))) ==> *final(self) == *old(self),
            (chunk@.len() == TS_PACKET_SIZE && chunk@[0] != TS_SYNC_BYTE && old(self).tr101 is None) ==> *final(self) == *old(self),
            // A synced frame with no payload is dropped after the sync-loss
            // and PID checks: the caches, statistics and counters other
            // than pid_errors stay put.
            (chunk@.len() == TS_PACKET_SIZE && chunk@[0] == TS_SYNC_BYTE && !crate::tr101::pkt_dispatched(
                chunk@,
            )) ==> final(self).pat_map@ == old(self).pat_map@ && final(self).pmt_map@ == old(self).pmt_map@ && final(self).pcr_pid_map@ == old(self).pcr_pid_map@ && final(self).si_cache.pat == old(self).si_cache.pat && final(self).si_cache.sdt == old(self).si_cache.sdt && final(self).si_cache.nit == old(self).si_cache.nit && final(self).stats_manager.es_stats@ == old(self).stats_manager.es_stats@,
            (chunk@.len() == TS_PACKET_SIZE && chunk@[0] == TS_SYNC_BYTE && !crate::tr101::pkt_dispatched(
                chunk@,
            )) ==> (old(self).tr101 matches Some(t) ==> (final(self).tr101 matches Some(t2)
                && t2.last_cc@ == t.last_cc@ && t2.continuity_counter_errors
                == t.continuity_counter_errors && t2.pat_crc_errors == t.pat_crc_errors
                && t2.pmt_crc_errors == t.pmt_crc_errors && t2.last_pat_seen == t.last_pat_seen
                && t2.last_pcr_info@ == t.last_pcr_info@ && t2.splice_count_errors
                == t.splice_count_errors && t2.last_splice_value == t.last_splice_value)),
            // No section parse without a payload start on a table PID: the
            // caches and table maps hold still.
            (crate::tr101::pkt_dispatched(chunk@) && !crate::tr101::pkt_pusi(chunk@)) ==> final(self).pat_map@ == old(self).pat_map@ && final(self).pmt_map@ == old(self).pmt_map@
                && final(self).si_cache.pat == old(self).si_cache.pat && final(self).si_cache.sdt == old(self).si_cache.sdt && final(self).si_cache.nit == old(self).si_cache.nit,
            (crate::tr101::pkt_dispatched(chunk@) && crate::tr101::pkt_pid(chunk@) != 0x0000
                && crate::tr101::pkt_pid(chunk@) != 0x0001 && crate::tr101::pkt_pid(chunk@)
                != 0x0010 && crate::tr101::pkt_pid(chunk@) != 0x0011 && crate::tr101::pkt_pid(
                chunk@,
            ) != 0x0014 && !declares_pmt(old(self).pat_map@, crate::tr101::pkt_pid(chunk@)))
                ==> final(self).pat_map@ == old(self).pat_map@ && final(self).pmt_map@ == old(self).pmt_map@ && final(self).si_cache.pat == old(self).si_cache.pat && final(self).si_cache.sdt == old(self).si_cache.sdt && final(self).si_cache.nit == old(self).si_cache.nit,
            // Without an analysis mode, nothing is parsed or tracked.
            !(analysis_mode matches Some(m) && m != AnalysisMode::Off) ==> final(self).pat_map@
                == old(self).pat_map@ && final(self).pmt_map@ == old(self).pmt_map@ && final(self).si_cache.pat == old(self).si_cache.pat && final(self).si_cache.sdt == old(self).si_cache.sdt && final(self).si_cache.nit == old(self).si_cache.nit && final(self).stats_manager.es_stats@ == old(self).stats_manager.es_stats@,
            // PID errors, counted with the known set as it stood.
            (chunk@.len() == TS_PACKET_SIZE && chunk@[0] == TS_SYNC_BYTE) ==> (old(self).tr101 matches Some(t) ==> (final(self).tr101 matches Some(t2) && t2.pid_errors
                == t.pid_errors.saturating_add(
                if (analysis_mode matches Some(m) && mode_p1(m))
                    && !crate::constants::is_system_pid(crate::tr101::pkt_pid(chunk@))
                    && !t.known_pids@.contains_key(crate::tr101::pkt_pid(chunk@)) && 0x0002
                    <= crate::tr101::pkt_pid(chunk@) <= 0x000F {
                    1
                } else {
                    0
                },
            ))),
            // Continuity: exact for every dispatched frame.
            (crate::tr101::pkt_dispatched(chunk@) && (analysis_mode matches Some(m) && mode_p1(
                m,
            ))) ==> (old(self).tr101 matches Some(t) ==> (final(self).tr101 matches Some(t2) && (
            crate::tr101::pkt_pid(chunk@) != crate::constants::NULL_PID ==> t2.last_cc@
                == t.last_cc@.insert(
                crate::tr101::pkt_pid(chunk@),
                crate::tr101::pkt_cc(chunk@),
            ) && t2.continuity_counter_errors == t.continuity_counter_errors.saturating_add(
                if crate::tr101::cc_error(
                    t.last_cc@,
                    crate::tr101::pkt_pid(chunk@),
                    crate::tr101::pkt_cc(chunk@),
                    crate::tr101::pkt_afc(chunk@),
                ) {
                    1
                } else {
                    0
                },
            )) && (crate::tr101::pkt_pid(chunk@) == crate::constants::NULL_PID ==> t2.last_cc@
                == t.last_cc@ && t2.continuity_counter_errors == t.continuity_counter_errors))),
            // The PAT path, lifted: a validated PAT replaces the cache and
            // refreshes the latch; a CRC-failed PAT counts and never
            // latches.
            (crate::tr101::pkt_dispatched(chunk@) && (analysis_mode matches Some(m) && m
                != AnalysisMode::Off) && crate::tr101::pkt_pusi(chunk@) && crate::tr101::pkt_pid(
                chunk@,
            ) == 0 && crate::pat::pat_ok(crate::tr101::pkt_payload(chunk@))) ==> (final(self).si_cache.pat matches Some(p) && p.programs@ == crate::pat::pat_programs(
                crate::tr101::pkt_payload(chunk@),
            )),
            (crate::tr101::pkt_dispatched(chunk@) && (analysis_mode matches Some(m) && mode_p1(
                m,
            ))) ==> (old(self).tr101 matches Some(t) ==> (final(self).tr101 matches Some(t2)
                && t2.pat_crc_errors == t.pat_crc_errors.saturating_add(
                if crate::tr101::pkt_pid(chunk@) == 0 && crate::tr101::pkt_pusi(chunk@)
                    && crate::section::sec_crc_failed(crate::tr101::pkt_payload(chunk@)) {
                    1
                } else {
                    0
                },
            ) && t2.last_pat_seen == crate::tr101::seen_after(
                t.last_pat_seen,
                crate::tr101::pkt_pid(chunk@) == 0 && crate::tr101::pkt_pusi(chunk@)
                    && crate::pat::pat_ok(crate::tr101::pkt_payload(chunk@)),
                now_ms,
            ))),
            // The PMT CRC outcome, lifted for PIDs the cached PATs declare.
            (crate::tr101::pkt_dispatched(chunk@) && (analysis_mode matches Some(m) && mode_p1(
                m,
            )) && crate::tr101::pkt_pid(chunk@) != 0) ==> (old(self).tr101 matches Some(t)
                ==> (final(self).tr101 matches Some(t2) && t2.pmt_crc_errors
                == t.pmt_crc_errors.saturating_add(
                if crate::tr101::pkt_pusi(chunk@) && declares_pmt(
                    old(self).pat_map@,
                    crate::tr101::pkt_pid(chunk@),
                ) && crate::section::sec_crc_failed(crate::tr101::pkt_payload(chunk@)) {
                    1
                } else {
                    0
                },
            ))),
            // The PCR handed to the engine: present exactly on a PCR PID
            // with a long-enough adaptation field and the PCR flag set.
            (crate::tr101::pkt_dispatched(chunk@) && (analysis_mode matches Some(m) && mode_p2(
                m,
            )) && (exists|k: u16|
                #[trigger] old(self).pcr_pid_map@.contains_key(k) && old(self).pcr_pid_map@[k]
                    == crate::tr101::pkt_pid(chunk@))) ==> (crate::tr101::pkt_pcr(chunk@)
                matches Some((base, ext)) ==> (!crate::tr101::pcr_malformed(base, ext) ==> (old(self).tr101 matches Some(t) ==> (final(self).tr101 matches Some(t2)
                && t2.last_pcr_info@ == t.last_pcr_info@.insert(
                crate::tr101::pkt_pid(chunk@),
                ((base * 300 + ext) as u64, now_ms),
            ))))),
            // The service-id consistency check, against the caches as left
            // by this packet.
            (crate::tr101::pkt_dispatched(chunk@) && (analysis_mode matches Some(m) && mode_p1(
                m,
            ))) ==> (old(self).tr101 matches Some(t) ==> (final(self).tr101 matches Some(t2)
                && t2.service_id_mismatch == t.service_id_mismatch.saturating_add(
                if (analysis_mode matches Some(m2) && mode_p3(m2))
                    && crate::si_cache::service_id_mismatch_spec(
                    final(self).si_cache.pat,
                    final(self).si_cache.sdt,
                ) {
                    1
                } else {
                    0
                },
            ))),
            // A window without sync-byte violations leaves sync_byte_errors alone.
            (chunk@.len() == TS_PACKET_SIZE && chunk@[0] == TS_SYNC_BYTE) ==> (old(self).tr101 matches Some(t) ==> (final(self).tr101 matches Some(t2)
                && t2.sync_byte_errors == t.sync_byte_errors)),
            // A legal continuity step never counts a continuity error.
            (chunk@.len() == TS_PACKET_SIZE && chunk@[0] == TS_SYNC_BYTE) ==> (old(self).tr101 matches Some(t) ==> (!crate::tr101::cc_error(
                t.last_cc@,
                crate::tr101::pkt_pid(chunk@),
                crate::tr101::pkt_cc(chunk@),
                crate::tr101::pkt_afc(chunk@),
            ) ==> (final(self).tr101 matches Some(t2) && t2.continuity_counter_errors
                == t.continuity_counter_errors))),
            // Legal splice-countdown successions never count; all others do.
            (chunk@.len() == TS_PACKET_SIZE && chunk@[0] == TS_SYNC_BYTE && (analysis_mode
                matches Some(m) && mode_p3(m)) && has_splice(chunk@)) ==> (old(self).tr101 matches Some(t) ==> (t.last_splice_value matches Some(prev) ==> (final(self).tr101 matches Some(t2) && t2.last_splice_value == Some(splice_byte(chunk@))
                && t2.splice_count_errors == (if splice_legal(prev, splice_byte(chunk@)) {
                t.splice_count_errors
            } else {
                t.splice_count_errors.saturating_add(1)
            })))),
            (chunk@.len() == TS_PACKET_SIZE && chunk@[0] == TS_SYNC_BYTE && (analysis_mode
                matches Some(m) && mode_p3(m)) && has_splice(chunk@)) ==> (old(self).tr101 matches Some(t) ==> (t.last_splice_value is None ==> (final(self).tr101 matches Some(t2) && t2.last_splice_value == Some(splice_byte(chunk@))
                && t2.splice_count_errors == t.splice_count_errors))),
    {
        if chunk.len() < TS_PACKET_SIZE {
            return ;
        }
        let mode: AnalysisMode = match analysis_mode {
            Some(m) => m,
            None => AnalysisMode::Off,
        };
        let sync_byte_valid = chunk[0] == TS_SYNC_BYTE;
        match &mut self.tr101 {
            Some(t) => {
                t.check_ts_sync_loss(sync_byte_valid, mode);
                if !sync_byte_valid && mode_is_p1(mode) {
                    t.sync_byte_errors = t.sync_byte_errors.saturating_add(1);
                }
            },
            None => {},
        }
        if !sync_byte_valid {
            return ;
        }

        proof {
            crate::bits::lemma_u8_and_bound(chunk@[1], 0x1F);
        }
        let pid: u16 = ((chunk[1] & 0x1F) as u16) * 256 + chunk[2] as u16;
        let payload_unit_start = chunk[1] & 0x40 != 0;
        let b3 = chunk[3];
        let adaption_field_ctrl = (b3 & 0x30) >> 4;
        proof {
            assert(((b3 & 0x30) >> 4) <= 3) by (bit_vector);
        }
        let mut payload_offset: usize = 4;

        match &mut self.tr101 {
            Some(t) => {
                t.check_pid_error(pid, mode);
            },
            None => {},
        }

        let mut si_context = SiTableContext::unclassified();

        if adaption_field_ctrl == 2 || adaption_field_ctrl == 0 {
            return ;
        }
        if adaption_field_ctrl == 3 {
            let adap_len = chunk[4] as usize;
            payload_offset += 1 + adap_len;
            if payload_offset >= TS_PACKET_SIZE {
                return ;
            }
        }

        let ghost pcr_map0 = self.pcr_pid_map@;
        let mut pcr_found: Option<(u64, u16)> = None;
        let is_pcr_pid = self.pcr_pid_map.has_value(pid);
        if adaption_field_ctrl == 3 && payload_offset > 4 && is_pcr_pid {
            let ad_len = chunk[4] as usize;
            if ad_len >= 7 && chunk[5] & 0x10 != 0 {
                let base: u64 = (chunk[6] as u64) * 0x2000000 + (chunk[7] as u64) * 0x20000 + (
                chunk[8] as u64) * 0x200 + (chunk[9] as u64) * 2 + (chunk[10] as u64) / 128;
                let ext: u16 = ((chunk[10] & 0x01) as u16) * 256 + chunk[11] as u16;
                pcr_found = Some((base, ext));
            }
        }

        let payload = vstd::slice::slice_subrange(chunk, payload_offset, chunk.len());
        proof {
            assert(payload@ =~= crate::tr101::pkt_payload(chunk@));
        }

        if !matches!(mode, AnalysisMode::Off) {
            self.process_si_tables(pid, payload_unit_start, payload, &mut si_context, mode);
            self.process_elementary_streams(pid, payload_unit_start, payload, mode, now_ms);
        }

        if mode_is_p2(mode) || matches!(mode, AnalysisMode::Tr101Priority1) {
            self.analysis_tick(
                chunk,
                pid,
                payload_unit_start,
                adaption_field_ctrl,
                payload_offset,
                pcr_found,
                si_context,
                mode,
                now_ms,
                Ghost(pcr_map0),
            );
        }
    }

    /// The engine dispatch for one payload frame: the service-id
    /// consistency check, the splice-countdown check, and the per-packet
    /// engine step, fed the CRC outcomes of this packet's table dispatch.
    #[verifier::rlimit(100)]
    #[verifier::spinoff_prover]
    fn analysis_tick(
        &mut self,
        chunk: &[u8],
        pid: u16,
        payload_unit_start: bool,
        adaption_field_ctrl: u8,
        payload_offset: usize,
        pcr_found: Option<(u64, u16)>,
        si_context: SiTableContext,
        mode: AnalysisMode,
        now_ms: u64,
        pcr_map0: Ghost<Map<u16, u16>>,
    )
        requires
            old(self).wf(),
            mode_p1(mode),
            pid < PID_LIMIT,
            chunk@.len() >= TS_PACKET_SIZE,
            chunk@[0] == TS_SYNC_BYTE,
            pid == crate::tr101::pkt_pid(chunk@),
            payload_unit_start == crate::tr101::pkt_pusi(chunk@),
            adaption_field_ctrl == crate::tr101::pkt_afc(chunk@),
            adaption_field_ctrl == 1 || adaption_field_ctrl == 3,
            payload_offset == crate::tr101::pkt_payload_offset(chunk@),
            4 <= payload_offset < TS_PACKET_SIZE,
            pcr_found == (if (exists|k: u16|
                #[trigger] pcr_map0@.contains_key(k) && pcr_map0@[k] == pid) {
                crate::tr101::pkt_pcr(chunk@)
            } else {
                Option::<(u64, u16)>::None
            }),
            si_context.pat_crc_ok == (
            if payload_unit_start && pid == 0 && crate::pat::pat_ok(
                crate::tr101::pkt_payload(chunk@),
            ) {
                Some(true)
            } else if payload_unit_start && pid == 0 && crate::section::sec_crc_failed(
                crate::tr101::pkt_payload(chunk@),
            ) {
                Some(false)
            } else {
                Option::<bool>::None
            }),
            pid != 0 ==> si_context.pmt_crc_ok == (
            if payload_unit_start && declares_pmt(old(self).pat_map@, pid) && crate::pmt::pmt_ok(
                crate::tr101::pkt_payload(chunk@),
            ) {
                Some(true)
            } else if payload_unit_start && declares_pmt(old(self).pat_map@, pid)
                && crate::section::sec_crc_failed(crate::tr101::pkt_payload(chunk@)) {
                Some(false)
            } else {
                Option::<bool>::None
            }),
            pid == 0 ==> si_context.pmt_crc_ok is None,
        ensures
            final(self).wf(),
            tr101_monotone(old(self).tr101, final(self).tr101),
            (*final(self) == (PacketProcessor { tr101: final(self).tr101, ..*old(self) })),
            old(self).tr101 is None ==> *final(self) == *old(self),
            chunk@.len() == TS_PACKET_SIZE ==> (old(self).tr101 matches Some(t) ==> (final(self).tr101 matches Some(t2) && t2.sync_byte_errors == t.sync_byte_errors && (pid
                != crate::constants::NULL_PID ==> t2.last_cc@ == t.last_cc@.insert(
                pid,
                crate::tr101::pkt_cc(chunk@),
            ) && t2.continuity_counter_errors == t.continuity_counter_errors.saturating_add(
                if crate::tr101::cc_error(
                    t.last_cc@,
                    pid,
                    crate::tr101::pkt_cc(chunk@),
                    crate::tr101::pkt_afc(chunk@),
                ) {
                    1
                } else {
                    0
                },
            )) && (pid == crate::constants::NULL_PID ==> t2.last_cc@ == t.last_cc@
                && t2.continuity_counter_errors == t.continuity_counter_errors)
                && t2.pat_crc_errors == t.pat_crc_errors.saturating_add(
                if pid == 0 && payload_unit_start && crate::section::sec_crc_failed(
                    crate::tr101::pkt_payload(chunk@),
                ) {
                    1
                } else {
                    0
                },
            ) && t2.last_pat_seen == crate::tr101::seen_after(
                t.last_pat_seen,
                pid == 0 && payload_unit_start && crate::pat::pat_ok(
                    crate::tr101::pkt_payload(chunk@),
                ),
                now_ms,
            ) && (pid != 0 ==> t2.pmt_crc_errors == t.pmt_crc_errors.saturating_add(
                if payload_unit_start && declares_pmt(old(self).pat_map@, pid)
                    && crate::section::sec_crc_failed(crate::tr101::pkt_payload(chunk@)) {
                    1
                } else {
                    0
                },
            )) && t2.service_id_mismatch == t.service_id_mismatch.saturating_add(
                if mode_p3(mode) && crate::si_cache::service_id_mismatch_spec(
                    old(self).si_cache.pat,
                    old(self).si_cache.sdt,
                ) {
                    1
                } else {
                    0
                },
            ) && t2.pid_errors == t.pid_errors)),
            (chunk@.len() == TS_PACKET_SIZE && mode_p2(mode) && (exists|k: u16|
                #[trigger] pcr_map0@.contains_key(k) && pcr_map0@[k] == pid)) ==> (
            crate::tr101::pkt_pcr(chunk@) matches Some((base, ext)) ==> (
            !crate::tr101::pcr_malformed(base, ext) ==> (old(self).tr101 matches Some(t) ==> (
            final(self).tr101 matches Some(t2) && t2.last_pcr_info@ == t.last_pcr_info@.insert(
                pid,
                ((base * 300 + ext) as u64, now_ms),
            ))))),
            (chunk@.len() == TS_PACKET_SIZE && mode_p3(mode) && has_splice(chunk@)) ==> (old(self).tr101 matches Some(t) ==> (t.last_splice_value matches Some(prev) ==> (final(self).tr101 matches Some(t2) && t2.last_splice_value == Some(splice_byte(chunk@))
                && t2.splice_count_errors == (if splice_legal(prev, splice_byte(chunk@)) {
                t.splice_count_errors
            } else {
                t.splice_count_errors.saturating_add(1)
            })))),
            (chunk@.len() == TS_PACKET_SIZE && mode_p3(mode) && has_splice(chunk@)) ==> (old(self).tr101 matches Some(t) ==> (t.last_splice_value is None ==> (final(self).tr101 matches Some(t2) && t2.last_splice_value == Some(splice_byte(chunk@))
                && t2.splice_count_errors == t.splice_count_errors))),
            (chunk@.len() == TS_PACKET_SIZE && !(mode_p3(mode) && has_splice(chunk@))) ==> (old(self).tr101 matches Some(t) ==> (final(self).tr101 matches Some(t2)
                && t2.last_splice_value == t.last_splice_value && t2.splice_count_errors
                == t.splice_count_errors)),
    {
        let mismatch: bool = if mode_is_p3(mode) {
            self.si_cache.check_service_id_mismatch()
        } else {
            false
        };
        let p3 = mode_is_p3(mode);
        match &mut self.tr101 {
            Some(t) => {
                if mismatch {
                    t.service_id_mismatch = t.service_id_mismatch.saturating_add(1);
                }

                if p3 && adaption_field_ctrl == 3 && payload_offset > 4 {
                    let ad_len = chunk[4] as usize;
                    if ad_len >= 1 {
                        let flags = chunk[5];
                        if flags & 0x04 != 0 {
                            let sc_pos = 6 + ad_len - 1;
                            if sc_pos < chunk.len() {
                                let val: i8 = #[verifier::truncate] (chunk[sc_pos] as i8);
                                match t.last_splice_value {
                                    None => {
                                        t.last_splice_value = Some(val);
                                    },
                                    Some(prev) => {
                                        if !(val == prev || (prev > i8::MIN && val == prev
                                            - 1) || (prev == -1 && val == 0)) {
                                            t.splice_count_errors =
                                                t.splice_count_errors.saturating_add(1);
                                        }
                                        t.last_splice_value = Some(val);
                                    },
                                }
                            }
                        }
                    }
                }

                let packet_ctx = PacketContext {
                    chunk,
                    pid,
                    payload_unit_start,
                    pat_pid: 0x0000,
                    pcr_opt: pcr_found,
                    table_id: si_context.table_id,
                    priority_level: mode,
                };
                let crc_validation = CrcValidation {
                    pat_crc_ok: si_context.pat_crc_ok,
                    pmt_crc_ok: si_context.pmt_crc_ok,
                    cat_crc_ok: si_context.cat_crc_ok,
                    nit_crc_ok: si_context.nit_crc_ok,
                    sdt_crc_ok: si_context.sdt_crc_ok,
                    eit_crc_ok: si_context.eit_crc_ok,
                };
                t.on_packet_with_context(packet_ctx, crc_validation, now_ms);
            },
            None => {},
        }
    }

    /// Slices a buffer into 188-byte frames and processes each frame that
    /// opens with the sync byte, in order.
    pub fn feed_buffer(&mut self, buf: &[u8], analysis_mode: Option<AnalysisMode>, now_ms: u64)
        requires
            old(self).wf(),
            buf@.len() < 0x1000000,
        ensures
            final(self).wf(),
            tr101_monotone(old(self).tr101, final(self).tr101),
            // The driver skips frames without the sync byte, so no frame
            // it forwards can move the sync-byte counter.
            old(self).tr101 matches Some(t) ==> (final(self).tr101 matches Some(t2)
                && t2.sync_byte_errors == t.sync_byte_errors),
            buf@.len() < TS_PACKET_SIZE ==> *final(self) == *old(self),
            // PAT CRC failures are counted exactly, as a pure function of
            // the buffer: replaying a buffer doubles the count.
            (analysis_mode matches Some(m) && mode_p1(m)) ==> (old(self).tr101 matches Some(t)
                ==> (final(self).tr101 matches Some(t2) && t2.pat_crc_errors
                == t.pat_crc_errors.saturating_add(
                pat_crc_failures_in(buf@, 0) as u64,
            ))),
            // Continuity is a pure walk: the final per-PID counters and the
            // violation count are a function of the starting counters and
            // the buffer alone.
            (analysis_mode matches Some(m) && mode_p1(m)) ==> (old(self).tr101 matches Some(t)
                ==> (final(self).tr101 matches Some(t2) && t2.last_cc@ == cc_fold(
                t.last_cc@,
                buf@,
                0,
            ).0 && t2.continuity_counter_errors
                == t.continuity_counter_errors.saturating_add(
                cc_fold(t.last_cc@, buf@, 0).1 as u64,
            ))),
    {
        let mut off: usize = 0;
        while off + TS_PACKET_SIZE <= buf.len()
            invariant
                self.wf(),
                buf@.len() < 0x1000000,
                off <= buf@.len(),
                tr101_monotone(old(self).tr101, self.tr101),
                old(self).tr101 matches Some(t) ==> (self.tr101 matches Some(t2)
                    && t2.sync_byte_errors == t.sync_byte_errors),
                buf@.len() < TS_PACKET_SIZE ==> *self == *old(self),
                off % TS_PACKET_SIZE == 0,
                (analysis_mode matches Some(m) && mode_p1(m)) ==> (old(self).tr101 matches Some(
                    t,
                ) ==> (self.tr101 matches Some(t2) && t2.pat_crc_errors.saturating_add(
                    pat_crc_failures_in(buf@, off as int) as u64,
                ) == t.pat_crc_errors.saturating_add(pat_crc_failures_in(buf@, 0) as u64))),
                (analysis_mode matches Some(m) && mode_p1(m)) ==> (old(self).tr101 matches Some(
                    t,
                ) ==> (self.tr101 matches Some(t2) && cc_fold(t2.last_cc@, buf@, off as int).0
                    == cc_fold(t.last_cc@, buf@, 0).0
                    && t2.continuity_counter_errors.saturating_add(
                    cc_fold(t2.last_cc@, buf@, off as int).1 as u64,
                ) == t.continuity_counter_errors.saturating_add(
                    cc_fold(t.last_cc@, buf@, 0).1 as u64,
                ))),
            decreases buf@.len() - off,
        {
            let ghost pre = self.tr101;
            let chunk = vstd::slice::slice_subrange(buf, off, off + TS_PACKET_SIZE);
            if chunk[0] == TS_SYNC_BYTE {
                self.process_packet(chunk, analysis_mode, now_ms);
            }
            proof {
                lemma_pat_crc_failures_bound(buf@, off as int);
                lemma_pat_crc_failures_bound(buf@, off + TS_PACKET_SIZE);
                if analysis_mode is Some && mode_p1(analysis_mode->0) && old(self).tr101 is Some {
                    let tp = pre->0;
                    let tn = self.tr101->0;
                    let d: u64 = if chunk@[0] == TS_SYNC_BYTE && crate::tr101::pkt_dispatched(
                        chunk@,
                    ) && crate::tr101::pkt_pusi(chunk@) && crate::tr101::pkt_pid(chunk@) == 0
                        && crate::section::sec_crc_failed(crate::tr101::pkt_payload(chunk@)) {
                        1
                    } else {
                        0
                    };
                    assert(tn.pat_crc_errors == tp.pat_crc_errors.saturating_add(d));
                    assert(pat_crc_failures_in(buf@, off as int) == d + pat_crc_failures_in(
                        buf@,
                        off + TS_PACKET_SIZE,
                    ));
                    lemma_sat_add_assoc(
                        tp.pat_crc_errors,
                        d,
                        pat_crc_failures_in(buf@, off + TS_PACKET_SIZE) as u64,
                    );
                    lemma_cc_fold_bound(tp.last_cc@, buf@, off as int);
                    lemma_cc_fold_bound(tn.last_cc@, buf@, off + TS_PACKET_SIZE);
                    if chunk@[0] == TS_SYNC_BYTE && crate::tr101::pkt_dispatched(chunk@)
                        && crate::tr101::pkt_pid(chunk@) != crate::constants::NULL_PID {
                        let dc: u64 = if crate::tr101::cc_error(
                            tp.last_cc@,
                            crate::tr101::pkt_pid(chunk@),
                            crate::tr101::pkt_cc(chunk@),
                            crate::tr101::pkt_afc(chunk@),
                        ) {
                            1
                        } else {
                            0
                        };
                        assert(tn.last_cc@ == tp.last_cc@.insert(
                            crate::tr101::pkt_pid(chunk@),
                            crate::tr101::pkt_cc(chunk@),
                        ));
                        assert(tn.continuity_counter_errors
                            == tp.continuity_counter_errors.saturating_add(dc));
                        assert(cc_fold(tp.last_cc@, buf@, off as int).1 == dc + cc_fold(
                            tn.last_cc@,
                            buf@,
                            off + TS_PACKET_SIZE,
                        ).1);
                        lemma_sat_add_assoc(
                            tp.continuity_counter_errors,
                            dc,
                            cc_fold(tn.last_cc@, buf@, off + TS_PACKET_SIZE).1 as u64,
                        );
                    } else {
                        assert(cc_fold(tp.last_cc@, buf@, off as int) == cc_fold(
                            tp.last_cc@,
                            buf@,
                            off + TS_PACKET_SIZE,
                        ));
                    }
                }
            }
            off += TS_PACKET_SIZE;
        }
    }

    /// One control-loop decision: a start command switches the mode and
    /// attaches the engine; a stop clears the mode; a status query reports
    /// the mode and whether analysis runs.
    pub fn apply_command(
        &mut self,
        current_mode: Option<AnalysisMode>,
        cmd: AnalysisCommand,
        now_ms: u64,
    ) -> (r: (Option<AnalysisMode>, Option<AnalysisStatus>))
        requires
            old(self).wf(),
        ensures
            final(self).wf(),
            cmd matches AnalysisCommand::Start(m) ==> r.0 == Some(m) && r.1 is None,
            cmd is Stop ==> r.0 is None && r.1 is None && *final(self) == *old(self),
            cmd is GetStatus ==> r.0 == current_mode && r.1 == Some(
                AnalysisStatus { current_mode, is_running: current_mode is Some },
            ) && *final(self) == *old(self),
    {
        match cmd {
            AnalysisCommand::Start(m) => {
                self.set_analysis_mode(Some(m), now_ms);
                (Some(m), None)
            },
            AnalysisCommand::Stop => (None, None),
            AnalysisCommand::GetStatus => (
                current_mode,
                Some(AnalysisStatus { current_mode, is_running: current_mode.is_some() }),
            ),
        }
    }
}

/// The number of frames in `buf` (walked in 188-byte strides) that carry
/// a PAT section whose CRC fails: sync byte present, a payload, a payload
/// start on PID 0, and a well-framed section with a mismatched CRC. This
/// is a pure function of the bytes, so feeding one buffer twice counts
/// its failures twice.
pub open spec fn pat_crc_failures_in(buf: Seq<u8>, off: int) -> nat
    decreases buf.len() - off when off >= 0
{
    if off < 0 || off + TS_PACKET_SIZE > buf.len() {
        0
    } else {
        let c = buf.subrange(off, off + TS_PACKET_SIZE);
        let d: nat = if c[0] == TS_SYNC_BYTE && crate::tr101::pkt_dispatched(c)
            && crate::tr101::pkt_pusi(c) && crate::tr101::pkt_pid(c) == 0
            && crate::section::sec_crc_failed(crate::tr101::pkt_payload(c)) {
            1
        } else {
            0
        };
        d + pat_crc_failures_in(buf, off + TS_PACKET_SIZE)
    }
}

/// The continuity walk over a buffer's frames: the per-PID counters after
/// the walk and the number of continuity violations, as a pure function of
/// the starting counters and the bytes.
pub open spec fn cc_fold(m: Map<u16, u8>, buf: Seq<u8>, off: int) -> (Map<u16, u8>, nat)
    decreases buf.len() - off when off >= 0
{
    if off < 0 || off + TS_PACKET_SIZE > buf.len() {
        (m, 0)
    } else {
        let c = buf.subrange(off, off + TS_PACKET_SIZE);
        if c[0] == TS_SYNC_BYTE && crate::tr101::pkt_dispatched(c) && crate::tr101::pkt_pid(c)
            != crate::constants::NULL_PID {
            let d: nat = if crate::tr101::cc_error(
                m,
                crate::tr101::pkt_pid(c),
                crate::tr101::pkt_cc(c),
                crate::tr101::pkt_afc(c),
            ) {
                1
            } else {
                0
            };
            let rest = cc_fold(
                m.insert(crate::tr101::pkt_pid(c), crate::tr101::pkt_cc(c)),
                buf,
                off + TS_PACKET_SIZE,
            );
            (rest.0, d + rest.1)
        } else {
            cc_fold(m, buf, off + TS_PACKET_SIZE)
        }
    }
}

/// The violation count never exceeds the bytes left.
proof fn lemma_cc_fold_bound(m: Map<u16, u8>, buf: Seq<u8>, off: int)
    requires
        0 <= off,
    ensures
        cc_fold(m, buf, off).1 <= buf.len() - off || cc_fold(m, buf, off).1 == 0,
    decreases buf.len() - off,
{
    if off + TS_PACKET_SIZE > buf.len() {
    } else {
        let c = buf.subrange(off, off + TS_PACKET_SIZE);
        lemma_cc_fold_bound(
            m.insert(crate::tr101::pkt_pid(c), crate::tr101::pkt_cc(c)),
            buf,
            off + TS_PACKET_SIZE,
        );
        lemma_cc_fold_bound(m, buf, off + TS_PACKET_SIZE);
    }
}

/// The failure count never exceeds the bytes left.
proof fn lemma_pat_crc_failures_bound(buf: Seq<u8>, off: int)
    requires
        0 <= off,
    ensures
        pat_crc_failures_in(buf, off) <= buf.len() - off || pat_crc_failures_in(buf, off) == 0,
    decreases buf.len() - off,
{
    if off + TS_PACKET_SIZE > buf.len() {
    } else {
        lemma_pat_crc_failures_bound(buf, off + TS_PACKET_SIZE);
    }
}

/// Saturating addition composes: adding two counts one after the other is
/// adding their sum.
proof fn lemma_sat_add_assoc(a: u64, x: u64, y: u64)
    requires
        x + y <= u64::MAX,
    ensures
        a.saturating_add(x).saturating_add(y) == a.saturating_add((x + y) as u64),
{
}

/// Whether a snapshot is due: at least `refresh_secs` seconds have passed
/// since the last emission.
pub fn should_emit(last_emit_ms: u64, now_ms: u64, refresh_secs: u64) -> (r: bool)
    requires
        refresh_secs < 0x10000000,
    ensures
        r == (now_ms.saturating_sub(last_emit_ms) >= refresh_secs * 1000),
{
    now_ms.saturating_sub(last_emit_ms) >= refresh_secs * 1000
}

/// Sorts a vector of integers in place (ascending).
fn sort_u64(v: &mut Vec<u64>)
    ensures
        final(v)@.len() == old(v)@.len(),
        forall|i: int, j: int| 0 <= i < j < final(v)@.len() ==> final(v)@[i] <= final(v)@[j],
{
    let n = v.len();
    let mut i: usize = 0;
    while i < n
        invariant
            n == v@.len(),
            i <= n,
            forall|a: int, b: int| 0 <= a < b < i ==> v@[a] <= v@[b],
            forall|a: int, b: int| 0 <= a < i && i <= b < n ==> v@[a] <= v@[b],
        decreases n - i,
    {
        let mut min_idx: usize = i;
        let mut j: usize = i + 1;
        while j < n
            invariant
                n == v@.len(),
                i <= min_idx < j <= n,
                forall|a: int, b: int| 0 <= a < b < i ==> v@[a] <= v@[b],
                forall|a: int, b: int| 0 <= a < i && i <= b < n ==> v@[a] <= v@[b],
                forall|b: int| i <= b < j ==> v@[min_idx as int] <= v@[b],
            decreases n - j,
        {
            if v[j] < v[min_idx] {
                min_idx = j;
            }
            j += 1;
        }
        let a = v[i];
        let b = v[min_idx];
        v.set(i, b);
        v.set(min_idx, a);
        i += 1;
    }
}

/// Snaps an estimated frame rate (millihertz) to the nearest common frame
/// rate within half a hertz; a match against a common field rate snaps to
/// the corresponding frame rate; otherwise the estimate is rounded to a
/// hundredth of a hertz.
pub open spec fn round_fps_spec(est: u32) -> u32 {
    if dist_u32(est, 23976) < 500 {
        23976
    } else if dist_u32(est, 24000) < 500 {
        24000
    } else if dist_u32(est, 25000) < 500 {
        25000
    } else if dist_u32(est, 29970) < 500 {
        29970
    } else if dist_u32(est, 30000) < 500 {
        30000
    } else if dist_u32(est, 48000) < 500 {
        48000
    } else if dist_u32(est, 50000) < 500 {
        50000
    } else if dist_u32(est, 60000) < 500 {
        60000
    } else if dist_u32(est, 120000) < 500 {
        120000
    } else if dist_u32(est, 47952) < 500 {
        23976
    } else if dist_u32(est, 59940) < 500 {
        29970
    } else if dist_u32(est, 96000) < 500 {
        48000
    } else if dist_u32(est, 100000) < 500 {
        50000
    } else if dist_u32(est, 240000) < 500 {
        120000
    } else {
        (((est + 5) / 10) * 10) as u32
    }
}

/// The distance between two rates.
pub open spec fn dist_u32(a: u32, b: u32) -> int {
    if a >= b {
        a - b
    } else {
        b - a
    }
}

/// Executable counterpart of [`round_fps_spec`].
pub fn round_to_common_fps(est: u32) -> (r: u32)
    ensures
        r == round_fps_spec(est),
{
    if dist_u32_exec(est, 23976) < 500 {
        23976
    } else if dist_u32_exec(est, 24000) < 500 {
        24000
    } else if dist_u32_exec(est, 25000) < 500 {
        25000
    } else if dist_u32_exec(est, 29970) < 500 {
        29970
    } else if dist_u32_exec(est, 30000) < 500 {
        30000
    } else if dist_u32_exec(est, 48000) < 500 {
        48000
    } else if dist_u32_exec(est, 50000) < 500 {
        50000
    } else if dist_u32_exec(est, 60000) < 500 {
        60000
    } else if dist_u32_exec(est, 120000) < 500 {
        120000
    } else if dist_u32_exec(est, 47952) < 500 {
        23976
    } else if dist_u32_exec(est, 59940) < 500 {
        29970
    } else if dist_u32_exec(est, 96000) < 500 {
        48000
    } else if dist_u32_exec(est, 100000) < 500 {
        50000
    } else if dist_u32_exec(est, 240000) < 500 {
        120000
    } else {
        let r: u64 = (((est as u64) + 5) / 10) * 10;
        proof {
            assert(r <= 0xFFFFFFFF + 9);
            assert((((est as int) + 5) / 10) * 10 <= (est as int) + 5);
        }
        r as u32
    }
}

/// Executable rate distance.
fn dist_u32_exec(a: u32, b: u32) -> (r: u32)
    ensures
        r == dist_u32(a, b),
{
    if a >= b {
        a - b
    } else {
        b - a
    }
}

} // verus!
