//! The TR 101 290 error-counter engine.
//!
//! All counters are monotonic: no method ever decreases one. Wall-clock
//! instants are taken as milliseconds (`now_ms`) supplied by the caller;
//! elapsed times are computed with saturating subtraction.
use vstd::prelude::*;

use crate::constants::{
    is_system_pid, system_pid, CAT_TIMEOUT_MS, EIT_TIMEOUT_MS, MAX_PTS_JUMP, NIT_TIMEOUT_MS,
    NULL_PID, NULL_RATE_DEN, NULL_RATE_NUM, PAT_TIMEOUT_MS, PCR_ACCURACY_TICKS,
    PCR_REPETITION_MS, PCR_TICKS_PER_MS, PID_LIMIT, PMT_TIMEOUT_MS, PTS_WRAP_THRESHOLD,
    SDT_TIMEOUT_MS, SYNC_LOSS_THRESHOLD, TDT_TIMEOUT_MS, TS_PACKET_SIZE, TS_SYNC_BYTE,
};
use crate::keymap::U16Map;
use crate::pidmap::PidMap;
use crate::types::{
    mode_is_p1, mode_is_p2, mode_is_p3, mode_p1, mode_p2, mode_p3, AnalysisMode, CrcValidation,
    PacketContext,
};

verus! {

/// The TR 101 290 counters (public) and the engine's internal state.
pub struct Tr101Metrics {
    // Priority 1
    pub sync_byte_errors: u64,
    pub ts_sync_loss: u64,
    pub transport_error_indicator: u64,
    pub pat_crc_errors: u64,
    pub pat_timeout: u64,
    pub continuity_counter_errors: u64,
    pub pmt_crc_errors: u64,
    pub pmt_timeout: u64,
    pub pid_errors: u64,
    // Priority 2
    pub pcr_repetition_errors: u64,
    pub pcr_accuracy_errors: u64,
    pub null_packet_rate_errors: u64,
    pub cat_crc_errors: u64,
    pub cat_timeout: u64,
    pub pat_version_changes: u64,
    pub pmt_version_changes: u64,
    pub pts_errors: u64,
    // Priority 3
    pub service_id_mismatch: u64,
    pub nit_crc_errors: u64,
    pub nit_timeout: u64,
    pub sdt_crc_errors: u64,
    pub sdt_timeout: u64,
    pub eit_crc_errors: u64,
    pub eit_timeout: u64,
    pub tdt_timeout: u64,
    pub splice_count_errors: u64,
    // Internal state
    pub last_splice_value: Option<i8>,
    pub last_pat_seen: Option<u64>,
    pub last_pmt_seen: PidMap<u64>,
    pub last_cc: PidMap<u8>,
    pub pat_versions: U16Map<u8>,
    pub pmt_versions: PidMap<u8>,
    /// Per PID: (PCR value in 27 MHz ticks, wall clock in ms).
    pub last_pcr_info: PidMap<(u64, u64)>,
    pub bytes_in_window: u64,
    pub null_bytes_in_window: u64,
    pub last_rate_check: Option<u64>,
    pub last_cat_seen: Option<u64>,
    pub last_nit_seen: Option<u64>,
    pub last_sdt_seen: Option<u64>,
    pub last_eit_seen: Option<u64>,
    pub last_tdt_seen: Option<u64>,
    pub startup_ms: u64,
    pub pat_timeout_state: bool,
    pub pmt_timeout_state: PidMap<bool>,
    pub cat_timeout_state: bool,
    pub nit_timeout_state: bool,
    pub sdt_timeout_state: bool,
    pub eit_timeout_state: bool,
    pub tdt_timeout_state: bool,
    pub known_pids: PidMap<bool>,
    pub last_pts_per_pid: PidMap<u64>,
    pub sync_loss_counter: u64,
}

/// The 13-bit PID of a packet.
pub open spec fn pkt_pid(c: Seq<u8>) -> u16 {
    (((c[1] & 0x1F) as int) * 256 + c[2]) as u16
}

/// The 4-bit continuity counter of a packet.
pub open spec fn pkt_cc(c: Seq<u8>) -> u8 {
    c[3] & 0x0F
}

/// The 2-bit adaptation-field-control of a packet.
pub open spec fn pkt_afc(c: Seq<u8>) -> u8 {
    (c[3] & 0x30) >> 4
}

/// The transport-error-indicator bit of a packet.
pub open spec fn pkt_tei(c: Seq<u8>) -> bool {
    c[1] & 0x80 != 0
}

/// The payload-unit-start bit of a packet.
pub open spec fn pkt_pusi(c: Seq<u8>) -> bool {
    c[1] & 0x40 != 0
}

/// Offset of the packet's payload: past the header, and past the
/// adaptation field when one is present.
pub open spec fn pkt_payload_offset(c: Seq<u8>) -> int {
    if pkt_afc(c) == 3 {
        5 + c[4]
    } else {
        4
    }
}

/// The packet's payload bytes.
pub open spec fn pkt_payload(c: Seq<u8>) -> Seq<u8> {
    c.skip(pkt_payload_offset(c))
}

/// A packet the dispatcher routes to the table, stream and engine paths:
/// accepted, carrying a payload, with an adaptation field that leaves
/// room for one.
pub open spec fn pkt_dispatched(c: Seq<u8>) -> bool {
    &&& pkt_accepted(c)
    &&& (pkt_afc(c) == 1 || pkt_afc(c) == 3)
    &&& pkt_payload_offset(c) < TS_PACKET_SIZE
}

/// The PCR carried in the packet's adaptation field: the 33-bit base over
/// bytes 6..11 and the 9-bit extension, when the field is long enough and
/// its PCR flag is set.
pub open spec fn pkt_pcr(c: Seq<u8>) -> Option<(u64, u16)> {
    if pkt_afc(c) == 3 && c[4] >= 7 && (c[5] & 0x10) != 0 {
        Some(
            (
                ((c[6] as int) * 0x2000000 + (c[7] as int) * 0x20000 + (c[8] as int) * 0x200 + (
                c[9] as int) * 2 + (c[10] as int) / 128) as u64,
                ((c[10] & 0x01) as int * 256 + c[11]) as u16,
            ),
        )
    } else {
        None
    }
}

/// A continuity violation: for a non-null PID with a previous counter, when
/// the packet carries a payload (adaptation-field-control not 0b10), the new
/// counter must be the previous one plus one, modulo 16.
pub open spec fn cc_error(last: Map<u16, u8>, pid: u16, cc: u8, afc: u8) -> bool {
    &&& pid != NULL_PID
    &&& last.contains_key(pid)
    &&& afc != 2
    &&& ((last[pid] + 1) % 16) != cc
}

/// A PCR as 27 MHz ticks: 300 per 90 kHz base tick, plus the extension.
pub open spec fn pcr_ticks_of(base: u64, ext: u16) -> int {
    base * 300 + ext
}

/// One whole PCR wrap period in 27 MHz ticks: 2^33 * 300.
pub open spec fn pcr_wrap() -> int {
    crate::constants::PCR_WRAP_TICKS as int
}

/// The forward PCR distance, treating a numeric decrease as a wrap of the
/// 33-bit base.
pub open spec fn pcr_delta(prev: int, cur: int) -> int {
    if cur >= prev {
        cur - prev
    } else {
        pcr_wrap() - prev + cur
    }
}

/// A PTS discontinuity: a backward jump of less than half the 33-bit range
/// (a larger backward step is a wrap), or a forward jump of more than
/// 60 seconds.
pub open spec fn pts_discontinuity(last: u64, pts: u64) -> bool {
    if pts < last {
        last - pts < PTS_WRAP_THRESHOLD / 2
    } else {
        pts - last > MAX_PTS_JUMP
    }
}

/// The distance between two integers.
pub open spec fn dist(a: int, b: int) -> int {
    if a >= b {
        a - b
    } else {
        b - a
    }
}

/// One exactly when two consecutive PCRs of `pid` lie more than the
/// repetition window apart in wall time.
pub open spec fn pcr_rep_delta(info: Map<u16, (u64, u64)>, pid: u16, now_ms: u64) -> u64 {
    if info.contains_key(pid) && now_ms.saturating_sub(info[pid].1) > PCR_REPETITION_MS {
        1
    } else {
        0
    }
}

/// One exactly when the PCR advance disagrees with the wall clock: the wall
/// gap lies in [100 ms, 1000 ms], the tick advance is below twice the
/// expected advance, and the error exceeds both the absolute tolerance and
/// 100 parts per million.
pub open spec fn pcr_acc_delta(info: Map<u16, (u64, u64)>, pid: u16, ticks: u64, now_ms: u64) -> u64 {
    if info.contains_key(pid) {
        let wall = now_ms.saturating_sub(info[pid].1) as int;
        let delta = pcr_delta(info[pid].0 as int, ticks as int);
        let expected = wall * PCR_TICKS_PER_MS;
        let error = dist(delta, expected);
        if 100 <= wall <= 1000 && delta < 2 * expected && error > PCR_ACCURACY_TICKS && error
            * 10000 > expected {
            1
        } else {
            0
        }
    } else {
        0
    }
}

/// A PCR that does not fit the field widths: the base has 33 bits, the
/// extension counts 0..=299.
pub open spec fn pcr_malformed(base: u64, ext: u16) -> bool {
    base >= 0x200000000 || ext > 299
}

/// True when the engine rejects the packet's PCR and stops processing it.
pub open spec fn pcr_rejects(level: AnalysisMode, pcr_opt: Option<(u64, u16)>) -> bool {
    mode_p2(level) && match pcr_opt {
        Some((base, ext)) => pcr_malformed(base, ext),
        None => false,
    }
}

/// A packet the engine fully processes: 188 bytes with the sync byte.
pub open spec fn pkt_accepted(c: Seq<u8>) -> bool {
    c.len() == TS_PACKET_SIZE && c[0] == TS_SYNC_BYTE
}

/// A table sighting: the stored instant, refreshed to `now_ms` on a hit.
pub open spec fn seen_after(prev: Option<u64>, hit: bool, now_ms: u64) -> Option<u64> {
    if hit {
        Some(now_ms)
    } else {
        prev
    }
}

/// A legal splice-countdown succession: the same value, one less, or the
/// roll from -1 to 0.
pub open spec fn splice_legal(prev: i8, val: i8) -> bool {
    ||| val == prev
    ||| (prev > i8::MIN && val == prev - 1)
    ||| (prev == -1 && val == 0)
}

/// Whether a table is in timeout at `now`: its last validated arrival (or,
/// before the first arrival, the engine's start) lies more than `window`
/// milliseconds back.
pub open spec fn table_timed_out(
    last_seen: Option<u64>,
    startup_ms: u64,
    now_ms: u64,
    window: u64,
) -> bool {
    match last_seen {
        Some(t) => now_ms.saturating_sub(t) > window,
        None => now_ms.saturating_sub(startup_ms) > window,
    }
}

/// An edge-triggered timeout tick: 1 exactly when the predicate just
/// became true.
pub open spec fn timeout_edge(was: bool, is_now: bool) -> u64 {
    if is_now && !was {
        1
    } else {
        0
    }
}

impl Tr101Metrics {
    /// Well-formedness of the engine state: the per-PID tables have their
    /// full shape, stored continuity counters are 4-bit values, and stored
    /// program-version keys are unique.
    pub open spec fn wf(&self) -> bool {
        &&& self.last_pmt_seen.wf()
        &&& self.last_cc.wf()
        &&& self.pat_versions.wf()
        &&& self.pmt_versions.wf()
        &&& self.last_pcr_info.wf()
        &&& self.pmt_timeout_state.wf()
        &&& self.known_pids.wf()
        &&& self.last_pts_per_pid.wf()
        &&& (forall|p: u16|
            self.last_pcr_info@.contains_key(p) ==> self.last_pcr_info@[p].0
                < crate::constants::PCR_WRAP_TICKS)
    }

    /// All 26 counters of `b` are at least those of `a`.
    pub open spec fn counters_monotone(a: &Tr101Metrics, b: &Tr101Metrics) -> bool {
        &&& a.sync_byte_errors <= b.sync_byte_errors
        &&& a.ts_sync_loss <= b.ts_sync_loss
        &&& a.transport_error_indicator <= b.transport_error_indicator
        &&& a.pat_crc_errors <= b.pat_crc_errors
        &&& a.pat_timeout <= b.pat_timeout
        &&& a.continuity_counter_errors <= b.continuity_counter_errors
        &&& a.pmt_crc_errors <= b.pmt_crc_errors
        &&& a.pmt_timeout <= b.pmt_timeout
        &&& a.pid_errors <= b.pid_errors
        &&& a.pcr_repetition_errors <= b.pcr_repetition_errors
        &&& a.pcr_accuracy_errors <= b.pcr_accuracy_errors
        &&& a.null_packet_rate_errors <= b.null_packet_rate_errors
        &&& a.cat_crc_errors <= b.cat_crc_errors
        &&& a.cat_timeout <= b.cat_timeout
        &&& a.pat_version_changes <= b.pat_version_changes
        &&& a.pmt_version_changes <= b.pmt_version_changes
        &&& a.pts_errors <= b.pts_errors
        &&& a.service_id_mismatch <= b.service_id_mismatch
        &&& a.nit_crc_errors <= b.nit_crc_errors
        &&& a.nit_timeout <= b.nit_timeout
        &&& a.sdt_crc_errors <= b.sdt_crc_errors
        &&& a.sdt_timeout <= b.sdt_timeout
        &&& a.eit_crc_errors <= b.eit_crc_errors
        &&& a.eit_timeout <= b.eit_timeout
        &&& a.tdt_timeout <= b.tdt_timeout
        &&& a.splice_count_errors <= b.splice_count_errors
    }

    /// Observational equality: same counters, same internal state, with the
    /// per-PID tables compared by their map views.
    pub open spec fn state_eq(a: &Tr101Metrics, b: &Tr101Metrics) -> bool {
        &&& a.sync_byte_errors == b.sync_byte_errors
        &&& a.ts_sync_loss == b.ts_sync_loss
        &&& a.transport_error_indicator == b.transport_error_indicator
        &&& a.pat_crc_errors == b.pat_crc_errors
        &&& a.pat_timeout == b.pat_timeout
        &&& a.continuity_counter_errors == b.continuity_counter_errors
        &&& a.pmt_crc_errors == b.pmt_crc_errors
        &&& a.pmt_timeout == b.pmt_timeout
        &&& a.pid_errors == b.pid_errors
        &&& a.pcr_repetition_errors == b.pcr_repetition_errors
        &&& a.pcr_accuracy_errors == b.pcr_accuracy_errors
        &&& a.null_packet_rate_errors == b.null_packet_rate_errors
        &&& a.cat_crc_errors == b.cat_crc_errors
        &&& a.cat_timeout == b.cat_timeout
        &&& a.pat_version_changes == b.pat_version_changes
        &&& a.pmt_version_changes == b.pmt_version_changes
        &&& a.pts_errors == b.pts_errors
        &&& a.service_id_mismatch == b.service_id_mismatch
        &&& a.nit_crc_errors == b.nit_crc_errors
        &&& a.nit_timeout == b.nit_timeout
        &&& a.sdt_crc_errors == b.sdt_crc_errors
        &&& a.sdt_timeout == b.sdt_timeout
        &&& a.eit_crc_errors == b.eit_crc_errors
        &&& a.eit_timeout == b.eit_timeout
        &&& a.tdt_timeout == b.tdt_timeout
        &&& a.splice_count_errors == b.splice_count_errors
        &&& a.last_splice_value == b.last_splice_value
        &&& a.last_pat_seen == b.last_pat_seen
        &&& a.last_pmt_seen@ == b.last_pmt_seen@
        &&& a.last_cc@ == b.last_cc@
        &&& a.pat_versions@ == b.pat_versions@
        &&& a.pat_versions.pairs() == b.pat_versions.pairs()
        &&& a.pmt_versions@ == b.pmt_versions@
        &&& a.last_pcr_info@ == b.last_pcr_info@
        &&& a.bytes_in_window == b.bytes_in_window
        &&& a.null_bytes_in_window == b.null_bytes_in_window
        &&& a.last_rate_check == b.last_rate_check
        &&& a.last_cat_seen == b.last_cat_seen
        &&& a.last_nit_seen == b.last_nit_seen
        &&& a.last_sdt_seen == b.last_sdt_seen
        &&& a.last_eit_seen == b.last_eit_seen
        &&& a.last_tdt_seen == b.last_tdt_seen
        &&& a.startup_ms == b.startup_ms
        &&& a.pat_timeout_state == b.pat_timeout_state
        &&& a.pmt_timeout_state@ == b.pmt_timeout_state@
        &&& a.cat_timeout_state == b.cat_timeout_state
        &&& a.nit_timeout_state == b.nit_timeout_state
        &&& a.sdt_timeout_state == b.sdt_timeout_state
        &&& a.eit_timeout_state == b.eit_timeout_state
        &&& a.tdt_timeout_state == b.tdt_timeout_state
        &&& a.known_pids@ == b.known_pids@
        &&& a.last_pts_per_pid@ == b.last_pts_per_pid@
        &&& a.sync_loss_counter == b.sync_loss_counter
    }

    /// A fresh engine started at `now_ms`: every counter zero, no state.
    pub fn new(now_ms: u64) -> (r: Tr101Metrics)
        ensures
            r.wf(),
            r.sync_byte_errors == 0 && r.ts_sync_loss == 0 && r.transport_error_indicator == 0,
            r.pat_crc_errors == 0 && r.pat_timeout == 0 && r.continuity_counter_errors == 0,
            r.pmt_crc_errors == 0 && r.pmt_timeout == 0 && r.pid_errors == 0,
            r.pcr_repetition_errors == 0 && r.pcr_accuracy_errors == 0,
            r.null_packet_rate_errors == 0 && r.cat_crc_errors == 0 && r.cat_timeout == 0,
            r.pat_version_changes == 0 && r.pmt_version_changes == 0 && r.pts_errors == 0,
            r.service_id_mismatch == 0 && r.nit_crc_errors == 0 && r.nit_timeout == 0,
            r.sdt_crc_errors == 0 && r.sdt_timeout == 0 && r.eit_crc_errors == 0,
            r.eit_timeout == 0 && r.tdt_timeout == 0 && r.splice_count_errors == 0,
            r.last_splice_value is None,
            r.last_pat_seen is None && r.last_cat_seen is None,
            r.last_nit_seen is None && r.last_sdt_seen is None && r.last_eit_seen is None,
            r.last_tdt_seen is None && r.last_rate_check is None,
            r.last_pmt_seen@ == Map::<u16, u64>::empty(),
            r.last_cc@ == Map::<u16, u8>::empty(),
            r.pat_versions@ == Map::<u16, u8>::empty(),
            r.pmt_versions@ == Map::<u16, u8>::empty(),
            r.last_pcr_info@ == Map::<u16, (u64, u64)>::empty(),
            r.pmt_timeout_state@ == Map::<u16, bool>::empty(),
            r.known_pids@ == Map::<u16, bool>::empty(),
            r.last_pts_per_pid@ == Map::<u16, u64>::empty(),
            r.bytes_in_window == 0 && r.null_bytes_in_window == 0,
            r.startup_ms == now_ms,
            !r.pat_timeout_state && !r.cat_timeout_state,
            !r.nit_timeout_state && !r.sdt_timeout_state && !r.eit_timeout_state
                && !r.tdt_timeout_state,
            r.sync_loss_counter == 0,
    {
        Tr101Metrics {
            sync_byte_errors: 0,
            ts_sync_loss: 0,
            transport_error_indicator: 0,
            pat_crc_errors: 0,
            pat_timeout: 0,
            continuity_counter_errors: 0,
            pmt_crc_errors: 0,
            pmt_timeout: 0,
            pid_errors: 0,
            pcr_repetition_errors: 0,
            pcr_accuracy_errors: 0,
            null_packet_rate_errors: 0,
            cat_crc_errors: 0,
            cat_timeout: 0,
            pat_version_changes: 0,
            pmt_version_changes: 0,
            pts_errors: 0,
            service_id_mismatch: 0,
            nit_crc_errors: 0,
            nit_timeout: 0,
            sdt_crc_errors: 0,
            sdt_timeout: 0,
            eit_crc_errors: 0,
            eit_timeout: 0,
            tdt_timeout: 0,
            splice_count_errors: 0,
            last_splice_value: None,
            last_pat_seen: None,
            last_pmt_seen: PidMap::new(),
            last_cc: PidMap::new(),
            pat_versions: U16Map::new(),
            pmt_versions: PidMap::new(),
            last_pcr_info: PidMap::new(),
            bytes_in_window: 0,
            null_bytes_in_window: 0,
            last_rate_check: None,
            last_cat_seen: None,
            last_nit_seen: None,
            last_sdt_seen: None,
            last_eit_seen: None,
            last_tdt_seen: None,
            startup_ms: now_ms,
            pat_timeout_state: false,
            pmt_timeout_state: PidMap::new(),
            cat_timeout_state: false,
            nit_timeout_state: false,
            sdt_timeout_state: false,
            eit_timeout_state: false,
            tdt_timeout_state: false,
            known_pids: PidMap::new(),
            last_pts_per_pid: PidMap::new(),
            sync_loss_counter: 0,
        }
    }

    /// An exact copy of the engine: counters and internal state.
    pub fn duplicate(&self) -> (r: Tr101Metrics)
        requires
            self.wf(),
        ensures
            r.wf(),
            Self::state_eq(&r, self),
    {
        let r = Tr101Metrics {
            sync_byte_errors: self.sync_byte_errors,
            ts_sync_loss: self.ts_sync_loss,
            transport_error_indicator: self.transport_error_indicator,
            pat_crc_errors: self.pat_crc_errors,
            pat_timeout: self.pat_timeout,
            continuity_counter_errors: self.continuity_counter_errors,
            pmt_crc_errors: self.pmt_crc_errors,
            pmt_timeout: self.pmt_timeout,
            pid_errors: self.pid_errors,
            pcr_repetition_errors: self.pcr_repetition_errors,
            pcr_accuracy_errors: self.pcr_accuracy_errors,
            null_packet_rate_errors: self.null_packet_rate_errors,
            cat_crc_errors: self.cat_crc_errors,
            cat_timeout: self.cat_timeout,
            pat_version_changes: self.pat_version_changes,
            pmt_version_changes: self.pmt_version_changes,
            pts_errors: self.pts_errors,
            service_id_mismatch: self.service_id_mismatch,
            nit_crc_errors: self.nit_crc_errors,
            nit_timeout: self.nit_timeout,
            sdt_crc_errors: self.sdt_crc_errors,
            sdt_timeout: self.sdt_timeout,
            eit_crc_errors: self.eit_crc_errors,
            eit_timeout: self.eit_timeout,
            tdt_timeout: self.tdt_timeout,
            splice_count_errors: self.splice_count_errors,
            last_splice_value: self.last_splice_value,
            last_pat_seen: self.last_pat_seen,
            last_pmt_seen: self.last_pmt_seen.duplicate(),
            last_cc: self.last_cc.duplicate(),
            pat_versions: self.pat_versions.duplicate(),
            pmt_versions: self.pmt_versions.duplicate(),
            last_pcr_info: self.last_pcr_info.duplicate(),
            bytes_in_window: self.bytes_in_window,
            null_bytes_in_window: self.null_bytes_in_window,
            last_rate_check: self.last_rate_check,
            last_cat_seen: self.last_cat_seen,
            last_nit_seen: self.last_nit_seen,
            last_sdt_seen: self.last_sdt_seen,
            last_eit_seen: self.last_eit_seen,
            last_tdt_seen: self.last_tdt_seen,
            startup_ms: self.startup_ms,
            pat_timeout_state: self.pat_timeout_state,
            pmt_timeout_state: self.pmt_timeout_state.duplicate(),
            cat_timeout_state: self.cat_timeout_state,
            nit_timeout_state: self.nit_timeout_state,
            sdt_timeout_state: self.sdt_timeout_state,
            eit_timeout_state: self.eit_timeout_state,
            tdt_timeout_state: self.tdt_timeout_state,
            known_pids: self.known_pids.duplicate(),
            last_pts_per_pid: self.last_pts_per_pid.duplicate(),
            sync_loss_counter: self.sync_loss_counter,
        };
        r
    }

    /// Internal (non-counter) state equality, as kept by the priority
    /// filters.
    pub open spec fn internal_state_eq(a: &Tr101Metrics, b: &Tr101Metrics) -> bool {
        &&& a.last_splice_value == b.last_splice_value
        &&& a.last_pat_seen == b.last_pat_seen
        &&& a.last_pmt_seen@ == b.last_pmt_seen@
        &&& a.last_cc@ == b.last_cc@
        &&& a.pat_versions@ == b.pat_versions@
        &&& a.pat_versions.pairs() == b.pat_versions.pairs()
        &&& a.pmt_versions@ == b.pmt_versions@
        &&& a.last_pcr_info@ == b.last_pcr_info@
        &&& a.bytes_in_window == b.bytes_in_window
        &&& a.null_bytes_in_window == b.null_bytes_in_window
        &&& a.last_rate_check == b.last_rate_check
        &&& a.last_cat_seen == b.last_cat_seen
        &&& a.last_nit_seen == b.last_nit_seen
        &&& a.last_sdt_seen == b.last_sdt_seen
        &&& a.last_eit_seen == b.last_eit_seen
        &&& a.last_tdt_seen == b.last_tdt_seen
        &&& a.startup_ms == b.startup_ms
        &&& a.pat_timeout_state == b.pat_timeout_state
        &&& a.pmt_timeout_state@ == b.pmt_timeout_state@
        &&& a.cat_timeout_state == b.cat_timeout_state
        &&& a.nit_timeout_state == b.nit_timeout_state
        &&& a.sdt_timeout_state == b.sdt_timeout_state
        &&& a.eit_timeout_state == b.eit_timeout_state
        &&& a.tdt_timeout_state == b.tdt_timeout_state
        &&& a.known_pids@ == b.known_pids@
        &&& a.last_pts_per_pid@ == b.last_pts_per_pid@
        &&& a.sync_loss_counter == b.sync_loss_counter
    }

    /// A view of the engine with only the Priority 1 counters: every
    /// Priority 2 and 3 counter reads zero; internal state is kept.
    pub fn priority_1_only(&self) -> (r: Tr101Metrics)
        requires
            self.wf(),
        ensures
            r.wf(),
            Self::internal_state_eq(&r, self),
            r.sync_byte_errors == self.sync_byte_errors,
            r.ts_sync_loss == self.ts_sync_loss,
            r.transport_error_indicator == self.transport_error_indicator,
            r.pat_crc_errors == self.pat_crc_errors,
            r.pat_timeout == self.pat_timeout,
            r.continuity_counter_errors == self.continuity_counter_errors,
            r.pmt_crc_errors == self.pmt_crc_errors,
            r.pmt_timeout == self.pmt_timeout,
            r.pid_errors == self.pid_errors,
            r.pcr_repetition_errors == 0 && r.pcr_accuracy_errors == 0,
            r.null_packet_rate_errors == 0 && r.cat_crc_errors == 0 && r.cat_timeout == 0,
            r.pat_version_changes == 0 && r.pmt_version_changes == 0 && r.pts_errors == 0,
            r.service_id_mismatch == 0 && r.nit_crc_errors == 0 && r.nit_timeout == 0,
            r.sdt_crc_errors == 0 && r.sdt_timeout == 0 && r.eit_crc_errors == 0,
            r.eit_timeout == 0 && r.tdt_timeout == 0 && r.splice_count_errors == 0,
    {
        let mut r = self.duplicate();
        r.pcr_repetition_errors = 0;
        r.pcr_accuracy_errors = 0;
        r.null_packet_rate_errors = 0;
        r.cat_crc_errors = 0;
        r.cat_timeout = 0;
        r.pat_version_changes = 0;
        r.pmt_version_changes = 0;
        r.pts_errors = 0;
        r.service_id_mismatch = 0;
        r.nit_crc_errors = 0;
        r.nit_timeout = 0;
        r.sdt_crc_errors = 0;
        r.sdt_timeout = 0;
        r.eit_crc_errors = 0;
        r.eit_timeout = 0;
        r.tdt_timeout = 0;
        r.splice_count_errors = 0;
        r
    }

    /// A view of the engine with the Priority 1 and 2 counters: every
    /// Priority 3 counter reads zero; internal state is kept.
    pub fn priority_1_and_2_only(&self) -> (r: Tr101Metrics)
        requires
            self.wf(),
        ensures
            r.wf(),
            Self::internal_state_eq(&r, self),
            r.sync_byte_errors == self.sync_byte_errors,
            r.ts_sync_loss == self.ts_sync_loss,
            r.transport_error_indicator == self.transport_error_indicator,
            r.pat_crc_errors == self.pat_crc_errors,
            r.pat_timeout == self.pat_timeout,
            r.continuity_counter_errors == self.continuity_counter_errors,
            r.pmt_crc_errors == self.pmt_crc_errors,
            r.pmt_timeout == self.pmt_timeout,
            r.pid_errors == self.pid_errors,
            r.pcr_repetition_errors == self.pcr_repetition_errors,
            r.pcr_accuracy_errors == self.pcr_accuracy_errors,
            r.null_packet_rate_errors == self.null_packet_rate_errors,
            r.cat_crc_errors == self.cat_crc_errors,
            r.cat_timeout == self.cat_timeout,
            r.pat_version_changes == self.pat_version_changes,
            r.pmt_version_changes == self.pmt_version_changes,
            r.pts_errors == self.pts_errors,
            r.service_id_mismatch == 0 && r.nit_crc_errors == 0 && r.nit_timeout == 0,
            r.sdt_crc_errors == 0 && r.sdt_timeout == 0 && r.eit_crc_errors == 0,
            r.eit_timeout == 0 && r.tdt_timeout == 0 && r.splice_count_errors == 0,
    {
        let mut r = self.duplicate();
        r.service_id_mismatch = 0;
        r.nit_crc_errors = 0;
        r.nit_timeout = 0;
        r.sdt_crc_errors = 0;
        r.sdt_timeout = 0;
        r.eit_crc_errors = 0;
        r.eit_timeout = 0;
        r.tdt_timeout = 0;
        r.splice_count_errors = 0;
        r
    }

    /// Tracks the run of packets without a valid sync byte; the run
    /// reaching the threshold counts one TS sync loss (Priority 1).
    pub fn check_ts_sync_loss(&mut self, sync_byte_valid: bool, priority_level: AnalysisMode)
        requires
            old(self).wf(),
        ensures
            final(self).wf(),
            Self::counters_monotone(old(self), final(self)),
            !mode_p1(priority_level) ==> *final(self) == *old(self),
            mode_p1(priority_level) && sync_byte_valid ==> (*final(self) == (Tr101Metrics {
                sync_loss_counter: 0,
                ..*old(self)
            })),
            mode_p1(priority_level) && !sync_byte_valid ==> {
                &&& final(self).sync_loss_counter == old(self).sync_loss_counter.saturating_add(1)
                &&& final(self).ts_sync_loss == old(self).ts_sync_loss.saturating_add(
                    if old(self).sync_loss_counter.saturating_add(1) == SYNC_LOSS_THRESHOLD {
                        1
                    } else {
                        0
                    },
                )
                &&& (*final(self) == (Tr101Metrics {
                    sync_loss_counter: final(self).sync_loss_counter,
                    ts_sync_loss: final(self).ts_sync_loss,
                    ..*old(self)
                }))
            },
    {
        if !mode_is_p1(priority_level) {
            return ;
        }
        if sync_byte_valid {
            self.sync_loss_counter = 0;
        } else {
            self.sync_loss_counter = self.sync_loss_counter.saturating_add(1);
            if self.sync_loss_counter == SYNC_LOSS_THRESHOLD {
                self.ts_sync_loss = self.ts_sync_loss.saturating_add(1);
            }
        }
    }

    /// Counts a PAT version change (Priority 2) and stores the new version.
    /// Returns whether a change was counted.
    pub fn check_pat_version_change(
        &mut self,
        program_number: u16,
        new_version: u8,
        priority_level: AnalysisMode,
    ) -> (r: bool)
        requires
            old(self).wf(),
        ensures
            final(self).wf(),
            Self::counters_monotone(old(self), final(self)),
            !mode_p2(priority_level) ==> *final(self) == *old(self) && r == false,
            mode_p2(priority_level) ==> {
                &&& r == (old(self).pat_versions@.contains_key(program_number) && old(self).pat_versions@[program_number] != new_version)
                &&& final(self).pat_versions@ == old(self).pat_versions@.insert(
                    program_number,
                    new_version,
                )
                &&& final(self).pat_version_changes == old(self).pat_version_changes.saturating_add(
                    if r {
                        1
                    } else {
                        0
                    },
                )
                &&& (*final(self) == (Tr101Metrics {
                    pat_versions: final(self).pat_versions,
                    pat_version_changes: final(self).pat_version_changes,
                    ..*old(self)
                }))
            },
    {
        if !mode_is_p2(priority_level) {
            return false;
        }
        let changed: bool = match self.pat_versions.get(program_number) {
            Some(old_version) => *old_version != new_version,
            None => false,
        };
        if changed {
            self.pat_version_changes = self.pat_version_changes.saturating_add(1);
        }
        let ghost pre = self.pat_versions@;
        self.pat_versions.insert(program_number, new_version);
        proof {
            if !changed && pre.contains_key(program_number) {
                assert(self.pat_versions@ =~= pre.insert(program_number, new_version));
            }
        }
        changed
    }

    /// Counts a PMT version change (Priority 2) and stores the new version.
    pub fn check_pmt_version_change(
        &mut self,
        pmt_pid: u16,
        new_version: u8,
        priority_level: AnalysisMode,
    ) -> (r: bool)
        requires
            old(self).wf(),
            pmt_pid < PID_LIMIT,
        ensures
            final(self).wf(),
            Self::counters_monotone(old(self), final(self)),
            !mode_p2(priority_level) ==> *final(self) == *old(self) && r == false,
            mode_p2(priority_level) ==> {
                &&& r == (old(self).pmt_versions@.contains_key(pmt_pid) && old(self).pmt_versions@[pmt_pid] != new_version)
                &&& final(self).pmt_versions@ == old(self).pmt_versions@.insert(
                    pmt_pid,
                    new_version,
                )
                &&& final(self).pmt_version_changes == old(self).pmt_version_changes.saturating_add(
                    if r {
                        1
                    } else {
                        0
                    },
                )
                &&& (*final(self) == (Tr101Metrics {
                    pmt_versions: final(self).pmt_versions,
                    pmt_version_changes: final(self).pmt_version_changes,
                    ..*old(self)
                }))
            },
    {
        if !mode_is_p2(priority_level) {
            return false;
        }
        let changed: bool = match self.pmt_versions.get(pmt_pid) {
            Some(old_version) => *old_version != new_version,
            None => false,
        };
        if changed {
            self.pmt_version_changes = self.pmt_version_changes.saturating_add(1);
        }
        let ghost pre = self.pmt_versions@;
        self.pmt_versions.insert(pmt_pid, new_version);
        proof {
            if !changed && pre.contains_key(pmt_pid) {
                assert(self.pmt_versions@ =~= pre.insert(pmt_pid, new_version));
            }
        }
        changed
    }

    /// Flags PIDs in the reserved range 0x0002..=0x000F and PIDs above
    /// 0x1FFE (Priority 1). System PIDs, the null PID and PIDs declared by
    /// a PMT are never flagged.
    pub fn check_pid_error(&mut self, pid: u16, priority_level: AnalysisMode)
        requires
            old(self).wf(),
            pid < PID_LIMIT,
        ensures
            final(self).wf(),
            Self::counters_monotone(old(self), final(self)),
            !mode_p1(priority_level) ==> *final(self) == *old(self),
            mode_p1(priority_level) && is_system_pid(pid) ==> (*final(self) == (Tr101Metrics {
                known_pids: final(self).known_pids,
                ..*old(self)
            })) && final(self).known_pids@ == old(self).known_pids@.insert(pid, true),
            mode_p1(priority_level) && !is_system_pid(pid) ==> {
                &&& final(self).pid_errors == old(self).pid_errors.saturating_add(
                    if !old(self).known_pids@.contains_key(pid) && 0x0002 <= pid <= 0x000F {
                        1
                    } else {
                        0
                    },
                )
                &&& (*final(self) == (Tr101Metrics {
                    pid_errors: final(self).pid_errors,
                    ..*old(self)
                }))
            },
    {
        if !mode_is_p1(priority_level) {
            return ;
        }
        if system_pid(pid) {
            self.known_pids.insert(pid, true);
            return ;
        }
        if pid == NULL_PID {
            return ;
        }
        if self.known_pids.contains(pid) {
            return ;
        }
        if 0x0002 <= pid && pid <= 0x000F {
            self.pid_errors = self.pid_errors.saturating_add(1);
            return ;
        }
        if pid > 0x1FFE {
            self.pid_errors = self.pid_errors.saturating_add(1);
        }
    }

    /// Registers a PID declared by a PMT as known.
    pub fn register_known_pid(&mut self, pid: u16)
        requires
            old(self).wf(),
            pid < PID_LIMIT,
        ensures
            final(self).wf(),
            Self::counters_monotone(old(self), final(self)),
            final(self).known_pids@ == old(self).known_pids@.insert(pid, true),
            (*final(self) == (Tr101Metrics { known_pids: final(self).known_pids, ..*old(self) })),
    {
        self.known_pids.insert(pid, true);
    }

    /// Polls every sighted PMT's timeout predicate and counts the PMTs
    /// whose predicate just turned true (Priority 1, edge-triggered). When
    /// every sighted PMT is fresh, the counter does not move.
    fn pmt_timeouts_tick(&mut self, now_ms: u64)
        requires
            old(self).wf(),
        ensures
            final(self).wf(),
            Self::counters_monotone(old(self), final(self)),
            (*final(self) == (Tr101Metrics {
                pmt_timeout: final(self).pmt_timeout,
                pmt_timeout_state: final(self).pmt_timeout_state,
                ..*old(self)
            })),
            (forall|p: u16|
                old(self).last_pmt_seen@.contains_key(p) ==> !table_timed_out(
                    Some(old(self).last_pmt_seen@[p]),
                    old(self).startup_ms,
                    now_ms,
                    PMT_TIMEOUT_MS,
                )) ==> final(self).pmt_timeout == old(self).pmt_timeout,
    {
        let ghost seen = self.last_pmt_seen@;
        let ghost c0 = self.pmt_timeout;
        let mut pid: usize = 0;
        while pid < PID_LIMIT
            invariant
                self.wf(),
                pid <= PID_LIMIT,
                seen == old(self).last_pmt_seen@,
                c0 == old(self).pmt_timeout,
                (*self == (Tr101Metrics {
                    pmt_timeout: self.pmt_timeout,
                    pmt_timeout_state: self.pmt_timeout_state,
                    ..*old(self)
                })),
                c0 <= self.pmt_timeout,
                (forall|p: u16|
                    seen.contains_key(p) ==> !table_timed_out(
                        Some(seen[p]),
                        old(self).startup_ms,
                        now_ms,
                        PMT_TIMEOUT_MS,
                    )) ==> self.pmt_timeout == c0,
            decreases PID_LIMIT - pid,
        {
            let p = pid as u16;
            match self.last_pmt_seen.get_copy(p) {
                None => {},
                Some(t) => {
                    let is_to = now_ms.saturating_sub(t) > PMT_TIMEOUT_MS;
                    let was = match self.pmt_timeout_state.get_copy(p) {
                        Some(b) => b,
                        None => false,
                    };
                    if is_to && !was {
                        self.pmt_timeout = self.pmt_timeout.saturating_add(1);
                        proof {
                            assert(seen.contains_key(p) && table_timed_out(
                                Some(seen[p]),
                                old(self).startup_ms,
                                now_ms,
                                PMT_TIMEOUT_MS,
                            ));
                        }
                    }
                    self.pmt_timeout_state.insert(p, is_to);
                },
            }
            pid += 1;
        }
    }

    /// Records one PCR of a PID (Priority 2): a wall-clock gap beyond the
    /// repetition window counts a repetition error; a tick advance that
    /// disagrees with the wall clock counts an accuracy error. The PCR and
    /// its arrival time are stored.
    fn pcr_tick(&mut self, pid: u16, base: u64, ext: u16, now_ms: u64)
        requires
            old(self).wf(),
            pid < PID_LIMIT,
            !pcr_malformed(base, ext),
        ensures
            final(self).wf(),
            Self::counters_monotone(old(self), final(self)),
            (*final(self) == (Tr101Metrics {
                pcr_repetition_errors: final(self).pcr_repetition_errors,
                pcr_accuracy_errors: final(self).pcr_accuracy_errors,
                last_pcr_info: final(self).last_pcr_info,
                ..*old(self)
            })),
            final(self).last_pcr_info@ == old(self).last_pcr_info@.insert(
                pid,
                ((base * 300 + ext) as u64, now_ms),
            ),
            final(self).pcr_repetition_errors == old(self).pcr_repetition_errors.saturating_add(
                pcr_rep_delta(old(self).last_pcr_info@, pid, now_ms),
            ),
            final(self).pcr_accuracy_errors == old(self).pcr_accuracy_errors.saturating_add(
                pcr_acc_delta(old(self).last_pcr_info@, pid, (base * 300 + ext) as u64, now_ms),
            ),
    {
        let ticks: u64 = base * 300 + ext as u64;
        match self.last_pcr_info.get_copy(pid) {
            None => {},
            Some((prev_ticks, prev_time)) => {
                let wall = now_ms.saturating_sub(prev_time);
                if wall > PCR_REPETITION_MS {
                    self.pcr_repetition_errors = self.pcr_repetition_errors.saturating_add(1);
                }
                let ticks_delta: u64 = if ticks >= prev_ticks {
                    ticks - prev_ticks
                } else {
                    (crate::constants::PCR_WRAP_TICKS - prev_ticks) + ticks
                };
                if 100 <= wall && wall <= 1000 {
                    let expected: u64 = wall * PCR_TICKS_PER_MS;
                    if ticks_delta < 2 * expected {
                        let error: u64 = if ticks_delta > expected {
                            ticks_delta - expected
                        } else {
                            expected - ticks_delta
                        };
                        if error > PCR_ACCURACY_TICKS && error * 10000 > expected {
                            self.pcr_accuracy_errors = self.pcr_accuracy_errors.saturating_add(1);
                        }
                    }
                }
            },
        }
        self.last_pcr_info.insert(pid, (ticks, now_ms));
    }

    /// Accounts one packet's bytes in the one-second window and, when a
    /// window closes, counts a null-rate error if null bytes exceeded the
    /// threshold share (Priority 2).
    fn rate_tick(&mut self, pid: u16, level: AnalysisMode, now_ms: u64)
        requires
            old(self).wf(),
        ensures
            final(self).wf(),
            Self::counters_monotone(old(self), final(self)),
            (*final(self) == (Tr101Metrics {
                bytes_in_window: final(self).bytes_in_window,
                null_bytes_in_window: final(self).null_bytes_in_window,
                last_rate_check: final(self).last_rate_check,
                null_packet_rate_errors: final(self).null_packet_rate_errors,
                ..*old(self)
            })),
            ({
                let total = old(self).bytes_in_window.saturating_add(TS_PACKET_SIZE as u64);
                let nulls = if pid == NULL_PID {
                    old(self).null_bytes_in_window.saturating_add(TS_PACKET_SIZE as u64)
                } else {
                    old(self).null_bytes_in_window
                };
                match old(self).last_rate_check {
                    None => {
                        &&& final(self).bytes_in_window == total
                        &&& final(self).null_bytes_in_window == nulls
                        &&& final(self).last_rate_check == Some(now_ms)
                        &&& final(self).null_packet_rate_errors == old(self).null_packet_rate_errors
                    },
                    Some(t) => {
                        if now_ms.saturating_sub(t) >= 1000 {
                            &&& final(self).bytes_in_window == 0
                            &&& final(self).null_bytes_in_window == 0
                            &&& final(self).last_rate_check == Some(now_ms)
                            &&& final(self).null_packet_rate_errors == old(self).null_packet_rate_errors.saturating_add(
                                if total > 0 && mode_p2(level) && nulls * NULL_RATE_DEN > total
                                    * NULL_RATE_NUM {
                                    1
                                } else {
                                    0
                                },
                            )
                        } else {
                            &&& final(self).bytes_in_window == total
                            &&& final(self).null_bytes_in_window == nulls
                            &&& final(self).last_rate_check == old(self).last_rate_check
                            &&& final(self).null_packet_rate_errors == old(self).null_packet_rate_errors
                        }
                    },
                }
            }),
    {
        self.bytes_in_window = self.bytes_in_window.saturating_add(TS_PACKET_SIZE as u64);
        if pid == NULL_PID {
            self.null_bytes_in_window = self.null_bytes_in_window.saturating_add(
                TS_PACKET_SIZE as u64,
            );
        }
        match self.last_rate_check {
            None => {
                self.last_rate_check = Some(now_ms);
            },
            Some(t) => {
                if now_ms.saturating_sub(t) >= 1000 {
                    let total = self.bytes_in_window;
                    let nulls = self.null_bytes_in_window;
                    let mut hit = false;
                    if total > 0 {
                        if mode_is_p2(level) && (nulls as u128) * (NULL_RATE_DEN as u128) > (
                        total as u128) * (NULL_RATE_NUM as u128) {
                            hit = true;
                        }
                    }
                    if hit {
                        self.null_packet_rate_errors = self.null_packet_rate_errors.saturating_add(
                            1,
                        );
                    }
                    self.bytes_in_window = 0;
                    self.null_bytes_in_window = 0;
                    self.last_rate_check = Some(now_ms);
                }
            },
        }
    }

    /// Checks one PTS of a PID against the previous one (Priority 2): a
    /// backward step short of the wrap threshold, or a forward jump of more
    /// than a minute, is a PTS error. The new PTS is stored either way.
    pub fn check_pts_error(&mut self, pid: u16, pts: u64, priority_level: AnalysisMode)
        requires
            old(self).wf(),
            pid < PID_LIMIT,
        ensures
            final(self).wf(),
            Self::counters_monotone(old(self), final(self)),
            !mode_p2(priority_level) ==> *final(self) == *old(self),
            mode_p2(priority_level) ==> {
                &&& final(self).pts_errors == old(self).pts_errors.saturating_add(
                    if old(self).last_pts_per_pid@.contains_key(pid) && pts_discontinuity(
                        old(self).last_pts_per_pid@[pid],
                        pts,
                    ) {
                        1
                    } else {
                        0
                    },
                )
                &&& final(self).last_pts_per_pid@ == old(self).last_pts_per_pid@.insert(pid, pts)
                &&& (*final(self) == (Tr101Metrics {
                    pts_errors: final(self).pts_errors,
                    last_pts_per_pid: final(self).last_pts_per_pid,
                    ..*old(self)
                }))
            },
    {
        if !mode_is_p2(priority_level) {
            return ;
        }
        match self.last_pts_per_pid.get_copy(pid) {
            Some(last_pts) => {
                if pts < last_pts {
                    if last_pts - pts < PTS_WRAP_THRESHOLD / 2 {
                        self.pts_errors = self.pts_errors.saturating_add(1);
                    }
                } else {
                    if pts - last_pts > MAX_PTS_JUMP {
                        self.pts_errors = self.pts_errors.saturating_add(1);
                    }
                }
            },
            None => {},
        }
        self.last_pts_per_pid.insert(pid, pts);
    }

    /// The transport-error-indicator and continuity bookkeeping.
    #[verifier::rlimit(100)]
    #[verifier::spinoff_prover]
    fn cc_tei_tick(&mut self, pid: u16, tei: bool, cc: u8, afc: u8)
        requires
            old(self).wf(),
            pid < PID_LIMIT,
        ensures
            final(self).wf(),
            Self::counters_monotone(old(self), final(self)),
            final(self).transport_error_indicator == old(self).transport_error_indicator.saturating_add(
                if tei {
                    1
                } else {
                    0
                },
            ),
            pid != NULL_PID ==> final(self).last_cc@ == old(self).last_cc@.insert(pid, cc),
            pid != NULL_PID ==> final(self).continuity_counter_errors == old(self).continuity_counter_errors.saturating_add(
                if cc_error(old(self).last_cc@, pid, cc, afc) {
                    1
                } else {
                    0
                },
            ),
            pid == NULL_PID ==> final(self).last_cc@ == old(self).last_cc@ && final(self).continuity_counter_errors == old(self).continuity_counter_errors,
            (*final(self) == (Tr101Metrics {
                transport_error_indicator: final(self).transport_error_indicator,
                last_cc: final(self).last_cc,
                continuity_counter_errors: final(self).continuity_counter_errors,
                ..*old(self)
            })),
    {
        if tei {
            self.transport_error_indicator = self.transport_error_indicator.saturating_add(1);
        }

        if pid != NULL_PID {
            match self.last_cc.get_copy(pid) {
                Some(prev) => {
                    if afc != 2 {
                        if ((prev as u16 + 1) % 16) as u8 != cc {
                            self.continuity_counter_errors =
                                self.continuity_counter_errors.saturating_add(1);
                        }
                    }
                },
                None => {},
            }
            self.last_cc.insert(pid, cc);
        }
    }

    /// The PAT/PMT/CAT sighting and CRC bookkeeping: a CRC-validated
    /// arrival refreshes the table's latch; a CRC failure counts.
    #[verifier::rlimit(100)]
    #[verifier::spinoff_prover]
    fn fast_crc_tick(
        &mut self,
        pid: u16,
        pat_pid: u16,
        level: AnalysisMode,
        crc_validation: &CrcValidation,
        now_ms: u64,
    )
        requires
            old(self).wf(),
            pid < PID_LIMIT,
        ensures
            final(self).wf(),
            Self::counters_monotone(old(self), final(self)),
            final(self).pat_crc_errors == old(self).pat_crc_errors.saturating_add(
                if pid == pat_pid && crc_validation.pat_crc_ok == Some(false) {
                    1
                } else {
                    0
                },
            ),
            final(self).last_pat_seen == seen_after(
                old(self).last_pat_seen,
                pid == pat_pid && crc_validation.pat_crc_ok == Some(true),
                now_ms,
            ),
            final(self).pmt_crc_errors == old(self).pmt_crc_errors.saturating_add(
                if pid != pat_pid && crc_validation.pmt_crc_ok == Some(false) {
                    1
                } else {
                    0
                },
            ),
            (pid != pat_pid && crc_validation.pmt_crc_ok == Some(true)) ==> final(self).last_pmt_seen@ == old(self).last_pmt_seen@.insert(pid, now_ms),
            !(pid != pat_pid && crc_validation.pmt_crc_ok == Some(true)) ==> final(self).last_pmt_seen@ == old(self).last_pmt_seen@,
            final(self).cat_crc_errors == old(self).cat_crc_errors.saturating_add(
                if mode_p2(level) && pid == 0x0001 && crc_validation.cat_crc_ok == Some(false) {
                    1
                } else {
                    0
                },
            ),
            final(self).last_cat_seen == seen_after(
                old(self).last_cat_seen,
                mode_p2(level) && pid == 0x0001 && crc_validation.cat_crc_ok == Some(true),
                now_ms,
            ),
            (*final(self) == (Tr101Metrics {
                pat_crc_errors: final(self).pat_crc_errors,
                last_pat_seen: final(self).last_pat_seen,
                pmt_crc_errors: final(self).pmt_crc_errors,
                last_pmt_seen: final(self).last_pmt_seen,
                cat_crc_errors: final(self).cat_crc_errors,
                last_cat_seen: final(self).last_cat_seen,
                ..*old(self)
            })),
    {
        if pid == pat_pid {
            match crc_validation.pat_crc_ok {
                Some(ok) => {
                    if ok {
                        // only a CRC-validated arrival refreshes the latch
                        self.last_pat_seen = Some(now_ms);
                    } else {
                        self.pat_crc_errors = self.pat_crc_errors.saturating_add(1);
                    }
                },
                None => {},
            }
        } else {
            match crc_validation.pmt_crc_ok {
                Some(ok) => {
                    if ok {
                        self.last_pmt_seen.insert(pid, now_ms);
                    } else {
                        self.pmt_crc_errors = self.pmt_crc_errors.saturating_add(1);
                    }
                },
                None => {},
            }
        }

        if mode_is_p2(level) && pid == 0x0001 {
            match crc_validation.cat_crc_ok {
                Some(ok) => {
                    if ok {
                        self.last_cat_seen = Some(now_ms);
                    } else {
                        self.cat_crc_errors = self.cat_crc_errors.saturating_add(1);
                    }
                },
                None => {},
            }
        }
    }

    /// The fast-table bookkeeping: PAT/PMT/CAT sightings with their CRC
    /// outcomes, and the edge-triggered fast-table timeout latches.
    #[verifier::rlimit(100)]
    #[verifier::spinoff_prover]
    fn fast_tables_tick(
        &mut self,
        pid: u16,
        pat_pid: u16,
        level: AnalysisMode,
        crc_validation: &CrcValidation,
        now_ms: u64,
    )
        requires
            old(self).wf(),
            pid < PID_LIMIT,
        ensures
            final(self).wf(),
            Self::counters_monotone(old(self), final(self)),
            final(self).pat_crc_errors == old(self).pat_crc_errors.saturating_add(
                if pid == pat_pid && crc_validation.pat_crc_ok == Some(false) {
                    1
                } else {
                    0
                },
            ),
            final(self).last_pat_seen == seen_after(
                old(self).last_pat_seen,
                pid == pat_pid && crc_validation.pat_crc_ok == Some(true),
                now_ms,
            ),
            final(self).pmt_crc_errors == old(self).pmt_crc_errors.saturating_add(
                if pid != pat_pid && crc_validation.pmt_crc_ok == Some(false) {
                    1
                } else {
                    0
                },
            ),
            (pid != pat_pid && crc_validation.pmt_crc_ok == Some(true)) ==> final(self).last_pmt_seen@ == old(self).last_pmt_seen@.insert(pid, now_ms),
            !(pid != pat_pid && crc_validation.pmt_crc_ok == Some(true)) ==> final(self).last_pmt_seen@ == old(self).last_pmt_seen@,
            final(self).cat_crc_errors == old(self).cat_crc_errors.saturating_add(
                if mode_p2(level) && pid == 0x0001 && crc_validation.cat_crc_ok == Some(false) {
                    1
                } else {
                    0
                },
            ),
            final(self).last_cat_seen == seen_after(
                old(self).last_cat_seen,
                mode_p2(level) && pid == 0x0001 && crc_validation.cat_crc_ok == Some(true),
                now_ms,
            ),
            ({
                let pat_to = table_timed_out(
                    seen_after(
                        old(self).last_pat_seen,
                        pid == pat_pid && crc_validation.pat_crc_ok == Some(true),
                        now_ms,
                    ),
                    old(self).startup_ms,
                    now_ms,
                    PAT_TIMEOUT_MS,
                );
                final(self).pat_timeout == old(self).pat_timeout.saturating_add(
                    timeout_edge(old(self).pat_timeout_state, pat_to),
                ) && final(self).pat_timeout_state == pat_to
            }),
            (forall|p: u16|
                final(self).last_pmt_seen@.contains_key(p) ==> !table_timed_out(
                    Some(final(self).last_pmt_seen@[p]),
                    old(self).startup_ms,
                    now_ms,
                    PMT_TIMEOUT_MS,
                )) ==> final(self).pmt_timeout == old(self).pmt_timeout,
            mode_p2(level) ==> ({
                let cat_to = table_timed_out(
                    seen_after(
                        old(self).last_cat_seen,
                        mode_p2(level) && pid == 0x0001 && crc_validation.cat_crc_ok == Some(
                            true,
                        ),
                        now_ms,
                    ),
                    old(self).startup_ms,
                    now_ms,
                    CAT_TIMEOUT_MS,
                );
                final(self).cat_timeout == old(self).cat_timeout.saturating_add(
                    timeout_edge(old(self).cat_timeout_state, cat_to),
                ) && final(self).cat_timeout_state == cat_to
            }),
            !mode_p2(level) ==> final(self).cat_timeout == old(self).cat_timeout && final(self).cat_timeout_state == old(self).cat_timeout_state,
            (*final(self) == (Tr101Metrics {
                pat_crc_errors: final(self).pat_crc_errors,
                last_pat_seen: final(self).last_pat_seen,
                pmt_crc_errors: final(self).pmt_crc_errors,
                last_pmt_seen: final(self).last_pmt_seen,
                cat_crc_errors: final(self).cat_crc_errors,
                last_cat_seen: final(self).last_cat_seen,
                pat_timeout: final(self).pat_timeout,
                pat_timeout_state: final(self).pat_timeout_state,
                pmt_timeout: final(self).pmt_timeout,
                pmt_timeout_state: final(self).pmt_timeout_state,
                cat_timeout: final(self).cat_timeout,
                cat_timeout_state: final(self).cat_timeout_state,
                ..*old(self)
            })),
    {
        self.fast_crc_tick(pid, pat_pid, level, crc_validation, now_ms);
        let p2 = mode_is_p2(level);

        let pat_to = match self.last_pat_seen {
            Some(t) => now_ms.saturating_sub(t) > PAT_TIMEOUT_MS,
            None => now_ms.saturating_sub(self.startup_ms) > PAT_TIMEOUT_MS,
        };
        if pat_to && !self.pat_timeout_state {
            self.pat_timeout = self.pat_timeout.saturating_add(1);
        }
        self.pat_timeout_state = pat_to;

        self.pmt_timeouts_tick(now_ms);

        if p2 {
            let cat_to = match self.last_cat_seen {
                Some(t) => now_ms.saturating_sub(t) > CAT_TIMEOUT_MS,
                None => now_ms.saturating_sub(self.startup_ms) > CAT_TIMEOUT_MS,
            };
            if cat_to && !self.cat_timeout_state {
                self.cat_timeout = self.cat_timeout.saturating_add(1);
            }
            self.cat_timeout_state = cat_to;
        }
    }

    /// The slow-table sightings in full-analysis mode: NIT/SDT/EIT CRC
    /// outcomes and sighting instants, and the TDT sighting.
    #[verifier::rlimit(100)]
    #[verifier::spinoff_prover]
    fn p3_sightings_tick(
        &mut self,
        pid: u16,
        level: AnalysisMode,
        table_id: u8,
        crc_validation: &CrcValidation,
        now_ms: u64,
    )
        requires
            old(self).wf(),
        ensures
            final(self).wf(),
            Self::counters_monotone(old(self), final(self)),
            final(self).nit_crc_errors == old(self).nit_crc_errors.saturating_add(
                if mode_p3(level) && pid == 0x0010 && crc_validation.nit_crc_ok == Some(false) {
                    1
                } else {
                    0
                },
            ),
            final(self).last_nit_seen == seen_after(
                old(self).last_nit_seen,
                mode_p3(level) && pid == 0x0010 && crc_validation.nit_crc_ok == Some(true),
                now_ms,
            ),
            final(self).sdt_crc_errors == old(self).sdt_crc_errors.saturating_add(
                if mode_p3(level) && pid == 0x0011 && crc_validation.sdt_crc_ok == Some(false) {
                    1
                } else {
                    0
                },
            ),
            final(self).last_sdt_seen == seen_after(
                old(self).last_sdt_seen,
                mode_p3(level) && pid == 0x0011 && crc_validation.sdt_crc_ok == Some(true),
                now_ms,
            ),
            final(self).eit_crc_errors == old(self).eit_crc_errors.saturating_add(
                if mode_p3(level) && pid == 0x0011 && crc_validation.eit_crc_ok == Some(false) {
                    1
                } else {
                    0
                },
            ),
            final(self).last_eit_seen == seen_after(
                old(self).last_eit_seen,
                mode_p3(level) && pid == 0x0011 && crc_validation.eit_crc_ok == Some(true),
                now_ms,
            ),
            final(self).last_tdt_seen == seen_after(
                old(self).last_tdt_seen,
                mode_p3(level) && pid == 0x0014 && (table_id == 0x70 || table_id == 0x73),
                now_ms,
            ),
            (*final(self) == (Tr101Metrics {
                nit_crc_errors: final(self).nit_crc_errors,
                last_nit_seen: final(self).last_nit_seen,
                sdt_crc_errors: final(self).sdt_crc_errors,
                last_sdt_seen: final(self).last_sdt_seen,
                eit_crc_errors: final(self).eit_crc_errors,
                last_eit_seen: final(self).last_eit_seen,
                last_tdt_seen: final(self).last_tdt_seen,
                ..*old(self)
            })),
    {
        if mode_is_p3(level) {
            if pid == 0x0010 {
                match crc_validation.nit_crc_ok {
                    Some(ok) => {
                        if ok {
                            // only a CRC-validated arrival refreshes the latch
                            self.last_nit_seen = Some(now_ms);
                        } else {
                            self.nit_crc_errors = self.nit_crc_errors.saturating_add(1);
                        }
                    },
                    None => {},
                }
            } else if pid == 0x0011 {
                match crc_validation.sdt_crc_ok {
                    Some(ok) => {
                        if ok {
                            self.last_sdt_seen = Some(now_ms);
                        } else {
                            self.sdt_crc_errors = self.sdt_crc_errors.saturating_add(1);
                        }
                    },
                    None => {},
                }
                match crc_validation.eit_crc_ok {
                    Some(ok) => {
                        if ok {
                            self.last_eit_seen = Some(now_ms);
                        } else {
                            self.eit_crc_errors = self.eit_crc_errors.saturating_add(1);
                        }
                    },
                    None => {},
                }
            } else if pid == 0x0014 {
                if table_id == 0x70 || table_id == 0x73 {
                    self.last_tdt_seen = Some(now_ms);
                }
            }
        }
    }

    /// The per-packet TR 101 290 dispatch: sync byte, transport error
    /// indicator, continuity, PAT/PMT/CAT sightings with their CRC
    /// outcomes, the fast-table timeout latches, PCR checks, the null-rate
    /// window and the slow-table sightings. A packet that is not 188 bytes
    /// long changes nothing; a packet without the sync byte counts one sync
    /// byte error and nothing else.
    #[verifier::rlimit(100)]
    #[verifier::spinoff_prover]
    pub fn on_packet_with_context(
        &mut self,
        packet_ctx: PacketContext,
        crc_validation: CrcValidation,
        now_ms: u64,
    )
        requires
            old(self).wf(),
            packet_ctx.pid < PID_LIMIT,
        ensures
            final(self).wf(),
            Self::counters_monotone(old(self), final(self)),
            packet_ctx.chunk@.len() != TS_PACKET_SIZE ==> *final(self) == *old(self),
            packet_ctx.chunk@.len() == TS_PACKET_SIZE && packet_ctx.chunk@[0] != TS_SYNC_BYTE
                ==> (*final(self) == (Tr101Metrics {
                sync_byte_errors: old(self).sync_byte_errors.saturating_add(1),
                ..*old(self)
            })),
            pkt_accepted(packet_ctx.chunk@) ==> final(self).sync_byte_errors == old(self).sync_byte_errors,
            pkt_accepted(packet_ctx.chunk@) ==> final(self).transport_error_indicator == old(self).transport_error_indicator.saturating_add(
                if pkt_tei(packet_ctx.chunk@) {
                    1
                } else {
                    0
                },
            ),
            pkt_accepted(packet_ctx.chunk@) && packet_ctx.pid != NULL_PID ==> final(self).last_cc@ == old(self).last_cc@.insert(packet_ctx.pid, pkt_cc(packet_ctx.chunk@)),
            pkt_accepted(packet_ctx.chunk@) && packet_ctx.pid != NULL_PID ==> final(self).continuity_counter_errors == old(self).continuity_counter_errors.saturating_add(
                if cc_error(
                    old(self).last_cc@,
                    packet_ctx.pid,
                    pkt_cc(packet_ctx.chunk@),
                    pkt_afc(packet_ctx.chunk@),
                ) {
                    1
                } else {
                    0
                },
            ),
            pkt_accepted(packet_ctx.chunk@) && packet_ctx.pid == NULL_PID ==> final(self).last_cc@ == old(self).last_cc@ && final(self).continuity_counter_errors == old(self).continuity_counter_errors,
            pkt_accepted(packet_ctx.chunk@) ==> final(self).pat_crc_errors == old(self).pat_crc_errors.saturating_add(
                if packet_ctx.pid == packet_ctx.pat_pid && crc_validation.pat_crc_ok == Some(
                    false,
                ) {
                    1
                } else {
                    0
                },
            ),
            pkt_accepted(packet_ctx.chunk@) ==> final(self).last_pat_seen == seen_after(
                old(self).last_pat_seen,
                packet_ctx.pid == packet_ctx.pat_pid && crc_validation.pat_crc_ok == Some(true),
                now_ms,
            ),
            pkt_accepted(packet_ctx.chunk@) ==> final(self).pmt_crc_errors == old(self).pmt_crc_errors.saturating_add(
                if packet_ctx.pid != packet_ctx.pat_pid && crc_validation.pmt_crc_ok == Some(
                    false,
                ) {
                    1
                } else {
                    0
                },
            ),
            pkt_accepted(packet_ctx.chunk@) && packet_ctx.pid != packet_ctx.pat_pid
                && crc_validation.pmt_crc_ok == Some(true) ==> final(self).last_pmt_seen@ == old(self).last_pmt_seen@.insert(packet_ctx.pid, now_ms),
            pkt_accepted(packet_ctx.chunk@) && !(packet_ctx.pid != packet_ctx.pat_pid
                && crc_validation.pmt_crc_ok == Some(true)) ==> final(self).last_pmt_seen@ == old(self).last_pmt_seen@,
            pkt_accepted(packet_ctx.chunk@) ==> final(self).cat_crc_errors == old(self).cat_crc_errors.saturating_add(
                if mode_p2(packet_ctx.priority_level) && packet_ctx.pid == 0x0001
                    && crc_validation.cat_crc_ok == Some(false) {
                    1
                } else {
                    0
                },
            ),
            pkt_accepted(packet_ctx.chunk@) ==> final(self).last_cat_seen == seen_after(
                old(self).last_cat_seen,
                mode_p2(packet_ctx.priority_level) && packet_ctx.pid == 0x0001
                    && crc_validation.cat_crc_ok == Some(true),
                now_ms,
            ),
            pkt_accepted(packet_ctx.chunk@) ==> ({
                let pat_to = table_timed_out(
                    seen_after(
                        old(self).last_pat_seen,
                        packet_ctx.pid == packet_ctx.pat_pid && crc_validation.pat_crc_ok
                            == Some(true),
                        now_ms,
                    ),
                    old(self).startup_ms,
                    now_ms,
                    PAT_TIMEOUT_MS,
                );
                final(self).pat_timeout == old(self).pat_timeout.saturating_add(
                    timeout_edge(old(self).pat_timeout_state, pat_to),
                ) && final(self).pat_timeout_state == pat_to
            }),
            pkt_accepted(packet_ctx.chunk@) ==> ((forall|p: u16|
                final(self).last_pmt_seen@.contains_key(p) ==> !table_timed_out(
                    Some(final(self).last_pmt_seen@[p]),
                    old(self).startup_ms,
                    now_ms,
                    PMT_TIMEOUT_MS,
                )) ==> final(self).pmt_timeout == old(self).pmt_timeout),
            pkt_accepted(packet_ctx.chunk@) && mode_p2(packet_ctx.priority_level) ==> ({
                let cat_to = table_timed_out(
                    seen_after(
                        old(self).last_cat_seen,
                        mode_p2(packet_ctx.priority_level) && packet_ctx.pid == 0x0001
                            && crc_validation.cat_crc_ok == Some(true),
                        now_ms,
                    ),
                    old(self).startup_ms,
                    now_ms,
                    CAT_TIMEOUT_MS,
                );
                final(self).cat_timeout == old(self).cat_timeout.saturating_add(
                    timeout_edge(old(self).cat_timeout_state, cat_to),
                ) && final(self).cat_timeout_state == cat_to
            }),
            pkt_accepted(packet_ctx.chunk@) && !mode_p2(packet_ctx.priority_level) ==> final(self).cat_timeout == old(self).cat_timeout && final(self).cat_timeout_state == old(self).cat_timeout_state,
            pkt_accepted(packet_ctx.chunk@) && (!mode_p2(packet_ctx.priority_level)
                || packet_ctx.pcr_opt is None || pcr_rejects(
                packet_ctx.priority_level,
                packet_ctx.pcr_opt,
            )) ==> final(self).pcr_repetition_errors == old(self).pcr_repetition_errors && final(self).pcr_accuracy_errors == old(self).pcr_accuracy_errors && final(self).last_pcr_info@
                == old(self).last_pcr_info@,
            pkt_accepted(packet_ctx.chunk@) && mode_p2(packet_ctx.priority_level) ==> (
            packet_ctx.pcr_opt matches Some((base, ext)) ==> (!pcr_malformed(base, ext) ==> final(self).last_pcr_info@ == old(self).last_pcr_info@.insert(
                packet_ctx.pid,
                ((base * 300 + ext) as u64, now_ms),
            ) && final(self).pcr_repetition_errors == old(self).pcr_repetition_errors.saturating_add(
                pcr_rep_delta(old(self).last_pcr_info@, packet_ctx.pid, now_ms),
            ) && final(self).pcr_accuracy_errors == old(self).pcr_accuracy_errors.saturating_add(
                pcr_acc_delta(
                    old(self).last_pcr_info@,
                    packet_ctx.pid,
                    (base * 300 + ext) as u64,
                    now_ms,
                ),
            ))),
            pkt_accepted(packet_ctx.chunk@) && pcr_rejects(
                packet_ctx.priority_level,
                packet_ctx.pcr_opt,
            ) ==> final(self).bytes_in_window == old(self).bytes_in_window && final(self).null_bytes_in_window == old(self).null_bytes_in_window && final(self).last_rate_check == old(self).last_rate_check && final(self).null_packet_rate_errors
                == old(self).null_packet_rate_errors,
            pkt_accepted(packet_ctx.chunk@) && !pcr_rejects(
                packet_ctx.priority_level,
                packet_ctx.pcr_opt,
            ) ==> ({
                let total = old(self).bytes_in_window.saturating_add(TS_PACKET_SIZE as u64);
                let nulls = if packet_ctx.pid == NULL_PID {
                    old(self).null_bytes_in_window.saturating_add(TS_PACKET_SIZE as u64)
                } else {
                    old(self).null_bytes_in_window
                };
                match old(self).last_rate_check {
                    None => {
                        &&& final(self).bytes_in_window == total
                        &&& final(self).null_bytes_in_window == nulls
                        &&& final(self).last_rate_check == Some(now_ms)
                        &&& final(self).null_packet_rate_errors == old(self).null_packet_rate_errors
                    },
                    Some(t) => {
                        if now_ms.saturating_sub(t) >= 1000 {
                            &&& final(self).bytes_in_window == 0
                            &&& final(self).null_bytes_in_window == 0
                            &&& final(self).last_rate_check == Some(now_ms)
                            &&& final(self).null_packet_rate_errors == old(self).null_packet_rate_errors.saturating_add(
                                if total > 0 && mode_p2(packet_ctx.priority_level) && nulls
                                    * NULL_RATE_DEN > total * NULL_RATE_NUM {
                                    1
                                } else {
                                    0
                                },
                            )
                        } else {
                            &&& final(self).bytes_in_window == total
                            &&& final(self).null_bytes_in_window == nulls
                            &&& final(self).last_rate_check == old(self).last_rate_check
                            &&& final(self).null_packet_rate_errors == old(self).null_packet_rate_errors
                        }
                    },
                }
            }),
            pkt_accepted(packet_ctx.chunk@) && !pcr_rejects(
                packet_ctx.priority_level,
                packet_ctx.pcr_opt,
            ) ==> final(self).nit_crc_errors == old(self).nit_crc_errors.saturating_add(
                if mode_p3(packet_ctx.priority_level) && packet_ctx.pid == 0x0010
                    && crc_validation.nit_crc_ok == Some(false) {
                    1
                } else {
                    0
                },
            ) && final(self).last_nit_seen == seen_after(
                old(self).last_nit_seen,
                mode_p3(packet_ctx.priority_level) && packet_ctx.pid == 0x0010
                    && crc_validation.nit_crc_ok == Some(true),
                now_ms,
            ),
            pkt_accepted(packet_ctx.chunk@) && !pcr_rejects(
                packet_ctx.priority_level,
                packet_ctx.pcr_opt,
            ) ==> final(self).sdt_crc_errors == old(self).sdt_crc_errors.saturating_add(
                if mode_p3(packet_ctx.priority_level) && packet_ctx.pid == 0x0011
                    && crc_validation.sdt_crc_ok == Some(false) {
                    1
                } else {
                    0
                },
            ) && final(self).last_sdt_seen == seen_after(
                old(self).last_sdt_seen,
                mode_p3(packet_ctx.priority_level) && packet_ctx.pid == 0x0011
                    && crc_validation.sdt_crc_ok == Some(true),
                now_ms,
            ),
            pkt_accepted(packet_ctx.chunk@) && !pcr_rejects(
                packet_ctx.priority_level,
                packet_ctx.pcr_opt,
            ) ==> final(self).eit_crc_errors == old(self).eit_crc_errors.saturating_add(
                if mode_p3(packet_ctx.priority_level) && packet_ctx.pid == 0x0011
                    && crc_validation.eit_crc_ok == Some(false) {
                    1
                } else {
                    0
                },
            ) && final(self).last_eit_seen == seen_after(
                old(self).last_eit_seen,
                mode_p3(packet_ctx.priority_level) && packet_ctx.pid == 0x0011
                    && crc_validation.eit_crc_ok == Some(true),
                now_ms,
            ),
            pkt_accepted(packet_ctx.chunk@) && !pcr_rejects(
                packet_ctx.priority_level,
                packet_ctx.pcr_opt,
            ) ==> final(self).last_tdt_seen == seen_after(
                old(self).last_tdt_seen,
                mode_p3(packet_ctx.priority_level) && packet_ctx.pid == 0x0014 && (
                packet_ctx.table_id == 0x70 || packet_ctx.table_id == 0x73),
                now_ms,
            ),
            pkt_accepted(packet_ctx.chunk@) && pcr_rejects(
                packet_ctx.priority_level,
                packet_ctx.pcr_opt,
            ) ==> final(self).nit_crc_errors == old(self).nit_crc_errors && final(self).last_nit_seen == old(self).last_nit_seen && final(self).sdt_crc_errors == old(self).sdt_crc_errors && final(self).last_sdt_seen == old(self).last_sdt_seen && final(self).eit_crc_errors == old(self).eit_crc_errors && final(self).last_eit_seen == old(self).last_eit_seen && final(self).last_tdt_seen == old(self).last_tdt_seen,
            pkt_accepted(packet_ctx.chunk@) ==> final(self).pid_errors == old(self).pid_errors
                && final(self).ts_sync_loss == old(self).ts_sync_loss && final(self).sync_loss_counter == old(self).sync_loss_counter && final(self).pat_version_changes
                == old(self).pat_version_changes && final(self).pat_versions@ == old(self).pat_versions@ && final(self).pmt_version_changes == old(self).pmt_version_changes
                && final(self).pmt_versions@ == old(self).pmt_versions@ && final(self).pts_errors
                == old(self).pts_errors && final(self).last_pts_per_pid@ == old(self).last_pts_per_pid@ && final(self).service_id_mismatch == old(self).service_id_mismatch && final(self).splice_count_errors == old(self).splice_count_errors && final(self).last_splice_value == old(self).last_splice_value
                && final(self).known_pids@ == old(self).known_pids@ && final(self).startup_ms
                == old(self).startup_ms,
            pkt_accepted(packet_ctx.chunk@) ==> final(self).nit_timeout == old(self).nit_timeout
                && final(self).sdt_timeout == old(self).sdt_timeout && final(self).eit_timeout
                == old(self).eit_timeout && final(self).tdt_timeout == old(self).tdt_timeout
                && final(self).nit_timeout_state == old(self).nit_timeout_state && final(self).sdt_timeout_state == old(self).sdt_timeout_state && final(self).eit_timeout_state
                == old(self).eit_timeout_state && final(self).tdt_timeout_state == old(self).tdt_timeout_state,
    {
        let chunk = packet_ctx.chunk;
        if chunk.len() != TS_PACKET_SIZE {
            return ;
        }
        if chunk[0] != TS_SYNC_BYTE {
            self.sync_byte_errors = self.sync_byte_errors.saturating_add(1);
            return ;
        }

        let pid = packet_ctx.pid;
        let tei = chunk[1] & 0x80 != 0;
        let cc = chunk[3] & 0x0F;
        let afc = (chunk[3] & 0x30) >> 4;
        proof {
            crate::bits::lemma_u8_and_bound(chunk@[3], 0x0F);
        }
        self.cc_tei_tick(pid, tei, cc, afc);
        self.fast_tables_tick(
            pid,
            packet_ctx.pat_pid,
            packet_ctx.priority_level,
            &crc_validation,
            now_ms,
        );

        self.tail_tick(
            pid,
            packet_ctx.priority_level,
            packet_ctx.table_id,
            packet_ctx.pcr_opt,
            &crc_validation,
            now_ms,
        );
    }

    /// The packet-tail bookkeeping: PCR checks, the null-rate window and
    /// the slow-table sightings. A malformed PCR stops the walk: the rate
    /// window and the sightings are then left untouched.
    #[verifier::rlimit(100)]
    #[verifier::spinoff_prover]
    fn tail_tick(
        &mut self,
        pid: u16,
        level: AnalysisMode,
        table_id: u8,
        pcr_opt: Option<(u64, u16)>,
        crc_validation: &CrcValidation,
        now_ms: u64,
    )
        requires
            old(self).wf(),
            pid < PID_LIMIT,
        ensures
            final(self).wf(),
            Self::counters_monotone(old(self), final(self)),
            (*final(self) == (Tr101Metrics {
                pcr_repetition_errors: final(self).pcr_repetition_errors,
                pcr_accuracy_errors: final(self).pcr_accuracy_errors,
                last_pcr_info: final(self).last_pcr_info,
                bytes_in_window: final(self).bytes_in_window,
                null_bytes_in_window: final(self).null_bytes_in_window,
                last_rate_check: final(self).last_rate_check,
                null_packet_rate_errors: final(self).null_packet_rate_errors,
                nit_crc_errors: final(self).nit_crc_errors,
                last_nit_seen: final(self).last_nit_seen,
                sdt_crc_errors: final(self).sdt_crc_errors,
                last_sdt_seen: final(self).last_sdt_seen,
                eit_crc_errors: final(self).eit_crc_errors,
                last_eit_seen: final(self).last_eit_seen,
                last_tdt_seen: final(self).last_tdt_seen,
                ..*old(self)
            })),
            (!mode_p2(level) || pcr_opt is None || pcr_rejects(level, pcr_opt)) ==> final(self).pcr_repetition_errors == old(self).pcr_repetition_errors && final(self).pcr_accuracy_errors == old(self).pcr_accuracy_errors && final(self).last_pcr_info@
                == old(self).last_pcr_info@,
            mode_p2(level) ==> (pcr_opt matches Some((base, ext)) ==> (!pcr_malformed(base, ext)
                ==> final(self).last_pcr_info@ == old(self).last_pcr_info@.insert(
                pid,
                ((base * 300 + ext) as u64, now_ms),
            ) && final(self).pcr_repetition_errors == old(self).pcr_repetition_errors.saturating_add(
                pcr_rep_delta(old(self).last_pcr_info@, pid, now_ms),
            ) && final(self).pcr_accuracy_errors == old(self).pcr_accuracy_errors.saturating_add(
                pcr_acc_delta(old(self).last_pcr_info@, pid, (base * 300 + ext) as u64, now_ms),
            ))),
            pcr_rejects(level, pcr_opt) ==> final(self).bytes_in_window == old(self).bytes_in_window && final(self).null_bytes_in_window == old(self).null_bytes_in_window && final(self).last_rate_check == old(self).last_rate_check
                && final(self).null_packet_rate_errors == old(self).null_packet_rate_errors
                && final(self).nit_crc_errors == old(self).nit_crc_errors && final(self).last_nit_seen == old(self).last_nit_seen && final(self).sdt_crc_errors == old(self).sdt_crc_errors && final(self).last_sdt_seen == old(self).last_sdt_seen && final(self).eit_crc_errors == old(self).eit_crc_errors && final(self).last_eit_seen == old(self).last_eit_seen && final(self).last_tdt_seen == old(self).last_tdt_seen,
            !pcr_rejects(level, pcr_opt) ==> ({
                let total = old(self).bytes_in_window.saturating_add(TS_PACKET_SIZE as u64);
                let nulls = if pid == NULL_PID {
                    old(self).null_bytes_in_window.saturating_add(TS_PACKET_SIZE as u64)
                } else {
                    old(self).null_bytes_in_window
                };
                match old(self).last_rate_check {
                    None => {
                        &&& final(self).bytes_in_window == total
                        &&& final(self).null_bytes_in_window == nulls
                        &&& final(self).last_rate_check == Some(now_ms)
                        &&& final(self).null_packet_rate_errors == old(self).null_packet_rate_errors
                    },
                    Some(t) => {
                        if now_ms.saturating_sub(t) >= 1000 {
                            &&& final(self).bytes_in_window == 0
                            &&& final(self).null_bytes_in_window == 0
                            &&& final(self).last_rate_check == Some(now_ms)
                            &&& final(self).null_packet_rate_errors == old(self).null_packet_rate_errors.saturating_add(
                                if total > 0 && mode_p2(level) && nulls * NULL_RATE_DEN > total
                                    * NULL_RATE_NUM {
                                    1
                                } else {
                                    0
                                },
                            )
                        } else {
                            &&& final(self).bytes_in_window == total
                            &&& final(self).null_bytes_in_window == nulls
                            &&& final(self).last_rate_check == old(self).last_rate_check
                            &&& final(self).null_packet_rate_errors == old(self).null_packet_rate_errors
                        }
                    },
                }
            }),
            !pcr_rejects(level, pcr_opt) ==> final(self).nit_crc_errors == old(self).nit_crc_errors.saturating_add(
                if mode_p3(level) && pid == 0x0010 && crc_validation.nit_crc_ok == Some(false) {
                    1
                } else {
                    0
                },
            ) && final(self).last_nit_seen == seen_after(
                old(self).last_nit_seen,
                mode_p3(level) && pid == 0x0010 && crc_validation.nit_crc_ok == Some(true),
                now_ms,
            ),
            !pcr_rejects(level, pcr_opt) ==> final(self).sdt_crc_errors == old(self).sdt_crc_errors.saturating_add(
                if mode_p3(level) && pid == 0x0011 && crc_validation.sdt_crc_ok == Some(false) {
                    1
                } else {
                    0
                },
            ) && final(self).last_sdt_seen == seen_after(
                old(self).last_sdt_seen,
                mode_p3(level) && pid == 0x0011 && crc_validation.sdt_crc_ok == Some(true),
                now_ms,
            ),
            !pcr_rejects(level, pcr_opt) ==> final(self).eit_crc_errors == old(self).eit_crc_errors.saturating_add(
                if mode_p3(level) && pid == 0x0011 && crc_validation.eit_crc_ok == Some(false) {
                    1
                } else {
                    0
                },
            ) && final(self).last_eit_seen == seen_after(
                old(self).last_eit_seen,
                mode_p3(level) && pid == 0x0011 && crc_validation.eit_crc_ok == Some(true),
                now_ms,
            ),
            !pcr_rejects(level, pcr_opt) ==> final(self).last_tdt_seen == seen_after(
                old(self).last_tdt_seen,
                mode_p3(level) && pid == 0x0014 && (table_id == 0x70 || table_id == 0x73),
                now_ms,
            ),
    {
        if mode_is_p2(level) {
            match pcr_opt {
                Some((base, ext)) => {
                    if base >= 0x200000000 || ext > 299 {
                        return ;
                    }
                    self.pcr_tick(pid, base, ext, now_ms);
                },
                None => {},
            }
        }

        self.rate_tick(pid, level, now_ms);

        self.p3_sightings_tick(pid, level, table_id, crc_validation, now_ms);
    }

    /// The slow-table poll, run at each snapshot in full-analysis mode:
    /// edge-triggered NIT/SDT/EIT/TDT timeout latches (Priority 3).
    #[verifier::rlimit(100)]
    #[verifier::spinoff_prover]
    pub fn on_snapshot(&mut self, level: AnalysisMode, now_ms: u64)
        requires
            old(self).wf(),
        ensures
            final(self).wf(),
            Self::counters_monotone(old(self), final(self)),
            !mode_p3(level) ==> *final(self) == *old(self),
            mode_p3(level) ==> ({
                let nit_to = table_timed_out(
                    old(self).last_nit_seen,
                    old(self).startup_ms,
                    now_ms,
                    NIT_TIMEOUT_MS,
                );
                let sdt_to = table_timed_out(
                    old(self).last_sdt_seen,
                    old(self).startup_ms,
                    now_ms,
                    SDT_TIMEOUT_MS,
                );
                let eit_to = table_timed_out(
                    old(self).last_eit_seen,
                    old(self).startup_ms,
                    now_ms,
                    EIT_TIMEOUT_MS,
                );
                let tdt_to = table_timed_out(
                    old(self).last_tdt_seen,
                    old(self).startup_ms,
                    now_ms,
                    TDT_TIMEOUT_MS,
                );
                &&& final(self).nit_timeout == old(self).nit_timeout.saturating_add(
                    timeout_edge(old(self).nit_timeout_state, nit_to),
                )
                &&& final(self).sdt_timeout == old(self).sdt_timeout.saturating_add(
                    timeout_edge(old(self).sdt_timeout_state, sdt_to),
                )
                &&& final(self).eit_timeout == old(self).eit_timeout.saturating_add(
                    timeout_edge(old(self).eit_timeout_state, eit_to),
                )
                &&& final(self).tdt_timeout == old(self).tdt_timeout.saturating_add(
                    timeout_edge(old(self).tdt_timeout_state, tdt_to),
                )
                &&& final(self).nit_timeout_state == nit_to
                &&& final(self).sdt_timeout_state == sdt_to
                &&& final(self).eit_timeout_state == eit_to
                &&& final(self).tdt_timeout_state == tdt_to
                &&& (*final(self) == (Tr101Metrics {
                    nit_timeout: final(self).nit_timeout,
                    sdt_timeout: final(self).sdt_timeout,
                    eit_timeout: final(self).eit_timeout,
                    tdt_timeout: final(self).tdt_timeout,
                    nit_timeout_state: final(self).nit_timeout_state,
                    sdt_timeout_state: final(self).sdt_timeout_state,
                    eit_timeout_state: final(self).eit_timeout_state,
                    tdt_timeout_state: final(self).tdt_timeout_state,
                    ..*old(self)
                }))
            }),
    {
        if !mode_is_p3(level) {
            return ;
        }
        let nit_to = match self.last_nit_seen {
            Some(t) => now_ms.saturating_sub(t) > NIT_TIMEOUT_MS,
            None => now_ms.saturating_sub(self.startup_ms) > NIT_TIMEOUT_MS,
        };
        if nit_to && !self.nit_timeout_state {
            self.nit_timeout = self.nit_timeout.saturating_add(1);
        }
        self.nit_timeout_state = nit_to;

        let sdt_to = match self.last_sdt_seen {
            Some(t) => now_ms.saturating_sub(t) > SDT_TIMEOUT_MS,
            None => now_ms.saturating_sub(self.startup_ms) > SDT_TIMEOUT_MS,
        };
        if sdt_to && !self.sdt_timeout_state {
            self.sdt_timeout = self.sdt_timeout.saturating_add(1);
        }
        self.sdt_timeout_state = sdt_to;

        let eit_to = match self.last_eit_seen {
            Some(t) => now_ms.saturating_sub(t) > EIT_TIMEOUT_MS,
            None => now_ms.saturating_sub(self.startup_ms) > EIT_TIMEOUT_MS,
        };
        if eit_to && !self.eit_timeout_state {
            self.eit_timeout = self.eit_timeout.saturating_add(1);
        }
        self.eit_timeout_state = eit_to;

        let tdt_to = match self.last_tdt_seen {
            Some(t) => now_ms.saturating_sub(t) > TDT_TIMEOUT_MS,
            None => now_ms.saturating_sub(self.startup_ms) > TDT_TIMEOUT_MS,
        };
        if tdt_to && !self.tdt_timeout_state {
            self.tdt_timeout = self.tdt_timeout.saturating_add(1);
        }
        self.tdt_timeout_state = tdt_to;
    }
}

} // verus!
