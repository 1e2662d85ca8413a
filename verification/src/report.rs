//! Snapshot generation: materialises the processor state into an
//! [`InspectorReport`], applying priority-level filtering to the counters.
//!
//! The snapshot is computed from the processor state, the counter copy,
//! the timestamp string and the wall clock alone, so two snapshots taken
//! from the same state at the same instant agree field for field.
use vstd::prelude::*;
use vstd::string::StringExecFns;

use crate::constants::PID_LIMIT;
use crate::processor::PacketProcessor;
use crate::tr101::Tr101Metrics;
use crate::types::{
    AnalysisMode, AudioInfo, CodecInfo, EsStats, InspectorReport, ProgramInfo, StreamInfo,
    SubtitleInfo, VideoInfo,
};

verus! {

/// Relies on `chrono::Utc::now` and `DateTime::to_rfc3339`: the result is
/// the current UTC time as an RFC 3339 string; nothing more is assumed of
/// the clock. `Utc::now` itself aborts on a system clock set before the
/// Unix epoch, an environmental condition no caller can exclude.
#[verifier::external_body]
pub fn rfc3339_now() -> (r: String) {
    chrono::Utc::now().to_rfc3339()
}

/// An exact copy of a codec record.
fn clone_codec(c: &CodecInfo) -> (r: CodecInfo)
    ensures
        r == *c,
{
    match c {
        CodecInfo::Video(v) => CodecInfo::Video(
            VideoInfo {
                codec: v.codec.clone(),
                width: v.width,
                height: v.height,
                fps_millis: v.fps_millis,
                chroma: v.chroma.clone(),
                interlaced: v.interlaced,
            },
        ),
        CodecInfo::Audio(a) => CodecInfo::Audio(
            AudioInfo {
                codec: a.codec.clone(),
                profile: match &a.profile {
                    Some(p) => Some(p.clone()),
                    None => None,
                },
                sample_rate: a.sample_rate,
                channels: a.channels,
            },
        ),
        CodecInfo::Subtitle(s) => CodecInfo::Subtitle(SubtitleInfo { codec: s.codec.clone() }),
    }
}

/// The long-window bitrate reported for a stream record, in kbps.
pub open spec fn bitrate_of(s: EsStats, now_ms: u64) -> u64 {
    let bits = if s.bytes > u64::MAX / 8 {
        u64::MAX
    } else {
        (s.bytes * 8) as u64
    };
    let elapsed = now_ms.saturating_sub(s.start_ms);
    bits / (if elapsed < 100 {
        100u64
    } else {
        elapsed
    })
}

/// The streams reported for a PMT's declaration list from index `k` on:
/// one record per declared PID whose statistics carry a codec.
pub open spec fn report_streams(
    es: Seq<crate::pmt::StreamInfo>,
    stats: Map<u16, EsStats>,
    now_ms: u64,
    k: int,
) -> Seq<(u16, u8, CodecInfo, u64)>
    decreases es.len() - k when k >= 0
{
    if k < 0 || k >= es.len() {
        Seq::empty()
    } else {
        let e = es[k];
        let rest = report_streams(es, stats, now_ms, k + 1);
        if e.elementary_pid < PID_LIMIT && stats.contains_key(e.elementary_pid) && stats[
            e.elementary_pid].codec is Some {
            seq![
                (
                    e.elementary_pid,
                    e.stream_type,
                    stats[e.elementary_pid].codec->0,
                    bitrate_of(stats[e.elementary_pid], now_ms),
                ),
            ] + rest
        } else {
            rest
        }
    }
}

/// The PMT PID named by the first PAT entry for `pn`, from index `j` on.
pub open spec fn find_pmt_pid(programs: Seq<crate::pat::PatEntry>, pn: u16, j: int) -> Option<
    u16,
>
    decreases programs.len() - j when j >= 0
{
    if j < 0 || j >= programs.len() {
        None
    } else if programs[j].program_number == pn {
        Some(programs[j].pmt_pid)
    } else {
        find_pmt_pid(programs, pn, j + 1)
    }
}

/// The report entries for the cached programs from pair index `i` on:
/// (program_number, pcr_pid, pmt_version, streams) for each program whose
/// PAT names a PMT PID with a cached PMT.
pub open spec fn report_entries(
    pairs: Seq<(u16, crate::pat::PatSection)>,
    pmts: Map<u16, crate::pmt::PmtSection>,
    stats: Map<u16, EsStats>,
    now_ms: u64,
    i: int,
) -> Seq<(u16, u16, u8, Seq<(u16, u8, CodecInfo, u64)>)>
    decreases pairs.len() - i when i >= 0
{
    if i < 0 || i >= pairs.len() {
        Seq::empty()
    } else {
        let pn = pairs[i].0;
        let pat = pairs[i].1;
        let rest = report_entries(pairs, pmts, stats, now_ms, i + 1);
        match find_pmt_pid(pat.programs@, pn, 0) {
            Some(pp) => if pp < PID_LIMIT && pmts.contains_key(pp) {
                seq![
                    (
                        pn,
                        pmts[pp].pcr_pid,
                        pmts[pp].version,
                        report_streams(pmts[pp].streams@, stats, now_ms, 0),
                    ),
                ] + rest
            } else {
                rest
            },
            None => rest,
        }
    }
}

/// A reported stream equals its abstract record.
pub open spec fn stream_matches(s: StreamInfo, e: (u16, u8, CodecInfo, u64)) -> bool {
    &&& s.pid == e.0
    &&& s.stream_type == e.1
    &&& s.codec == Some(e.2)
    &&& s.bitrate_kbps == e.3
}

/// A reported program equals its abstract entry, stream for stream.
pub open spec fn program_matches(
    p: ProgramInfo,
    e: (u16, u16, u8, Seq<(u16, u8, CodecInfo, u64)>),
) -> bool {
    &&& p.program_number == e.0
    &&& p.pcr_pid == Some(e.1)
    &&& p.pmt_version == Some(e.2)
    &&& p.streams@.len() == e.3.len()
    &&& (forall|k: int| 0 <= k < e.3.len() ==> stream_matches(#[trigger] p.streams@[k], e.3[k]))
}

/// The whole programs list equals the abstract entries, pointwise.
pub open spec fn programs_match(
    ps: Seq<ProgramInfo>,
    es: Seq<(u16, u16, u8, Seq<(u16, u8, CodecInfo, u64)>)>,
) -> bool {
    &&& ps.len() == es.len()
    &&& (forall|i: int| 0 <= i < es.len() ==> program_matches(#[trigger] ps[i], es[i]))
}

/// Report generator.
pub struct Reporter;

impl Reporter {
    /// The short stream-type names used in reports.
    pub fn stream_type_name(st: u8) -> (r: &'static str)
        ensures
            st == 0x1B ==> r@ == "H.264"@,
            st == 0x24 ==> r@ == "HEVC"@,
            st == 0x0F ==> r@ == "AAC"@,
            st == 0x11 ==> r@ == "LATM"@,
            st == 0x02 ==> r@ == "MPEG2"@,
            st == 0x03 || st == 0x04 ==> r@ == "MP2"@,
            st == 0x81 ==> r@ == "AC-3"@,
            st == 0x06 ==> r@ == "DVB-Sub"@,
            !(st == 0x1B || st == 0x24 || st == 0x0F || st == 0x11 || st == 0x02 || st == 0x03
                || st == 0x04 || st == 0x81 || st == 0x06) ==> r@ == "unk"@,
    {
        match st {
            0x1B => "H.264",
            0x24 => "HEVC",
            0x0F => "AAC",
            0x11 => "LATM",
            0x02 => "MPEG2",
            0x03 | 0x04 => "MP2",
            0x81 => "AC-3",
            0x06 => "DVB-Sub",
            _ => "unk",
        }
    }

    /// Builds the snapshot: one entry per cached program whose PMT is
    /// known, each stream taken from the live statistics (streams with no
    /// codec identified yet are skipped), and the counters filtered by the
    /// analysis mode. The timestamp is taken as given, so the snapshot is
    /// a function of the state, the counters, the clock and that string.
    pub fn create_report(
        processor: &PacketProcessor,
        tr101: Tr101Metrics,
        analysis_mode: Option<AnalysisMode>,
        timestamp: String,
        now_ms: u64,
    ) -> (r: InspectorReport)
        requires
            processor.wf(),
            tr101.wf(),
        ensures
            r.timestamp == timestamp,
            analysis_mode == Some(AnalysisMode::Tr101Priority1) ==> ({
                &&& r.tr101_metrics.sync_byte_errors == tr101.sync_byte_errors
                &&& r.tr101_metrics.ts_sync_loss == tr101.ts_sync_loss
                &&& r.tr101_metrics.transport_error_indicator == tr101.transport_error_indicator
                &&& r.tr101_metrics.pat_crc_errors == tr101.pat_crc_errors
                &&& r.tr101_metrics.pat_timeout == tr101.pat_timeout
                &&& r.tr101_metrics.continuity_counter_errors == tr101.continuity_counter_errors
                &&& r.tr101_metrics.pmt_crc_errors == tr101.pmt_crc_errors
                &&& r.tr101_metrics.pmt_timeout == tr101.pmt_timeout
                &&& r.tr101_metrics.pid_errors == tr101.pid_errors
                &&& r.tr101_metrics.pcr_repetition_errors == 0
                &&& r.tr101_metrics.pcr_accuracy_errors == 0
                &&& r.tr101_metrics.null_packet_rate_errors == 0
                &&& r.tr101_metrics.cat_crc_errors == 0
                &&& r.tr101_metrics.cat_timeout == 0
                &&& r.tr101_metrics.pat_version_changes == 0
                &&& r.tr101_metrics.pmt_version_changes == 0
                &&& r.tr101_metrics.pts_errors == 0
                &&& r.tr101_metrics.service_id_mismatch == 0
                &&& r.tr101_metrics.nit_crc_errors == 0
                &&& r.tr101_metrics.nit_timeout == 0
                &&& r.tr101_metrics.sdt_crc_errors == 0
                &&& r.tr101_metrics.sdt_timeout == 0
                &&& r.tr101_metrics.eit_crc_errors == 0
                &&& r.tr101_metrics.eit_timeout == 0
                &&& r.tr101_metrics.tdt_timeout == 0
                &&& r.tr101_metrics.splice_count_errors == 0
                &&& Tr101Metrics::internal_state_eq(&r.tr101_metrics, &tr101)
            }),
            analysis_mode == Some(AnalysisMode::Tr101Priority12) ==> ({
                &&& r.tr101_metrics.sync_byte_errors == tr101.sync_byte_errors
                &&& r.tr101_metrics.ts_sync_loss == tr101.ts_sync_loss
                &&& r.tr101_metrics.transport_error_indicator == tr101.transport_error_indicator
                &&& r.tr101_metrics.pat_crc_errors == tr101.pat_crc_errors
                &&& r.tr101_metrics.pat_timeout == tr101.pat_timeout
                &&& r.tr101_metrics.continuity_counter_errors == tr101.continuity_counter_errors
                &&& r.tr101_metrics.pmt_crc_errors == tr101.pmt_crc_errors
                &&& r.tr101_metrics.pmt_timeout == tr101.pmt_timeout
                &&& r.tr101_metrics.pid_errors == tr101.pid_errors
                &&& r.tr101_metrics.pcr_repetition_errors == tr101.pcr_repetition_errors
                &&& r.tr101_metrics.pcr_accuracy_errors == tr101.pcr_accuracy_errors
                &&& r.tr101_metrics.null_packet_rate_errors == tr101.null_packet_rate_errors
                &&& r.tr101_metrics.cat_crc_errors == tr101.cat_crc_errors
                &&& r.tr101_metrics.cat_timeout == tr101.cat_timeout
                &&& r.tr101_metrics.pat_version_changes == tr101.pat_version_changes
                &&& r.tr101_metrics.pmt_version_changes == tr101.pmt_version_changes
                &&& r.tr101_metrics.pts_errors == tr101.pts_errors
                &&& r.tr101_metrics.service_id_mismatch == 0
                &&& r.tr101_metrics.nit_crc_errors == 0
                &&& r.tr101_metrics.nit_timeout == 0
                &&& r.tr101_metrics.sdt_crc_errors == 0
                &&& r.tr101_metrics.sdt_timeout == 0
                &&& r.tr101_metrics.eit_crc_errors == 0
                &&& r.tr101_metrics.eit_timeout == 0
                &&& r.tr101_metrics.tdt_timeout == 0
                &&& r.tr101_metrics.splice_count_errors == 0
                &&& Tr101Metrics::internal_state_eq(&r.tr101_metrics, &tr101)
            }),
            !(analysis_mode == Some(AnalysisMode::Tr101Priority1) || analysis_mode == Some(
                AnalysisMode::Tr101Priority12,
            )) ==> Tr101Metrics::state_eq(&r.tr101_metrics, &tr101),
            // The programs list is pinned: one entry per cached program
            // whose PAT names a cached PMT, its streams exactly the PMT
            // declarations whose statistics carry a codec.
            programs_match(
                r.programs@,
                report_entries(
                    processor.pat_map.pairs(),
                    processor.pmt_map@,
                    processor.stats_manager.es_stats@,
                    now_ms,
                    0,
                ),
            ),
    {
        let programs = Self::build_programs(processor, 0, now_ms);
        let filtered: Tr101Metrics = match analysis_mode {
            Some(AnalysisMode::Tr101Priority1) => tr101.priority_1_only(),
            Some(AnalysisMode::Tr101Priority12) => tr101.priority_1_and_2_only(),
            _ => tr101,
        };

        InspectorReport { timestamp, programs, tr101_metrics: filtered }
    }

    /// Recursive worker matching [`report_streams`].
    fn build_streams(
        processor: &PacketProcessor,
        pmt: &crate::pmt::PmtSection,
        k: usize,
        now_ms: u64,
    ) -> (r: Vec<StreamInfo>)
        requires
            processor.wf(),
            k <= pmt.streams@.len(),
        ensures
            ({
                let es = report_streams(
                    pmt.streams@,
                    processor.stats_manager.es_stats@,
                    now_ms,
                    k as int,
                );
                r@.len() == es.len() && (forall|j: int|
                    0 <= j < es.len() ==> stream_matches(#[trigger] r@[j], es[j]))
            }),
        decreases pmt.streams@.len() - k,
    {
        if k >= pmt.streams.len() {
            return Vec::new();
        }
        let e = pmt.streams[k];
        let mut head: Option<StreamInfo> = None;
        if e.elementary_pid < PID_LIMIT as u16 {
            match processor.stats_manager.get(e.elementary_pid) {
                Some(stats) => {
                    match &stats.codec {
                        Some(c) => {
                            let codec = clone_codec(c);
                            let bitrate = match processor.stats_manager.calculate_bitrate(
                                e.elementary_pid,
                                now_ms,
                            ) {
                                Some(b) => b,
                                None => 0,
                            };
                            head = Some(
                                StreamInfo {
                                    pid: e.elementary_pid,
                                    stream_type: e.stream_type,
                                    codec: Some(codec),
                                    bitrate_kbps: bitrate,
                                },
                            );
                        },
                        None => {},
                    }
                },
                None => {},
            }
        }
        let mut rest = Self::build_streams(processor, pmt, k + 1, now_ms);
        match head {
            Some(si) => {
                rest.insert(0, si);
            },
            None => {},
        }
        rest
    }

    /// Recursive worker matching [`report_entries`].
    fn build_programs(processor: &PacketProcessor, i: usize, now_ms: u64) -> (r: Vec<
        ProgramInfo,
    >)
        requires
            processor.wf(),
            i <= processor.pat_map.pairs().len(),
        ensures
            programs_match(
                r@,
                report_entries(
                    processor.pat_map.pairs(),
                    processor.pmt_map@,
                    processor.stats_manager.es_stats@,
                    now_ms,
                    i as int,
                ),
            ),
        decreases processor.pat_map.pairs().len() - i,
    {
        let n = processor.pat_map.len();
        if i >= n {
            return Vec::new();
        }
        let entry = processor.pat_map.entry_at(i);
        let prog_num = entry.0;
        let pmt_pid_opt = Self::find_pmt_pid_at(&entry.1.programs, prog_num, 0);
        let mut head: Option<ProgramInfo> = None;
        match pmt_pid_opt {
            Some(pmt_pid) => {
                if pmt_pid < PID_LIMIT as u16 {
                    match processor.pmt_map.get(pmt_pid) {
                        Some(pmt) => {
                            let streams = Self::build_streams(processor, pmt, 0, now_ms);
                            head = Some(
                                ProgramInfo {
                                    program_number: prog_num,
                                    streams,
                                    pcr_pid: Some(pmt.pcr_pid),
                                    pmt_version: Some(pmt.version),
                                },
                            );
                        },
                        None => {},
                    }
                }
            },
            None => {},
        }
        let mut rest = Self::build_programs(processor, i + 1, now_ms);
        match head {
            Some(p) => {
                rest.insert(0, p);
            },
            None => {},
        }
        rest
    }

    /// Recursive worker matching [`find_pmt_pid`].
    fn find_pmt_pid_at(programs: &Vec<crate::pat::PatEntry>, pn: u16, j: usize) -> (r: Option<
        u16,
    >)
        requires
            j <= programs@.len(),
        ensures
            r == find_pmt_pid(programs@, pn, j as int),
        decreases programs@.len() - j,
    {
        if j >= programs.len() {
            None
        } else if programs[j].program_number == pn {
            Some(programs[j].pmt_pid)
        } else {
            Self::find_pmt_pid_at(programs, pn, j + 1)
        }
    }
}

} // verus!
