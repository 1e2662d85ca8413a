//! Shared data types: codec records, analysis modes, report records, and
//! the context structs handed to the TR 101 290 engine.
//!
//! Rates are carried as integers: frame rates in millihertz (`fps_millis`,
//! 25 Hz = 25000) and bitrates in whole kilobits per second.
use vstd::prelude::*;

use crate::tr101::Tr101Metrics;

verus! {

/// Video codec information extracted from an elementary stream header.
#[derive(Debug, Clone)]
pub struct VideoInfo {
    pub codec: String,
    pub width: u16,
    pub height: u16,
    /// Frame rate in millihertz; 0 when not yet known.
    pub fps_millis: u32,
    pub chroma: String,
    pub interlaced: bool,
}

/// Audio codec information extracted from an elementary stream header.
#[derive(Debug, Clone)]
pub struct AudioInfo {
    pub codec: String,
    pub profile: Option<String>,
    pub sample_rate: Option<u32>,
    pub channels: Option<u8>,
}

/// Subtitle codec information.
#[derive(Debug, Clone)]
pub struct SubtitleInfo {
    pub codec: String,
}

/// Codec information for the different stream classes.
#[derive(Debug, Clone)]
pub enum CodecInfo {
    Video(VideoInfo),
    Audio(AudioInfo),
    Subtitle(SubtitleInfo),
}

/// Elementary stream information as reported in a snapshot.
#[derive(Debug, Clone)]
pub struct StreamInfo {
    pub pid: u16,
    pub stream_type: u8,
    pub codec: Option<CodecInfo>,
    /// Long-window average bitrate in kilobits per second.
    pub bitrate_kbps: u64,
}

/// Program information containing all its streams.
#[derive(Debug, Clone)]
pub struct ProgramInfo {
    pub program_number: u16,
    pub streams: Vec<StreamInfo>,
    /// PCR PID for this program, from its PMT.
    pub pcr_pid: Option<u16>,
    /// PMT version, for change tracking.
    pub pmt_version: Option<u8>,
}

/// Complete inspection snapshot: programs and TR 101 290 counters.
pub struct InspectorReport {
    pub timestamp: String,
    pub programs: Vec<ProgramInfo>,
    pub tr101_metrics: Tr101Metrics,
}

/// Internal per-PID elementary stream statistics.
#[derive(Debug, Clone)]
pub struct EsStats {
    pub stream_type: u8,
    pub codec: Option<CodecInfo>,
    pub bytes: u64,
    /// Wall-clock instant (milliseconds) when the PID was first registered.
    pub start_ms: u64,
    pub last_pts: Option<u64>,
    /// Recent PTS values, at most ten, used for frame-rate estimation.
    pub pts_samples: Vec<u64>,
}

/// Analysis modes for different levels of processing.
#[derive(Debug, Clone, Copy, PartialEq, Eq, Structural)]
pub enum AnalysisMode {
    /// Basic stream detection only: codec, bitrate, basic metadata.
    Mux,
    /// Full TR 101 290 compliance analysis, all priorities.
    Tr101,
    /// TR 101 290 Priority 1 errors only.
    Tr101Priority1,
    /// TR 101 290 Priority 1 and 2 errors.
    Tr101Priority12,
    /// No analysis, raw stream detection only.
    Off,
}

/// Priority 1 checks run in every TR 101 290 mode.
pub open spec fn mode_p1(m: AnalysisMode) -> bool {
    m == AnalysisMode::Tr101 || m == AnalysisMode::Tr101Priority12
        || m == AnalysisMode::Tr101Priority1
}

/// Priority 2 checks run in full and priority-1+2 modes.
pub open spec fn mode_p2(m: AnalysisMode) -> bool {
    m == AnalysisMode::Tr101 || m == AnalysisMode::Tr101Priority12
}

/// Priority 3 checks run only in full mode.
pub open spec fn mode_p3(m: AnalysisMode) -> bool {
    m == AnalysisMode::Tr101
}

/// Executable check matching [`mode_p1`].
pub fn mode_is_p1(m: AnalysisMode) -> (r: bool)
    ensures
        r == mode_p1(m),
{
    matches!(m, AnalysisMode::Tr101 | AnalysisMode::Tr101Priority12 | AnalysisMode::Tr101Priority1)
}

/// Executable check matching [`mode_p2`].
pub fn mode_is_p2(m: AnalysisMode) -> (r: bool)
    ensures
        r == mode_p2(m),
{
    matches!(m, AnalysisMode::Tr101 | AnalysisMode::Tr101Priority12)
}

/// Executable check matching [`mode_p3`].
pub fn mode_is_p3(m: AnalysisMode) -> (r: bool)
    ensures
        r == mode_p3(m),
{
    matches!(m, AnalysisMode::Tr101)
}

/// Control commands for runtime analysis mode switching.
#[derive(Debug, Clone, Copy, PartialEq, Eq, Structural)]
pub enum AnalysisCommand {
    Start(AnalysisMode),
    Stop,
    GetStatus,
}

/// Response to a status query.
#[derive(Debug, Clone, Copy, PartialEq, Eq, Structural)]
pub struct AnalysisStatus {
    pub current_mode: Option<AnalysisMode>,
    pub is_running: bool,
}

/// Per-packet outcome of the SI table dispatch, handed to the TR 101 290
/// engine. A `None` CRC field means the table was not attempted.
pub struct SiTableContext {
    pub pat_crc_ok: Option<bool>,
    pub pmt_crc_ok: Option<bool>,
    pub cat_crc_ok: Option<bool>,
    pub nit_crc_ok: Option<bool>,
    pub sdt_crc_ok: Option<bool>,
    pub eit_crc_ok: Option<bool>,
    pub tdt_crc_ok: Option<bool>,
    pub table_id: u8,
}

impl SiTableContext {
    /// A context with no table seen; table_id 0xFF means "none".
    pub fn unclassified() -> (r: SiTableContext)
        ensures
            r.pat_crc_ok is None,
            r.pmt_crc_ok is None,
            r.cat_crc_ok is None,
            r.nit_crc_ok is None,
            r.sdt_crc_ok is None,
            r.eit_crc_ok is None,
            r.tdt_crc_ok is None,
            r.table_id == 0xFF,
    {
        SiTableContext {
            pat_crc_ok: None,
            pmt_crc_ok: None,
            cat_crc_ok: None,
            nit_crc_ok: None,
            sdt_crc_ok: None,
            eit_crc_ok: None,
            tdt_crc_ok: None,
            table_id: 0xFF,
        }
    }
}

/// Per-packet context handed to the TR 101 290 engine.
pub struct PacketContext<'a> {
    pub chunk: &'a [u8],
    pub pid: u16,
    pub payload_unit_start: bool,
    pub pat_pid: u16,
    /// PCR as (33-bit base, 9-bit extension), when present on a PCR PID.
    pub pcr_opt: Option<(u64, u16)>,
    pub table_id: u8,
    pub priority_level: AnalysisMode,
}

/// CRC outcomes for all table classes, handed to the TR 101 290 engine.
pub struct CrcValidation {
    pub pat_crc_ok: Option<bool>,
    pub pmt_crc_ok: Option<bool>,
    pub cat_crc_ok: Option<bool>,
    pub nit_crc_ok: Option<bool>,
    pub sdt_crc_ok: Option<bool>,
    pub eit_crc_ok: Option<bool>,
}

} // verus!
