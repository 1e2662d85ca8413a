//! End-to-end scenarios: synthesised packet sequences through the
//! processor, checked against the expected counter deltas and snapshots.
use mpegts_inspector::processor::PacketProcessor;
use mpegts_inspector::report::Reporter;
use mpegts_inspector::types::{AnalysisCommand, AnalysisMode, CodecInfo};

fn crc32_mpeg2(data: &[u8]) -> u32 {
    crc::Crc::<u32>::new(&crc::CRC_32_MPEG_2).checksum(data)
}

fn make_section(table_id: u8, version: u8, program_number: u16, body: &[u8]) -> Vec<u8> {
    let mut sec = vec![table_id];
    let slen = (body.len() + 9) as u16;
    sec.push(0xB0 | ((slen >> 8) as u8 & 0x0F));
    sec.push((slen & 0xFF) as u8);
    sec.push((program_number >> 8) as u8);
    sec.push((program_number & 0xFF) as u8);
    sec.push(0xC0 | (version << 1) | 1);
    sec.push(0);
    sec.push(0);
    sec.extend_from_slice(body);
    let crc = crc32_mpeg2(&sec);
    sec.extend_from_slice(&crc.to_be_bytes());
    let mut payload = vec![0u8];
    payload.extend_from_slice(&sec);
    payload
}

fn make_pat(version: u8, programs: &[(u16, u16)]) -> Vec<u8> {
    let mut body = Vec::new();
    for (pn, pid) in programs {
        body.extend_from_slice(&pn.to_be_bytes());
        body.push(0xE0 | ((pid >> 8) as u8 & 0x1F));
        body.push((pid & 0xFF) as u8);
    }
    make_section(0x00, version, 1, &body)
}

fn make_pmt(version: u8, program: u16, pcr_pid: u16, streams: &[(u8, u16)]) -> Vec<u8> {
    let mut body = Vec::new();
    body.push(0xE0 | ((pcr_pid >> 8) as u8 & 0x1F));
    body.push((pcr_pid & 0xFF) as u8);
    body.push(0xF0);
    body.push(0x00);
    for (st, pid) in streams {
        body.push(*st);
        body.push(0xE0 | ((pid >> 8) as u8 & 0x1F));
        body.push((pid & 0xFF) as u8);
        body.push(0xF0);
        body.push(0x00);
    }
    make_section(0x02, version, program, &body)
}

/// A 188-byte packet with payload only (adaptation control 01).
fn ts_packet(pid: u16, cc: u8, pusi: bool, payload: &[u8]) -> Vec<u8> {
    let mut p = vec![0u8; 188];
    p[0] = 0x47;
    p[1] = (if pusi { 0x40 } else { 0x00 }) | ((pid >> 8) as u8 & 0x1F);
    p[2] = (pid & 0xFF) as u8;
    p[3] = 0x10 | (cc & 0x0F);
    let n = payload.len().min(184);
    p[4..4 + n].copy_from_slice(&payload[..n]);
    for b in p[4 + n..].iter_mut() {
        *b = 0xFF;
    }
    p
}

/// A 188-byte packet with an adaptation field followed by payload.
fn ts_packet_af(pid: u16, cc: u8, pusi: bool, af: &[u8], payload: &[u8]) -> Vec<u8> {
    let mut p = vec![0u8; 188];
    p[0] = 0x47;
    p[1] = (if pusi { 0x40 } else { 0x00 }) | ((pid >> 8) as u8 & 0x1F);
    p[2] = (pid & 0xFF) as u8;
    p[3] = 0x30 | (cc & 0x0F);
    p[4] = af.len() as u8;
    p[5..5 + af.len()].copy_from_slice(af);
    let start = 5 + af.len();
    let n = payload.len().min(188 - start);
    p[start..start + n].copy_from_slice(&payload[..n]);
    for b in p[start + n..].iter_mut() {
        *b = 0xFF;
    }
    p
}

/// An adaptation field of `len` bytes carrying a PCR.
fn pcr_af(base: u64, ext: u16) -> Vec<u8> {
    let mut af = vec![0u8; 7];
    af[0] = 0x10; // PCR flag
    af[1] = (base >> 25) as u8;
    af[2] = (base >> 17) as u8;
    af[3] = (base >> 9) as u8;
    af[4] = (base >> 1) as u8;
    af[5] = (((base & 1) << 7) as u8) | 0x7E | ((ext >> 8) as u8 & 0x01);
    af[6] = (ext & 0xFF) as u8;
    af
}

/// An adaptation field announcing a splice countdown; the engine reads the
/// countdown from the byte after the field, so the caller puts it first in
/// the payload.
fn splice_af() -> Vec<u8> {
    vec![0x04]
}

/// A PES packet payload for a video stream with the given PTS and
/// elementary-stream bytes.
fn pes_video(pts: u64, es: &[u8]) -> Vec<u8> {
    let mut p = vec![0x00, 0x00, 0x01, 0xE0, 0x00, 0x00, 0x80, 0x80, 0x05];
    p.push(0x20 | (((pts >> 30) as u8 & 0x07) << 1) | 1);
    p.push((pts >> 22) as u8);
    p.push((((pts >> 15) as u8 & 0x7F) << 1) | 1);
    p.push((pts >> 7) as u8);
    p.push((((pts & 0x7F) as u8) << 1) | 1);
    p.extend_from_slice(es);
    p
}

/// A PES packet payload for an audio stream (no PTS) with ES bytes.
fn pes_audio(es: &[u8]) -> Vec<u8> {
    let mut p = vec![0x00, 0x00, 0x01, 0xC0, 0x00, 0x00, 0x80, 0x00, 0x00];
    p.extend_from_slice(es);
    p
}

/// A tiny baseline H.264 SPS NAL for 1920x1088, as an ES buffer.
fn sps_es() -> Vec<u8> {
    // profile 66, flags/level 0, then Exp-Golomb fields; see the SPS tests
    let body: [u8; 8] = [0x42, 0x00, 0x00, 0xF8, 0x0F, 0x00, 0x44, 0x88];
    let mut es = vec![0x00, 0x00, 0x01, 0x67];
    es.extend_from_slice(&body);
    es
}

/// An ADTS AAC frame head at 48 kHz, two channels.
fn adts_es() -> Vec<u8> {
    vec![0xFF, 0xF1, 0x4C, 0x80, 0x01, 0x3F, 0xFC, 0x00, 0x00, 0x00]
}

const MODE12: Option<AnalysisMode> = Some(AnalysisMode::Tr101Priority12);
const MODE_ALL: Option<AnalysisMode> = Some(AnalysisMode::Tr101);

struct Mux {
    proc_: PacketProcessor,
    cc: [u8; 8192],
}

impl Mux {
    fn new() -> Mux {
        Mux { proc_: PacketProcessor::new(true, 0), cc: [15u8; 8192] }
    }

    fn next_cc(&mut self, pid: u16) -> u8 {
        let c = (self.cc[pid as usize] + 1) % 16;
        self.cc[pid as usize] = c;
        c
    }

    fn send(&mut self, pid: u16, pusi: bool, payload: &[u8], mode: Option<AnalysisMode>, now: u64) {
        let cc = self.next_cc(pid);
        let pkt = ts_packet(pid, cc, pusi, payload);
        self.proc_.process_packet(&pkt, mode, now);
    }

    fn send_af(
        &mut self,
        pid: u16,
        af: &[u8],
        payload: &[u8],
        mode: Option<AnalysisMode>,
        now: u64,
    ) {
        let cc = self.next_cc(pid);
        let pkt = ts_packet_af(pid, cc, false, af, payload);
        self.proc_.process_packet(&pkt, mode, now);
    }
}

/// Clean single-program mux: PAT and PMT at a 100 ms cadence, PCRs at a
/// 30 ms cadence, video and audio payloads, a few nulls. Every counter
/// stays at zero and the snapshot lists both streams.
#[test]
fn clean_single_program_mux() {
    let mut m = Mux::new();
    let pat = make_pat(1, &[(1, 0x0100)]);
    let pmt = make_pmt(1, 1, 0x0101, &[(0x1B, 0x0101), (0x0F, 0x0102)]);
    let video = pes_video(90_000, &sps_es());
    let audio = pes_audio(&adts_es());
    let mut pcr_base: u64 = 100_000;
    for t in 0..34u64 {
        let now = t * 30;
        if t % 3 == 0 {
            m.send(0x0000, true, &pat, MODE12, now);
            m.send(0x0100, true, &pmt, MODE12, now);
        }
        m.send_af(0x0101, &pcr_af(pcr_base, 0), &[0xAA; 100], MODE12, now);
        pcr_base += 2700; // 30 ms at 90 kHz
        m.send(0x0101, true, &video, MODE12, now);
        m.send(0x0102, true, &audio, MODE12, now);
        m.send(0x1FFF, false, &[0xFF; 184], MODE12, now);
    }
    let metrics = m.proc_.get_tr101_metrics();
    assert_eq!(metrics.sync_byte_errors, 0);
    assert_eq!(metrics.ts_sync_loss, 0);
    assert_eq!(metrics.transport_error_indicator, 0);
    assert_eq!(metrics.pat_crc_errors, 0);
    assert_eq!(metrics.pat_timeout, 0);
    assert_eq!(metrics.continuity_counter_errors, 0);
    assert_eq!(metrics.pmt_crc_errors, 0);
    assert_eq!(metrics.pmt_timeout, 0);
    assert_eq!(metrics.pid_errors, 0);
    assert_eq!(metrics.pcr_repetition_errors, 0);
    assert_eq!(metrics.pcr_accuracy_errors, 0);
    assert_eq!(metrics.null_packet_rate_errors, 0);
    assert_eq!(metrics.pat_version_changes, 0);
    assert_eq!(metrics.pmt_version_changes, 0);
    assert_eq!(metrics.pts_errors, 0);
    assert_eq!(metrics.splice_count_errors, 0);

    assert_eq!(m.proc_.get_pcr_pid(1), Some(0x0101));
    assert_eq!(m.proc_.get_pmt_version(0x0100), Some(1));
    let report = Reporter::create_report(
        &m.proc_,
        m.proc_.get_tr101_metrics(),
        MODE12,
        String::from("t0"),
        1020,
    );
    assert_eq!(report.programs.len(), 1);
    assert_eq!(report.programs[0].program_number, 1);
    assert_eq!(report.programs[0].pcr_pid, Some(0x0101));
    assert_eq!(report.programs[0].pmt_version, Some(1));
    assert_eq!(report.programs[0].streams.len(), 2);
    let s0 = &report.programs[0].streams[0];
    assert_eq!(s0.pid, 0x0101);
    assert_eq!(s0.stream_type, 0x1B);
    match s0.codec.as_ref().unwrap() {
        CodecInfo::Video(v) => {
            assert_eq!(v.codec, "H.264");
            assert_eq!(v.width, 1920);
            assert_eq!(v.height, 1088);
        },
        _ => panic!("expected video codec"),
    }
    let s1 = &report.programs[0].streams[1];
    assert_eq!(s1.pid, 0x0102);
    match s1.codec.as_ref().unwrap() {
        CodecInfo::Audio(a) => {
            assert_eq!(a.codec, "AAC");
            assert_eq!(a.sample_rate, Some(48000));
        },
        _ => panic!("expected audio codec"),
    }
}

/// One PAT with a broken CRC: the CRC counter steps once, the cache keeps
/// the previous table, and without a valid PAT inside the window the PAT
/// timeout latches once.
#[test]
fn corrupted_pat_crc() {
    let mut m = Mux::new();
    let pat = make_pat(1, &[(1, 0x0100)]);
    let mut bad = pat.clone();
    let n = bad.len();
    bad[n - 1] ^= 0xFF;
    m.send(0x0000, true, &pat, MODE12, 0);
    m.send(0x0000, true, &bad, MODE12, 100);
    let metrics = m.proc_.get_tr101_metrics();
    assert_eq!(metrics.pat_crc_errors, 1);
    assert_eq!(metrics.pat_timeout, 0);
    // the cache kept the earlier table
    assert!(m.proc_.si_cache.pat.is_some());
    assert_eq!(m.proc_.si_cache.pat.as_ref().unwrap().version, 1);
    // no valid PAT arrives within 500 ms: the timeout ticks exactly once
    m.send(0x1FFF, false, &[0xFF; 184], MODE12, 700);
    m.send(0x1FFF, false, &[0xFF; 184], MODE12, 730);
    let metrics = m.proc_.get_tr101_metrics();
    assert_eq!(metrics.pat_crc_errors, 1);
    assert_eq!(metrics.pat_timeout, 1);
}

/// A 60 ms PCR gap: one repetition error on the next PCR of that PID.
#[test]
fn pcr_gap() {
    let mut m = Mux::new();
    let pat = make_pat(1, &[(1, 0x0100)]);
    let pmt = make_pmt(1, 1, 0x0101, &[(0x1B, 0x0101)]);
    m.send(0x0000, true, &pat, MODE12, 0);
    m.send(0x0100, true, &pmt, MODE12, 0);
    m.send_af(0x0101, &pcr_af(1000, 0), &[0xAA; 100], MODE12, 0);
    m.send_af(0x0101, &pcr_af(3700, 0), &[0xAA; 100], MODE12, 30);
    // 60 ms of silence, then the next PCR
    m.send_af(0x0101, &pcr_af(11800, 0), &[0xAA; 100], MODE12, 120);
    let metrics = m.proc_.get_tr101_metrics();
    assert_eq!(metrics.pcr_repetition_errors, 1);
}

/// A PCR whose base rolls over from its maximum to zero is one tick, not a
/// repetition or accuracy error.
#[test]
fn pcr_wrap_is_no_jump() {
    let mut m = Mux::new();
    let pat = make_pat(1, &[(1, 0x0100)]);
    let pmt = make_pmt(1, 1, 0x0101, &[(0x1B, 0x0101)]);
    m.send(0x0000, true, &pat, MODE12, 0);
    m.send(0x0100, true, &pmt, MODE12, 0);
    m.send_af(0x0101, &pcr_af((1u64 << 33) - 1, 0), &[0xAA; 100], MODE12, 0);
    m.send_af(0x0101, &pcr_af(0, 0), &[0xAA; 100], MODE12, 30);
    let metrics = m.proc_.get_tr101_metrics();
    assert_eq!(metrics.pcr_repetition_errors, 0);
    assert_eq!(metrics.pcr_accuracy_errors, 0);
}

/// A 40% null flood: the null-rate counter steps once per closed
/// one-second window.
#[test]
fn null_flood() {
    let mut m = Mux::new();
    let pat = make_pat(1, &[(1, 0x0100)]);
    for t in 0..16u64 {
        let now = t * 100;
        m.send(0x0000, true, &pat, MODE12, now);
        m.send(0x0100, false, &[0xAA; 100], MODE12, now);
        m.send(0x0101, false, &[0xAA; 100], MODE12, now);
        m.send(0x1FFF, false, &[0xFF; 184], MODE12, now);
        m.send(0x1FFF, false, &[0xFF; 184], MODE12, now + 1);
    }
    let metrics = m.proc_.get_tr101_metrics();
    assert_eq!(metrics.null_packet_rate_errors, 1);
}

/// A single continuity jump of two counts exactly one error.
#[test]
fn continuity_break() {
    let mut m = Mux::new();
    let pat = make_pat(1, &[(1, 0x0100)]);
    let pmt = make_pmt(1, 1, 0x0101, &[(0x1B, 0x0101)]);
    m.send(0x0000, true, &pat, MODE12, 0);
    m.send(0x0100, true, &pmt, MODE12, 0);
    for _ in 0..5 {
        m.send(0x0101, false, &[0xAA; 100], MODE12, 10);
    }
    // skip one continuity count on the video PID
    m.next_cc(0x0101);
    m.send(0x0101, false, &[0xAA; 100], MODE12, 20);
    for _ in 0..5 {
        m.send(0x0101, false, &[0xAA; 100], MODE12, 30);
    }
    let metrics = m.proc_.get_tr101_metrics();
    assert_eq!(metrics.continuity_counter_errors, 1);
}

/// A PAT version roll from 3 to 4 counts one version change.
#[test]
fn pat_version_roll() {
    let mut m = Mux::new();
    m.send(0x0000, true, &make_pat(3, &[(1, 0x0100)]), MODE12, 0);
    m.send(0x0000, true, &make_pat(3, &[(1, 0x0100)]), MODE12, 250);
    m.send(0x0000, true, &make_pat(4, &[(1, 0x0100)]), MODE12, 500);
    let metrics = m.proc_.get_tr101_metrics();
    assert_eq!(metrics.pat_version_changes, 1);
    assert_eq!(metrics.pat_timeout, 0);
}

/// The splice countdown walk 5,4,3,3,2,1,0,-1,0,1: only the final 0 to 1
/// transition is illegal.
#[test]
fn splice_jitter() {
    let mut m = Mux::new();
    let seq: [i8; 10] = [5, 4, 3, 3, 2, 1, 0, -1, 0, 1];
    for (k, sc) in seq.iter().enumerate() {
        let mut payload = vec![*sc as u8];
        payload.extend_from_slice(&[0xAA; 100]);
        m.send_af(0x0101, &splice_af(), &payload, MODE_ALL, k as u64 * 10);
    }
    let metrics = m.proc_.get_tr101_metrics();
    assert_eq!(metrics.splice_count_errors, 1);
}

/// A backward PTS step of at least half the 33-bit range is a wrap, not a
/// PTS error; a short backward step is one.
#[test]
fn pts_wrap_and_error() {
    let mut m = Mux::new();
    let pat = make_pat(1, &[(1, 0x0100)]);
    let pmt = make_pmt(1, 1, 0x0101, &[(0x1B, 0x0101)]);
    m.send(0x0000, true, &pat, MODE12, 0);
    m.send(0x0100, true, &pmt, MODE12, 0);
    let near_top = (1u64 << 33) - 10;
    // the first payload start only registers the stream
    m.send(0x0101, true, &pes_video(near_top, &[0u8; 8]), MODE12, 0);
    m.send(0x0101, true, &pes_video(near_top, &[0u8; 8]), MODE12, 20);
    // wrap to a tiny value: backward step beyond half the range
    m.send(0x0101, true, &pes_video(5, &[0u8; 8]), MODE12, 40);
    let metrics = m.proc_.get_tr101_metrics();
    assert_eq!(metrics.pts_errors, 0);
    // a short backward step is an error
    m.send(0x0101, true, &pes_video(2, &[0u8; 8]), MODE12, 80);
    let metrics = m.proc_.get_tr101_metrics();
    assert_eq!(metrics.pts_errors, 1);
}

/// After the idle sweep a stale PID is gone from the statistics while the
/// accumulated counters remain.
#[test]
fn idle_sweep_keeps_counters() {
    let mut m = Mux::new();
    let pat = make_pat(1, &[(1, 0x0100)]);
    let pmt = make_pmt(1, 1, 0x0101, &[(0x1B, 0x0101)]);
    m.send(0x0000, true, &pat, MODE12, 0);
    m.send(0x0100, true, &pmt, MODE12, 0);
    m.send(0x0101, true, &pes_video(1000, &[0u8; 8]), MODE12, 0);
    // a continuity break so a counter is non-zero
    m.next_cc(0x0101);
    m.send(0x0101, false, &[0xAA; 16], MODE12, 10);
    assert!(m.proc_.stats_manager.contains_pid(0x0101));
    m.proc_.cleanup_old_streams(30, 31_000);
    assert!(!m.proc_.stats_manager.contains_pid(0x0101));
    let metrics = m.proc_.get_tr101_metrics();
    assert_eq!(metrics.continuity_counter_errors, 1);
}

/// Feeding an identical buffer twice doubles the CRC and continuity error
/// counts, with matching clocks.
#[test]
fn replay_doubles_crc_and_continuity() {
    let mut buf: Vec<u8> = Vec::new();
    let mut bad_pat = make_pat(1, &[(1, 0x0100)]);
    let n = bad_pat.len();
    bad_pat[n - 1] ^= 0xFF;
    // sixteen corrupted PATs so the PAT PID's counter wraps legally across
    // the buffer boundary
    for cc in 0..16u8 {
        buf.extend_from_slice(&ts_packet(0x0000, cc, true, &bad_pat));
    }
    // one continuity jump inside the buffer; the wrap from the buffer's
    // last counter back to its first is itself a legal succession
    buf.extend_from_slice(&ts_packet(0x0200, 0, false, &[0xAA; 32]));
    for cc in 2..16u8 {
        buf.extend_from_slice(&ts_packet(0x0200, cc, false, &[0xAA; 32]));
    }
    let mut p = PacketProcessor::new(true, 0);
    p.feed_buffer(&buf, MODE12, 10);
    let m1 = p.get_tr101_metrics();
    assert_eq!(m1.pat_crc_errors, 16);
    assert_eq!(m1.continuity_counter_errors, 1);
    p.feed_buffer(&buf, MODE12, 10);
    let m2 = p.get_tr101_metrics();
    assert_eq!(m2.pat_crc_errors, 32);
    assert_eq!(m2.continuity_counter_errors, 2);
}

/// Two snapshots of the same state at the same logical time agree field
/// for field, the timestamp aside.
#[test]
fn snapshot_is_pure() {
    let mut m = Mux::new();
    let pat = make_pat(1, &[(1, 0x0100)]);
    let pmt = make_pmt(1, 1, 0x0101, &[(0x1B, 0x0101), (0x0F, 0x0102)]);
    m.send(0x0000, true, &pat, MODE12, 0);
    m.send(0x0100, true, &pmt, MODE12, 0);
    m.send(0x0101, true, &pes_video(90_000, &sps_es()), MODE12, 0);
    let r1 = Reporter::create_report(
        &m.proc_,
        m.proc_.get_tr101_metrics(),
        MODE12,
        String::from("a"),
        500,
    );
    let r2 = Reporter::create_report(
        &m.proc_,
        m.proc_.get_tr101_metrics(),
        MODE12,
        String::from("b"),
        500,
    );
    assert_eq!(r1.programs.len(), r2.programs.len());
    for (a, b) in r1.programs.iter().zip(r2.programs.iter()) {
        assert_eq!(a.program_number, b.program_number);
        assert_eq!(a.pcr_pid, b.pcr_pid);
        assert_eq!(a.pmt_version, b.pmt_version);
        assert_eq!(a.streams.len(), b.streams.len());
        for (x, y) in a.streams.iter().zip(b.streams.iter()) {
            assert_eq!(x.pid, y.pid);
            assert_eq!(x.stream_type, y.stream_type);
            assert_eq!(x.bitrate_kbps, y.bitrate_kbps);
            assert_eq!(x.codec.is_some(), y.codec.is_some());
        }
    }
    assert_eq!(
        r1.tr101_metrics.continuity_counter_errors,
        r2.tr101_metrics.continuity_counter_errors
    );
    assert_eq!(r1.tr101_metrics.pat_crc_errors, r2.tr101_metrics.pat_crc_errors);
}

/// A lone sync-like byte inside junk never reaches the section parsers:
/// nothing lands in the SI cache.
#[test]
fn junk_buffer_parses_no_sections() {
    let mut m = Mux::new();
    let mut junk = vec![0u8; 184];
    junk[0] = 0x47;
    junk[10] = 0x47;
    // payload without PUSI on the PAT PID, and PUSI on a non-table PID
    m.send(0x0000, false, &junk, MODE12, 0);
    m.send(0x0300, true, &junk, MODE12, 10);
    assert!(m.proc_.si_cache.pat.is_none());
    assert!(m.proc_.si_cache.sdt.is_none());
    let report = Reporter::create_report(
        &m.proc_,
        m.proc_.get_tr101_metrics(),
        MODE12,
        String::from("t"),
        100,
    );
    assert_eq!(report.programs.len(), 0);
}

/// Sync-byte errors and sync loss: every bad sync byte counts one error,
/// and a run of five counts one TS sync loss; frames with the sync byte
/// leave both counters alone.
#[test]
fn sync_loss_after_five() {
    let mut p = PacketProcessor::new(true, 0);
    let good = ts_packet(0x0100, 0, false, &[0xAA; 32]);
    let mut bad = good.clone();
    bad[0] = 0x21;
    for k in 0..5u64 {
        p.process_packet(&bad, MODE12, k);
    }
    let m = p.get_tr101_metrics();
    assert_eq!(m.ts_sync_loss, 1);
    assert_eq!(m.sync_byte_errors, 5);
    p.process_packet(&good, MODE12, 10);
    let m = p.get_tr101_metrics();
    assert_eq!(m.ts_sync_loss, 1);
    assert_eq!(m.sync_byte_errors, 5);
}

/// Reserved PIDs count PID errors; declared and system PIDs do not.
#[test]
fn reserved_pid_errors() {
    let mut m = Mux::new();
    m.send(0x0002, false, &[0xAA; 8], MODE12, 0);
    m.send(0x000F, false, &[0xAA; 8], MODE12, 1);
    m.send(0x0011, false, &[0xAA; 8], MODE12, 2);
    m.send(0x0500, false, &[0xAA; 8], MODE12, 3);
    let metrics = m.proc_.get_tr101_metrics();
    assert_eq!(metrics.pid_errors, 2);
}

/// The control-loop step: start switches the mode, stop clears it, and a
/// status query reports without disturbing the state.
#[test]
fn control_commands() {
    let mut p = PacketProcessor::new(false, 0);
    let (mode, status) = p.apply_command(None, AnalysisCommand::Start(AnalysisMode::Tr101), 0);
    assert_eq!(mode, Some(AnalysisMode::Tr101));
    assert!(status.is_none());
    assert!(p.tr101.is_some());
    let (mode, status) = p.apply_command(mode, AnalysisCommand::GetStatus, 1);
    assert_eq!(mode, Some(AnalysisMode::Tr101));
    let st = status.unwrap();
    assert!(st.is_running);
    assert_eq!(st.current_mode, Some(AnalysisMode::Tr101));
    let (mode, status) = p.apply_command(mode, AnalysisCommand::Stop, 2);
    assert!(mode.is_none());
    assert!(status.is_none());
}

/// The slow-table poll: with no NIT/SDT/EIT/TDT ever seen, a poll after
/// the window latches each timeout exactly once.
#[test]
fn slow_table_timeouts_latch_once() {
    let mut p = PacketProcessor::new(true, 0);
    let pkt = ts_packet(0x0100, 0, false, &[0xAA; 16]);
    p.process_packet(&pkt, MODE_ALL, 0);
    match &mut p.tr101 {
        Some(t) => {
            t.on_snapshot(AnalysisMode::Tr101, 2500);
            t.on_snapshot(AnalysisMode::Tr101, 2600);
        },
        None => panic!("engine expected"),
    }
    let m = p.get_tr101_metrics();
    assert_eq!(m.nit_timeout, 1);
    assert_eq!(m.sdt_timeout, 1);
    assert_eq!(m.eit_timeout, 1);
    assert_eq!(m.tdt_timeout, 1);
}

/// Priority filtering zeroes the higher-priority counters in the exported
/// view only.
#[test]
fn priority_filtering() {
    let mut m = Mux::new();
    let mut bad_pat = make_pat(1, &[(1, 0x0100)]);
    let n = bad_pat.len();
    bad_pat[n - 1] ^= 0xFF;
    m.send(0x0000, true, &bad_pat, MODE_ALL, 0);
    let full = m.proc_.get_tr101_metrics();
    assert_eq!(full.pat_crc_errors, 1);
    let p1 = full.priority_1_only();
    assert_eq!(p1.pat_crc_errors, 1);
    assert_eq!(p1.pts_errors, 0);
    assert_eq!(p1.splice_count_errors, 0);
    let p12 = full.priority_1_and_2_only();
    assert_eq!(p12.pat_crc_errors, 1);
    assert_eq!(p12.splice_count_errors, 0);
}


/// A stream of corrupt PATs never refreshes the PAT latch: the timeout
/// still ticks once the last validated PAT is stale.
#[test]
fn corrupt_pats_do_not_suppress_timeout() {
    let mut m = Mux::new();
    let pat = make_pat(1, &[(1, 0x0100)]);
    let mut bad = pat.clone();
    let n = bad.len();
    bad[n - 1] ^= 0xFF;
    m.send(0x0000, true, &pat, MODE12, 0);
    m.send(0x0000, true, &bad, MODE12, 200);
    m.send(0x0000, true, &bad, MODE12, 400);
    // this corrupt arrival does not latch: the last valid PAT is 600 ms old
    m.send(0x0000, true, &bad, MODE12, 600);
    let metrics = m.proc_.get_tr101_metrics();
    assert_eq!(metrics.pat_crc_errors, 3);
    assert_eq!(metrics.pat_timeout, 1);
    // a validated PAT clears the latch again
    m.send(0x0000, true, &pat, MODE12, 620);
    m.send(0x1FFF, false, &[0xFF; 184], MODE12, 700);
    let metrics = m.proc_.get_tr101_metrics();
    assert_eq!(metrics.pat_timeout, 1);
}

/// A structurally broken section is dropped without touching the CRC
/// counter: the CRC could not be evaluated.
#[test]
fn structural_failure_is_not_a_crc_error() {
    let mut m = Mux::new();
    // a declared section length far past the payload end
    let mut truncated = vec![0u8, 0x00, 0xBF, 0xFF];
    truncated.resize(40, 0xAB);
    m.send(0x0000, true, &truncated, MODE12, 0);
    let metrics = m.proc_.get_tr101_metrics();
    assert_eq!(metrics.pat_crc_errors, 0);
    // a genuine CRC failure still counts
    let pat = make_pat(1, &[(1, 0x0100)]);
    let mut bad = pat.clone();
    let n = bad.len();
    bad[n - 1] ^= 0xFF;
    m.send(0x0000, true, &bad, MODE12, 10);
    let metrics = m.proc_.get_tr101_metrics();
    assert_eq!(metrics.pat_crc_errors, 1);
}

/// CRC failures on the SDT/EIT PID are classified by the readable
/// table_id and counted against the right table.
#[test]
fn sdt_and_eit_crc_failures_count() {
    let mut m = Mux::new();
    let sdt_body = [0x00, 0x01, 0xFF, 0xFF, 0xFF, 0xFF, 0x00, 0x01];
    let sdt = make_section(0x42, 1, 1, &sdt_body);
    let eit = make_section(0x4E, 1, 1, &sdt_body);
    m.send(0x0011, true, &sdt, MODE_ALL, 0);
    m.send(0x0011, true, &eit, MODE_ALL, 10);
    let mut bad_sdt = sdt.clone();
    let n = bad_sdt.len();
    bad_sdt[n - 1] ^= 0xFF;
    let mut bad_eit = eit.clone();
    let n = bad_eit.len();
    bad_eit[n - 1] ^= 0xFF;
    m.send(0x0011, true, &bad_sdt, MODE_ALL, 20);
    m.send(0x0011, true, &bad_eit, MODE_ALL, 30);
    let metrics = m.proc_.get_tr101_metrics();
    assert_eq!(metrics.sdt_crc_errors, 1);
    assert_eq!(metrics.eit_crc_errors, 1);
    assert!(m.proc_.si_cache.sdt.is_some());
}
