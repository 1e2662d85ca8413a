//! Table and codec parser tests over hand-built byte images.
use mpegts_inspector::audio::{parse_aac_adts, parse_aac_latm, parse_ac3, parse_mp2};
use mpegts_inspector::pat::parse_pat;
use mpegts_inspector::pmt::parse_pmt;
use mpegts_inspector::sdt::{decode_dvb_text, parse_sdt};
use mpegts_inspector::section::{SectionError, SectionReader};
use mpegts_inspector::tdt::{parse_tdt_tot, TdtTot};
use mpegts_inspector::bits::{remove_emulation_prevention, remove_ep};
use mpegts_inspector::video::{parse_avc_sps, parse_h26x_sps, parse_mpeg2_seq_hdr};

fn crc32_mpeg2(data: &[u8]) -> u32 {
    crc::Crc::<u32>::new(&crc::CRC_32_MPEG_2).checksum(data)
}

/// Builds a PSI section payload: pointer byte, header, body, CRC.
fn make_section(table_id: u8, version: u8, program_number: u16, body: &[u8]) -> Vec<u8> {
    let mut sec = vec![table_id];
    let slen = (body.len() + 9) as u16; // 5 header bytes after length + body + CRC
    sec.push(0xB0 | ((slen >> 8) as u8 & 0x0F));
    sec.push((slen & 0xFF) as u8);
    sec.push((program_number >> 8) as u8);
    sec.push((program_number & 0xFF) as u8);
    sec.push(0xC0 | (version << 1) | 1);
    sec.push(0); // section_number
    sec.push(0); // last_section
    sec.extend_from_slice(body);
    let crc = crc32_mpeg2(&sec);
    sec.extend_from_slice(&crc.to_be_bytes());
    let mut payload = vec![0u8]; // pointer field
    payload.extend_from_slice(&sec);
    payload
}

fn make_pat(version: u8, programs: &[(u16, u16)]) -> Vec<u8> {
    let mut body = Vec::new();
    for (pn, pid) in programs {
        body.extend_from_slice(&pn.to_be_bytes());
        body.push(0xE0 | ((pid >> 8) as u8 & 0x1F));
        body.push((pid & 0xFF) as u8);
    }
    make_section(0x00, version, 1, &body)
}

fn make_pmt(version: u8, program: u16, pcr_pid: u16, streams: &[(u8, u16)]) -> Vec<u8> {
    let mut body = Vec::new();
    body.push(0xE0 | ((pcr_pid >> 8) as u8 & 0x1F));
    body.push((pcr_pid & 0xFF) as u8);
    body.push(0xF0);
    body.push(0x00); // program_info_length 0
    for (st, pid) in streams {
        body.push(*st);
        body.push(0xE0 | ((pid >> 8) as u8 & 0x1F));
        body.push((pid & 0xFF) as u8);
        body.push(0xF0);
        body.push(0x00); // es_info_length 0
    }
    make_section(0x02, version, program, &body)
}

#[test]
fn pat_parses_and_skips_program_zero() {
    let payload = make_pat(3, &[(0, 0x0010), (1, 0x0100)]);
    let pat = parse_pat(&payload).unwrap();
    assert_eq!(pat.version, 3);
    assert!(pat.current_next);
    assert_eq!(pat.programs.len(), 1);
    assert_eq!(pat.programs[0].program_number, 1);
    assert_eq!(pat.programs[0].pmt_pid, 0x0100);
}

#[test]
fn pat_crc_mismatch_detected() {
    let mut payload = make_pat(3, &[(1, 0x0100)]);
    let n = payload.len();
    payload[n - 1] ^= 0xFF;
    assert!(matches!(parse_pat(&payload), Err(SectionError::CrcMismatch)));
}

#[test]
fn pat_wrong_table_id() {
    let payload = make_section(0x02, 0, 1, &[0xE1, 0x01, 0xF0, 0x00]);
    assert!(matches!(parse_pat(&payload), Err(SectionError::WrongTableId)));
}

#[test]
fn section_errors_reported() {
    assert!(matches!(SectionReader::new(&[]), Err(SectionError::EmptyPayload)));
    assert!(matches!(SectionReader::new(&[0, 0x00, 0xB0]), Err(SectionError::ShortSection)));
    // section_length 2: too short for header plus CRC
    let short = [0u8, 0x00, 0xB0, 0x02, 0, 0, 0, 0, 0, 0, 0, 0];
    assert!(matches!(SectionReader::new(&short), Err(SectionError::InvalidLength)));
    // declared length runs past the payload
    let trunc = [0u8, 0x00, 0xB0, 0x40, 0, 0, 0, 0, 0, 0, 0, 0];
    assert!(matches!(SectionReader::new(&trunc), Err(SectionError::TruncatedSection)));
}

#[test]
fn pmt_parses_streams() {
    let payload = make_pmt(5, 1, 0x0101, &[(0x1B, 0x0101), (0x0F, 0x0102)]);
    let pmt = parse_pmt(&payload).unwrap();
    assert_eq!(pmt.version, 5);
    assert_eq!(pmt.program_number, 1);
    assert_eq!(pmt.pcr_pid, 0x0101);
    assert_eq!(pmt.streams.len(), 2);
    assert_eq!(pmt.streams[0].stream_type, 0x1B);
    assert_eq!(pmt.streams[0].elementary_pid, 0x0101);
    assert_eq!(pmt.streams[1].stream_type, 0x0F);
    assert_eq!(pmt.streams[1].elementary_pid, 0x0102);
}

#[test]
fn sdt_service_name_decoded() {
    // body: ts id, reserved, original network id, reserved, then one service
    let mut body = vec![0x00, 0x01, 0xFF, 0xFF, 0xFF, 0xFF, 0x00, 0x01];
    // service loop: id 1, flags, descriptors-loop length
    let name = b"News";
    let provider = b"Op";
    let desc_len = 2 + 1 + 1 + provider.len() + 1 + name.len();
    body.extend_from_slice(&[0x00, 0x01, 0xFC]);
    body.push(0x80 | ((desc_len >> 8) as u8 & 0x0F));
    body.push((desc_len & 0xFF) as u8);
    // service descriptor 0x48
    body.push(0x48);
    body.push((desc_len - 2) as u8);
    body.push(0x01); // service type
    body.push(provider.len() as u8);
    body.extend_from_slice(provider);
    body.push(name.len() as u8);
    body.extend_from_slice(name);
    let payload = make_section(0x42, 2, 1, &body);
    let (tid, sdt) = parse_sdt(&payload).unwrap();
    assert_eq!(tid, 0x42);
    assert_eq!(sdt.version, 2);
    assert_eq!(sdt.services.len(), 1);
    assert_eq!(sdt.services[0].service_id, 1);
    assert_eq!(sdt.services[0].service_name.as_deref(), Some("News"));
}

#[test]
fn dvb_text_encodings() {
    // UTF-8 announced by 0x15
    let mut utf8 = vec![0x15];
    utf8.extend_from_slice("café".as_bytes());
    assert_eq!(decode_dvb_text(&utf8).as_deref(), Some("café"));
    // invalid UTF-8 after the 0x15 prefix is rejected
    assert_eq!(decode_dvb_text(&[0x15, 0xFF, 0xFE]), None);
    // Latin-1 by codepoint identity, no prefix
    assert_eq!(decode_dvb_text(b"Abc").as_deref(), Some("Abc"));
    // byte below 0x20 consumed, rest read by identity
    assert_eq!(decode_dvb_text(&[0x05, 0x41, 0x42]).as_deref(), Some("AB"));
    assert_eq!(decode_dvb_text(&[]), None);
}

#[test]
fn tdt_and_tot_parse() {
    // TDT: no CRC
    let tdt = [0u8, 0x70, 0x70, 0x05, 0xC0, 0x79, 0x12, 0x34, 0x56];
    let (tid, t) = parse_tdt_tot(&tdt).unwrap();
    assert_eq!(tid, 0x70);
    match t {
        TdtTot::Tdt(b) => assert_eq!(b, vec![0xC0, 0x79, 0x12, 0x34, 0x56]),
        TdtTot::Tot(_) => panic!("expected a TDT"),
    }
    // TOT: CRC over the section bytes
    let mut sec = vec![0x73u8, 0x70, 0x09, 0xC0, 0x79, 0x12, 0x34, 0x56];
    let crc = crc32_mpeg2(&sec);
    sec.extend_from_slice(&crc.to_be_bytes());
    let mut payload = vec![0u8];
    payload.extend_from_slice(&sec);
    let (tid2, t2) = parse_tdt_tot(&payload).unwrap();
    assert_eq!(tid2, 0x73);
    assert!(matches!(t2, TdtTot::Tot(_)));
    // a corrupted TOT CRC is rejected
    let n = payload.len();
    payload[n - 1] ^= 1;
    assert!(matches!(parse_tdt_tot(&payload), Err(SectionError::CrcMismatch)));
}

#[test]
fn adts_header_fields() {
    // syncword FFF, MPEG-4, layer 0, no CRC; 48 kHz (index 3), 2 channels
    let data = [0x00, 0xFF, 0xF1, 0x4C, 0x80, 0x01, 0x3F, 0xFC, 0x00, 0x00];
    let a = parse_aac_adts(&data).unwrap();
    assert_eq!(a.codec, "AAC");
    assert_eq!(a.profile.as_deref(), Some("LC"));
    assert_eq!(a.sample_rate, Some(48000));
    assert_eq!(a.channels, Some(2));
    assert!(parse_aac_adts(&[0u8; 16]).is_none());
}

#[test]
fn mp2_header_fields() {
    // FF FD: MPEG-1, Layer II; 48 kHz (index 1), stereo
    let data = [0xFF, 0xFD, 0x94, 0x00, 0, 0, 0, 0];
    let a = parse_mp2(&data).unwrap();
    assert_eq!(a.codec, "MP2");
    assert_eq!(a.sample_rate, Some(48000));
    assert_eq!(a.channels, Some(2));
}

#[test]
fn ac3_header_fields() {
    // 0B 77 sync; fscod 0 (48 kHz); acmod 7 (3/2) with LFE
    let data = [0x0B, 0x77, 0x00, 0x00, 0x20, 0x00, 0xF0, 0x00];
    let a = parse_ac3(&data).unwrap();
    assert_eq!(a.codec, "AC-3");
    assert_eq!(a.sample_rate, Some(48000));
    assert_eq!(a.channels, Some(6));
}

#[test]
fn latm_reuses_previous_config() {
    // sync 0x2B7 in 11 bits: 0x56 0xE0; next bit (useSameStreamMux) is 1
    let data = [0x56, 0xF0, 0x00, 0x00, 0x00];
    let a = parse_aac_latm(&data).unwrap();
    assert_eq!(a.codec, "AAC");
    assert_eq!(a.profile.as_deref(), Some("LC"));
    assert_eq!(a.sample_rate, None);
    assert_eq!(a.channels, None);
}

#[test]
fn mpeg2_sequence_header_fields() {
    // 00 00 01 B3, 1920x1080, aspect 3, frame rate code 3 (25 Hz)
    let data = [
        0x00, 0x00, 0x01, 0xB3, 0x78, 0x04, 0x38, 0x33, 0x00, 0x00, 0x00, 0x00, 0x00,
    ];
    let v = parse_mpeg2_seq_hdr(&data).unwrap();
    assert_eq!(v.codec, "MPEG-2");
    assert_eq!(v.width, 1920);
    assert_eq!(v.height, 1080);
    assert_eq!(v.fps_millis, 25000);
    assert_eq!(v.chroma, "4:2:0");
}

/// A little big-endian bit writer for building SPS test vectors.
struct BitWriter {
    bytes: Vec<u8>,
    used: u8,
}

impl BitWriter {
    fn new() -> BitWriter {
        BitWriter { bytes: Vec::new(), used: 0 }
    }

    fn put_bit(&mut self, b: u32) {
        if self.used == 0 {
            self.bytes.push(0);
            self.used = 8;
        }
        self.used -= 1;
        if b != 0 {
            let n = self.bytes.len();
            self.bytes[n - 1] |= 1 << self.used;
        }
    }

    fn put_bits(&mut self, v: u32, n: u32) {
        for i in (0..n).rev() {
            self.put_bit((v >> i) & 1);
        }
    }

    fn put_ue(&mut self, v: u32) {
        let x = v + 1;
        let bits = 32 - x.leading_zeros();
        for _ in 0..bits - 1 {
            self.put_bit(0);
        }
        self.put_bits(x, bits);
    }

    fn finish(mut self) -> Vec<u8> {
        self.put_bit(1);
        while self.used != 0 {
            self.put_bit(0);
        }
        self.bytes
    }
}

fn baseline_sps_1920x1088() -> Vec<u8> {
    let mut w = BitWriter::new();
    w.put_bits(66, 8); // profile_idc: baseline
    w.put_bits(0, 16); // constraint flags + level
    w.put_ue(0); // seq_parameter_set_id
    w.put_ue(0); // log2_max_frame_num_minus4
    w.put_ue(0); // pic_order_cnt_type 0
    w.put_ue(0); // log2_max_pic_order_cnt_lsb_minus4
    w.put_ue(0); // max_num_ref_frames
    w.put_bit(0); // gaps_in_frame_num_value_allowed
    w.put_ue(119); // pic_width_in_mbs_minus1: 120 * 16 = 1920
    w.put_ue(67); // pic_height_in_map_units_minus1: 68 * 16 = 1088
    w.put_bit(1); // frame_mbs_only
    w.put_bit(0); // direct_8x8_inference
    w.put_bit(0); // frame_cropping
    w.put_bit(0); // vui_parameters_present
    w.finish()
}

#[test]
fn avc_sps_geometry() {
    let sps = baseline_sps_1920x1088();
    let v = parse_avc_sps(&sps).unwrap();
    assert_eq!(v.codec, "H.264");
    assert_eq!(v.width, 1920);
    assert_eq!(v.height, 1088);
    assert_eq!(v.fps_millis, 0);
    assert_eq!(v.chroma, "4:2:0");
    assert!(!v.interlaced);
}

#[test]
fn h26x_scan_finds_sps_nal() {
    let mut es = vec![0xAAu8, 0xBB, 0x00, 0x00, 0x01, 0x67];
    es.extend_from_slice(&baseline_sps_1920x1088());
    let v = parse_h26x_sps(&es).unwrap();
    assert_eq!(v.width, 1920);
    assert_eq!(v.height, 1088);
    // a junk buffer with a lone sync-like byte parses nothing
    assert!(parse_h26x_sps(&[0x47u8, 1, 2, 3, 4, 5, 6, 7]).is_none());
}


#[test]
fn emulation_prevention_removal() {
    // every 00 00 03 collapses to 00 00, a trailing triple included
    assert_eq!(remove_ep(&[0x00, 0x00, 0x03]), vec![0x00, 0x00]);
    assert_eq!(remove_ep(&[0x00, 0x00, 0x03, 0x01]), vec![0x00, 0x00, 0x01]);
    assert_eq!(
        remove_ep(&[0xAA, 0x00, 0x00, 0x03, 0x00, 0x00, 0x03, 0xBB]),
        vec![0xAA, 0x00, 0x00, 0x00, 0x00, 0xBB]
    );
    // untouched data passes through
    assert_eq!(remove_ep(&[0x00, 0x00, 0x02, 0x03]), vec![0x00, 0x00, 0x02, 0x03]);
    assert_eq!(
        remove_emulation_prevention(&[0x00, 0x00, 0x03]),
        vec![0x00, 0x00]
    );
}
