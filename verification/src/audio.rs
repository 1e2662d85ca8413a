//! Audio codec header parsers: ADTS-AAC, LATM-AAC, MPEG audio Layer II
//! and AC-3. Each scans the payload for its sync pattern and reads the
//! format fields of the first frame found.
use vstd::prelude::*;
use vstd::string::StringExecFns;

use crate::types::AudioInfo;

verus! {

/// The ADTS sampling-frequency table.
pub open spec fn adts_rate(idx: u8) -> u32 {
    if idx == 0 {
        96000
    } else if idx == 1 {
        88200
    } else if idx == 2 {
        64000
    } else if idx == 3 {
        48000
    } else if idx == 4 {
        44100
    } else if idx == 5 {
        32000
    } else if idx == 6 {
        24000
    } else if idx == 7 {
        22050
    } else if idx == 8 {
        16000
    } else if idx == 9 {
        12000
    } else if idx == 10 {
        11025
    } else if idx == 11 {
        8000
    } else {
        0
    }
}

/// Executable ADTS rate lookup.
fn adts_rate_of(idx: u8) -> (r: u32)
    ensures
        r == adts_rate(idx),
{
    match idx {
        0 => 96000,
        1 => 88200,
        2 => 64000,
        3 => 48000,
        4 => 44100,
        5 => 32000,
        6 => 24000,
        7 => 22050,
        8 => 16000,
        9 => 12000,
        10 => 11025,
        11 => 8000,
        _ => 0,
    }
}

/// An ADTS sync word at byte `i`: 0xFFF with the layer bits clear.
pub open spec fn adts_sync_at(d: Seq<u8>, i: int) -> bool {
    d[i] == 0xFF && (d[i + 1] & 0xF6) == 0xF0
}

/// The first ADTS sync position at or after `i` with a whole header left.
pub open spec fn adts_find(d: Seq<u8>, i: int) -> Option<int>
    decreases d.len() - i when i >= 0
{
    if i < 0 || i + 7 >= d.len() {
        None
    } else if adts_sync_at(d, i) {
        Some(i)
    } else {
        adts_find(d, i + 1)
    }
}

/// Worker matching [`adts_find`].
fn adts_scan(d: &[u8], i: usize) -> (r: Option<usize>)
    requires
        i <= d@.len(),
    ensures
        match r {
            Some(j) => adts_find(d@, i as int) == Some(j as int) && j + 7 < d@.len(),
            None => adts_find(d@, i as int) is None,
        },
    decreases d@.len() - i,
{
    if d.len() - i <= 7 {
        None
    } else if d[i] == 0xFF && (d[i + 1] & 0xF6) == 0xF0 {
        Some(i)
    } else {
        adts_scan(d, i + 1)
    }
}

/// Parses the first ADTS header in the payload: the sampling frequency
/// comes from the frequency index, the channel count from the channel
/// configuration, and the profile is reported as LC.
pub fn parse_aac_adts(data: &[u8]) -> (r: Option<AudioInfo>)
    ensures
        r is Some <==> adts_find(data@, 0) is Some,
        r matches Some(a) ==> ({
            let i = adts_find(data@, 0)->0;
            &&& a.codec@ == "AAC"@
            &&& a.profile matches Some(p) && p@ == "LC"@
            &&& a.sample_rate == Some(adts_rate((data@[i + 2] & 0x3C) >> 2))
            &&& a.channels == Some(
                ((data@[i + 2] & 0x01) << 2) | ((data@[i + 3] & 0xC0) >> 6),
            )
        }),
{
    match adts_scan(data, 0) {
        None => None,
        Some(i) => {
            let n = data.len();
            let sr_index = (data[i + 2] & 0x3C) >> 2;
            let channel_cfg = ((data[i + 2] & 0x01) << 2) | ((data[i + 3] & 0xC0) >> 6);
            Some(
                AudioInfo {
                    codec: String::from_str("AAC"),
                    profile: Some(String::from_str("LC")),
                    sample_rate: Some(adts_rate_of(sr_index)),
                    channels: Some(channel_cfg),
                },
            )
        },
    }
}

/// The MPEG audio sampling rate for a (version, index) pair, or 0 when the
/// pair is reserved.
pub open spec fn mp2_rate(version: u8, idx: u8) -> u32 {
    if version == 3 && idx == 0 {
        44100
    } else if version == 3 && idx == 1 {
        48000
    } else if version == 3 && idx == 2 {
        32000
    } else if version == 2 && idx == 0 {
        22050
    } else if version == 2 && idx == 1 {
        24000
    } else if version == 2 && idx == 2 {
        16000
    } else if version == 0 && idx == 0 {
        11025
    } else if version == 0 && idx == 1 {
        12000
    } else if version == 0 && idx == 2 {
        8000
    } else {
        0
    }
}

/// Executable MPEG audio rate lookup.
fn mp2_rate_of(version: u8, idx: u8) -> (r: u32)
    ensures
        r == mp2_rate(version, idx),
{
    match (version, idx) {
        (3, 0) => 44100,
        (3, 1) => 48000,
        (3, 2) => 32000,
        (2, 0) => 22050,
        (2, 1) => 24000,
        (2, 2) => 16000,
        (0, 0) => 11025,
        (0, 1) => 12000,
        (0, 2) => 8000,
        _ => 0,
    }
}

/// An acceptable MPEG audio Layer II frame head at byte `i`: the 11-bit
/// sync, layer bits for Layer II, and a non-reserved rate combination.
pub open spec fn mp2_frame_at(d: Seq<u8>, i: int) -> bool {
    &&& d[i] == 0xFF
    &&& (d[i + 1] & 0xE0) == 0xE0
    &&& ((d[i + 1] >> 1) & 0x03) == 0x02
    &&& mp2_rate((d[i + 1] >> 3) & 0x03, (d[i + 2] >> 2) & 0x03) != 0
}

/// The first acceptable Layer II frame head at or after `i`.
pub open spec fn mp2_find(d: Seq<u8>, i: int) -> Option<int>
    decreases d.len() - i when i >= 0
{
    if i < 0 || i + 4 >= d.len() {
        None
    } else if mp2_frame_at(d, i) {
        Some(i)
    } else {
        mp2_find(d, i + 1)
    }
}

/// Worker matching [`mp2_find`].
fn mp2_scan(d: &[u8], i: usize) -> (r: Option<usize>)
    requires
        i <= d@.len(),
    ensures
        match r {
            Some(j) => mp2_find(d@, i as int) == Some(j as int) && j + 4 < d@.len(),
            None => mp2_find(d@, i as int) is None,
        },
    decreases d@.len() - i,
{
    if d.len() - i <= 4 {
        None
    } else if d[i] == 0xFF && (d[i + 1] & 0xE0) == 0xE0 && ((d[i + 1] >> 1) & 0x03) == 0x02
        && mp2_rate_of((d[i + 1] >> 3) & 0x03, (d[i + 2] >> 2) & 0x03) != 0 {
        Some(i)
    } else {
        mp2_scan(d, i + 1)
    }
}

/// The channel count from the MPEG audio channel-mode bits: mono is one
/// channel, every other mode two.
pub open spec fn mp2_channels(mode: u8) -> u8 {
    if mode == 3 {
        1
    } else {
        2
    }
}

/// Parses the first MPEG audio Layer II frame header in the payload.
pub fn parse_mp2(data: &[u8]) -> (r: Option<AudioInfo>)
    ensures
        r is Some <==> mp2_find(data@, 0) is Some,
        r matches Some(a) ==> ({
            let i = mp2_find(data@, 0)->0;
            &&& a.codec@ == "MP2"@
            &&& a.profile is None
            &&& a.sample_rate == Some(
                mp2_rate((data@[i + 1] >> 3) & 0x03, (data@[i + 2] >> 2) & 0x03),
            )
            &&& a.channels == Some(mp2_channels((data@[i + 3] >> 6) & 0x03))
        }),
{
    match mp2_scan(data, 0) {
        None => None,
        Some(i) => {
            let n = data.len();
            let version = (data[i + 1] >> 3) & 0x03;
            let sr_idx = (data[i + 2] >> 2) & 0x03;
            let mode = (data[i + 3] >> 6) & 0x03;
            let channels: u8 = if mode == 3 {
                1
            } else {
                2
            };
            Some(
                AudioInfo {
                    codec: String::from_str("MP2"),
                    profile: None,
                    sample_rate: Some(mp2_rate_of(version, sr_idx)),
                    channels: Some(channels),
                },
            )
        },
    }
}

/// The AC-3 sampling rate for a frequency code, or 0 when reserved.
pub open spec fn ac3_rate(fscod: u8) -> u32 {
    if fscod == 0 {
        48000
    } else if fscod == 1 {
        44100
    } else if fscod == 2 {
        32000
    } else {
        0
    }
}

/// The AC-3 channel count for an audio coding mode, before the LFE channel.
pub open spec fn ac3_channels(acmod: u8) -> u8 {
    if acmod == 0 {
        2
    } else if acmod == 1 {
        1
    } else if acmod == 2 {
        2
    } else if acmod == 3 {
        3
    } else if acmod == 4 {
        3
    } else if acmod == 5 {
        4
    } else if acmod == 6 {
        4
    } else {
        5
    }
}

/// An AC-3 sync word at byte `i`.
pub open spec fn ac3_sync_at(d: Seq<u8>, i: int) -> bool {
    d[i] == 0x0B && d[i + 1] == 0x77
}

/// The first AC-3 sync position at or after `i` with the header fields in
/// range.
pub open spec fn ac3_find(d: Seq<u8>, i: int) -> Option<int>
    decreases d.len() - i when i >= 0
{
    if i < 0 || i + 7 > d.len() {
        None
    } else if ac3_sync_at(d, i) {
        Some(i)
    } else {
        ac3_find(d, i + 1)
    }
}

/// Worker matching [`ac3_find`].
fn ac3_scan(d: &[u8], i: usize) -> (r: Option<usize>)
    requires
        i <= d@.len(),
    ensures
        match r {
            Some(j) => ac3_find(d@, i as int) == Some(j as int) && j + 7 <= d@.len(),
            None => ac3_find(d@, i as int) is None,
        },
    decreases d@.len() - i,
{
    if d.len() - i < 7 {
        None
    } else if d[i] == 0x0B && d[i + 1] == 0x77 {
        Some(i)
    } else {
        ac3_scan(d, i + 1)
    }
}

/// Parses the first AC-3 sync frame header in the payload: sampling rate
/// from fscod, channel map from acmod, plus one channel when the LFE bit
/// is set (mono carries no LFE bit).
pub fn parse_ac3(data: &[u8]) -> (r: Option<AudioInfo>)
    ensures
        r is Some <==> ac3_find(data@, 0) is Some,
        r matches Some(a) ==> ({
            let i = ac3_find(data@, 0)->0;
            let acmod = (data@[i + 6] >> 5) & 0x07;
            let lfe = acmod != 1 && ((data@[i + 6] >> 4) & 0x01) == 1;
            &&& a.codec@ == "AC-3"@
            &&& a.profile is None
            &&& a.sample_rate == Some(ac3_rate((data@[i + 4] >> 6) & 0x03))
            &&& a.channels == Some(
                (ac3_channels(acmod) + if lfe {
                    1u8
                } else {
                    0u8
                }) as u8,
            )
        }),
{
    match ac3_scan(data, 0) {
        None => None,
        Some(i) => {
            let n = data.len();
            let fscod = (data[i + 4] >> 6) & 0x03;
            let acmod = (data[i + 6] >> 5) & 0x07;
            let sample_rate: u32 = match fscod {
                0 => 48000,
                1 => 44100,
                2 => 32000,
                _ => 0,
            };
            let channels: u8 = match acmod {
                0 => 2,
                1 => 1,
                2 => 2,
                3 => 3,
                4 => 3,
                5 => 4,
                6 => 4,
                _ => 5,
            };
            let lfe: bool = if acmod == 1 {
                false
            } else {
                (data[i + 6] >> 4) & 0x01 == 1
            };
            Some(
                AudioInfo {
                    codec: String::from_str("AC-3"),
                    profile: None,
                    sample_rate: Some(sample_rate),
                    channels: Some(
                        channels + if lfe {
                            1
                        } else {
                            0
                        },
                    ),
                },
            )
        },
    }
}

/// The bit at `byte_offset` bytes plus `bit_offset` bits into the data,
/// read as false past the end.
pub open spec fn latm_bit(d: Seq<u8>, byte_offset: int, bit_offset: int) -> bool {
    let i = 8 * byte_offset + bit_offset;
    0 <= i < 8 * d.len() && crate::bits::bit_at(d, i) == 1
}

/// The value of `n` bits starting at the given offset, big-endian, with
/// bits past the end read as zero.
pub open spec fn latm_bits(d: Seq<u8>, byte_offset: int, bit_offset: int, n: nat) -> u32
    decreases n,
{
    if n == 0 {
        0
    } else {
        (latm_bits(d, byte_offset, bit_offset, (n - 1) as nat) * 2 + (if latm_bit(
            d,
            byte_offset,
            bit_offset + n - 1,
        ) {
            1int
        } else {
            0int
        })) as u32
    }
}

/// Extracts a single bit at the given byte and bit offset; out-of-range
/// positions read as false.
pub fn get_bit(data: &[u8], byte_offset: usize, bit_offset: usize) -> (r: bool)
    requires
        data@.len() < 0x2000000,
        byte_offset < 0x2000000,
        bit_offset < 0x4000000,
    ensures
        r == latm_bit(data@, byte_offset as int, bit_offset as int),
{
    let byte_idx = byte_offset + bit_offset / 8;
    let bit_idx = 7 - (bit_offset % 8);
    if byte_idx >= data.len() {
        return false;
    }
    let r = ((data[byte_idx] as u32) >> (bit_idx as u32)) & 1 != 0;
    proof {
        let i = 8 * (byte_offset as int) + bit_offset as int;
        assert(i / 8 == byte_offset + bit_offset / 8);
        assert(i % 8 == bit_offset % 8);
        assert(forall|x: u32, s: u32| s < 32 ==> ((x >> s) & 1) < 2) by (bit_vector);
    }
    r
}

/// Extracts `n` bits at the given byte and bit offset, big-endian.
pub fn get_bits(data: &[u8], byte_offset: usize, bit_offset: usize, num_bits: usize) -> (r: u32)
    requires
        data@.len() < 0x2000000,
        byte_offset < 0x2000000,
        bit_offset < 0x2000000,
        num_bits <= 32,
    ensures
        r == latm_bits(data@, byte_offset as int, bit_offset as int, num_bits as nat),
{
    let mut acc: u32 = 0;
    let mut k: usize = 0;
    proof {
        assert((1u64 << 0u64) == 1) by (bit_vector);
    }
    while k < num_bits
        invariant
            data@.len() < 0x2000000,
            byte_offset < 0x2000000,
            bit_offset < 0x2000000,
            num_bits <= 32,
            k <= num_bits,
            acc == latm_bits(data@, byte_offset as int, bit_offset as int, k as nat),
            acc < (1u64 << (k as u64)),
        decreases num_bits - k,
    {
        proof {
            assert(forall|m: u64|
                m < 32 ==> #[trigger] (1u64 << (m + 1)) == 2 * (1u64 << m) && (1u64 << (m + 1))
                    <= 0x100000000u64) by (bit_vector);
            assert(forall|m: u64| m <= 31 ==> #[trigger] (1u64 << m) <= 0x80000000u64)
                by (bit_vector);
        }
        let b = get_bit(data, byte_offset, bit_offset + k);
        acc = acc * 2 + if b {
            1
        } else {
            0
        };
        k += 1;
    }
    acc
}

/// The audio-object-type names reported for LATM AAC.
pub open spec fn latm_profile(aot: u32) -> Seq<char> {
    if aot == 1 {
        "Main"@
    } else if aot == 2 {
        "LC"@
    } else if aot == 3 {
        "SSR"@
    } else if aot == 4 {
        "LTP"@
    } else if aot == 5 {
        "SBR"@
    } else {
        "LC"@
    }
}

/// The LATM channel map: configurations 1..=6 name that many channels,
/// 7 names eight, 0 defers to the object-specific config, others default
/// to stereo.
pub open spec fn latm_channels(cfg: u32) -> u8 {
    if cfg == 0 {
        0
    } else if cfg == 1 {
        1
    } else if cfg == 2 {
        2
    } else if cfg == 3 {
        3
    } else if cfg == 4 {
        4
    } else if cfg == 5 {
        5
    } else if cfg == 6 {
        6
    } else if cfg == 7 {
        8
    } else {
        2
    }
}

/// The AudioSpecificConfig fields read at the given offset: object type,
/// sampling rate and channel count. `None` when the data ends first or the
/// rate or channel count comes out zero.
pub open spec fn latm_asc_spec(d: Seq<u8>, byte_offset: int, bit_offset: int) -> Option<
    (u32, u8, Seq<char>),
> {
    if byte_offset + 2 >= d.len() {
        None
    } else {
        let aot = latm_bits(d, byte_offset, bit_offset, 5);
        let sfi = latm_bits(d, byte_offset, bit_offset + 5, 4);
        let rate = if sfi == 15 {
            0
        } else {
            adts_rate(sfi as u8)
        };
        let ch_off = if sfi == 15 {
            bit_offset + 9 + 24
        } else {
            bit_offset + 9
        };
        let ch = latm_channels(latm_bits(d, byte_offset, ch_off, 4));
        if rate > 0 && ch > 0 {
            Some((rate, ch, latm_profile(aot)))
        } else {
            None
        }
    }
}

/// The StreamMuxConfig fields read at the given offset: only a single
/// program with a single layer is accepted; the AudioSpecificConfig
/// follows the fixed 15 config bits.
pub open spec fn latm_smc_spec(d: Seq<u8>, byte_offset: int, bit_offset: int) -> Option<
    (u32, u8, Seq<char>),
> {
    if byte_offset + 4 >= d.len() {
        None
    } else if latm_bits(d, byte_offset, bit_offset + 8, 4) != 0 {
        None  // numProgram
    } else if latm_bits(d, byte_offset, bit_offset + 12, 3) != 0 {
        None  // numLayer
    } else {
        latm_asc_spec(d, byte_offset, bit_offset + 15)
    }
}

/// Parses a StreamMuxConfig; `bit_offset` advances past the fixed fields.
pub fn parse_stream_mux_config(data: &[u8], byte_offset: usize, bit_offset: &mut usize) -> (r:
    Option<(u32, u8, String)>)
    requires
        data@.len() < 0x1000000,
        byte_offset < 0x1000000,
        *old(bit_offset) < 0x1000000,
    ensures
        r is Some <==> latm_smc_spec(data@, byte_offset as int, *old(bit_offset) as int) is Some,
        r matches Some((rate, ch, prof)) ==> ({
            let m = latm_smc_spec(data@, byte_offset as int, *old(bit_offset) as int)->0;
            rate == m.0 && ch == m.1 && prof@ == m.2
        }),
{
    if byte_offset + 4 >= data.len() {
        return None;
    }
    let start = *bit_offset;
    *bit_offset = start + 2 + 6;  // audioMuxVersion, allStreamsSameTimeFraming, numSubFrames
    let num_program = get_bits(data, byte_offset, start + 8, 4);
    *bit_offset = start + 12;
    if num_program != 0 {
        return None;
    }
    let num_layer = get_bits(data, byte_offset, start + 12, 3);
    *bit_offset = start + 15;
    if num_layer != 0 {
        return None;
    }
    parse_audio_specific_config_latm(data, byte_offset, bit_offset)
}

/// Parses an AudioSpecificConfig at the current bit offset.
pub fn parse_audio_specific_config_latm(
    data: &[u8],
    byte_offset: usize,
    bit_offset: &mut usize,
) -> (r: Option<(u32, u8, String)>)
    requires
        data@.len() < 0x1000000,
        byte_offset < 0x1000000,
        *old(bit_offset) < 0x1100000,
    ensures
        r is Some <==> latm_asc_spec(data@, byte_offset as int, *old(bit_offset) as int) is Some,
        r matches Some((rate, ch, prof)) ==> ({
            let m = latm_asc_spec(data@, byte_offset as int, *old(bit_offset) as int)->0;
            rate == m.0 && ch == m.1 && prof@ == m.2
        }),
{
    if byte_offset + 2 >= data.len() {
        return None;
    }
    let start = *bit_offset;
    let aot = get_bits(data, byte_offset, start, 5);
    let sfi = get_bits(data, byte_offset, start + 5, 4);
    let rate: u32 = if sfi == 15 {
        0
    } else {
        adts_rate_of(sfi as u8)
    };
    let ch_off: usize = if sfi == 15 {
        start + 9 + 24
    } else {
        start + 9
    };
    let cfg = get_bits(data, byte_offset, ch_off, 4);
    let ch: u8 = if cfg == 0 {
        0
    } else if cfg == 1 {
        1
    } else if cfg == 2 {
        2
    } else if cfg == 3 {
        3
    } else if cfg == 4 {
        4
    } else if cfg == 5 {
        5
    } else if cfg == 6 {
        6
    } else if cfg == 7 {
        8
    } else {
        2
    };
    *bit_offset = ch_off + 4;
    if rate > 0 && ch > 0 {
        let profile: String = if aot == 1 {
            String::from_str("Main")
        } else if aot == 2 {
            String::from_str("LC")
        } else if aot == 3 {
            String::from_str("SSR")
        } else if aot == 4 {
            String::from_str("LTP")
        } else if aot == 5 {
            String::from_str("SBR")
        } else {
            String::from_str("LC")
        };
        Some((rate, ch, profile))
    } else {
        None
    }
}

/// The LATM sync word (11 bits, 0x2B7) at byte `i`.
pub open spec fn latm_sync_at(d: Seq<u8>, i: int) -> bool {
    ((d[i] as int) * 8 + (d[i + 1] as int) / 32) == 0x2B7
}

/// The outcome of the LATM scan from byte `i`: on the first sync whose
/// AudioMuxElement reuses the previous configuration, a bare AAC record
/// (`true`); on the first sync with a readable StreamMuxConfig, its fields
/// (`false`); a sync with an unreadable new configuration is skipped.
pub open spec fn latm_spec(d: Seq<u8>, i: int) -> Option<(u32, u8, Seq<char>, bool)>
    decreases d.len() - i when i >= 0
{
    if i < 0 || i + 3 >= d.len() {
        None
    } else if latm_sync_at(d, i) {
        if latm_bit(d, i, 11) {
            Some((0, 0, "LC"@, true))
        } else {
            match latm_smc_spec(d, i, 12) {
                Some((rate, ch, prof)) => Some((rate, ch, prof, false)),
                None => latm_spec(d, i + 1),
            }
        }
    } else {
        latm_spec(d, i + 1)
    }
}

/// Recursive worker matching [`latm_spec`].
fn latm_scan(data: &[u8], i: usize) -> (r: Option<(u32, u8, Option<String>, bool)>)
    requires
        data@.len() < 0x1000000,
        i <= data@.len(),
    ensures
        r is Some <==> latm_spec(data@, i as int) is Some,
        r matches Some((rate, ch, prof, basic)) ==> ({
            let m = latm_spec(data@, i as int)->0;
            &&& rate == m.0
            &&& ch == m.1
            &&& (prof matches Some(p) ==> p@ == m.2)
            &&& prof is Some
            &&& basic == m.3
        }),
    decreases data@.len() - i,
{
    if data.len() - i <= 3 {
        return None;
    }
    if (data[i] as u16) * 8 + (data[i + 1] as u16) / 32 == 0x2B7 {
        if get_bit(data, i, 11) {
            Some((0, 0, Some(String::from_str("LC")), true))
        } else {
            let mut bit_offset: usize = 12;
            match parse_stream_mux_config(data, i, &mut bit_offset) {
                Some((rate, ch, prof)) => Some((rate, ch, Some(prof), false)),
                None => latm_scan(data, i + 1),
            }
        }
    } else {
        latm_scan(data, i + 1)
    }
}

/// Parses an AAC LATM (AudioMuxElement) header: either the fields of a new
/// StreamMuxConfig, or a bare AAC record when the element reuses the
/// previous configuration.
pub fn parse_aac_latm(data: &[u8]) -> (r: Option<AudioInfo>)
    requires
        data@.len() < 0x1000000,
    ensures
        r is Some <==> latm_spec(data@, 0) is Some,
        r matches Some(a) ==> ({
            let m = latm_spec(data@, 0)->0;
            &&& a.codec@ == "AAC"@
            &&& (a.profile matches Some(p) ==> p@ == (if m.3 {
                "LC"@
            } else {
                m.2
            }))
            &&& a.profile is Some
            &&& (m.3 ==> a.sample_rate is None && a.channels is None)
            &&& (!m.3 ==> a.sample_rate == Some(m.0) && a.channels == Some(m.1))
        }),
{
    match latm_scan(data, 0) {
        None => None,
        Some((rate, ch, prof, basic)) => {
            if basic {
                Some(
                    AudioInfo {
                        codec: String::from_str("AAC"),
                        profile: Some(String::from_str("LC")),
                        sample_rate: None,
                        channels: None,
                    },
                )
            } else {
                Some(
                    AudioInfo {
                        codec: String::from_str("AAC"),
                        profile: prof,
                        sample_rate: Some(rate),
                        channels: Some(ch),
                    },
                )
            }
        },
    }
}

/// Dispatches audio parsing by stream type: Layer II for 0x03/0x04,
/// ADTS-AAC for 0x0F, LATM-AAC for 0x11 and AC-3 for 0x81.
pub fn parse_audio_codec(stream_type: u8, data: &[u8]) -> (r: Option<AudioInfo>)
    requires
        data@.len() < 0x1000000,
    ensures
        stream_type == 0x03 || stream_type == 0x04 ==> (r is Some <==> mp2_find(data@, 0)
            is Some),
        (stream_type == 0x03 || stream_type == 0x04) ==> (r matches Some(a) ==> {
            let i = mp2_find(data@, 0)->0;
            &&& a.codec@ == "MP2"@
            &&& a.profile is None
            &&& a.sample_rate == Some(
                mp2_rate((data@[i + 1] >> 3) & 0x03, (data@[i + 2] >> 2) & 0x03),
            )
            &&& a.channels == Some(mp2_channels((data@[i + 3] >> 6) & 0x03))
        }),
        stream_type == 0x0F ==> (r is Some <==> adts_find(data@, 0) is Some),
        stream_type == 0x0F ==> (r matches Some(a) ==> {
            let i = adts_find(data@, 0)->0;
            &&& a.codec@ == "AAC"@
            &&& a.profile matches Some(p) && p@ == "LC"@
            &&& a.sample_rate == Some(adts_rate((data@[i + 2] & 0x3C) >> 2))
            &&& a.channels == Some(
                ((data@[i + 2] & 0x01) << 2) | ((data@[i + 3] & 0xC0) >> 6),
            )
        }),
        stream_type == 0x11 ==> (r is Some <==> latm_spec(data@, 0) is Some),
        stream_type == 0x11 ==> (r matches Some(a) ==> {
            let m = latm_spec(data@, 0)->0;
            &&& a.codec@ == "AAC"@
            &&& (a.profile matches Some(p) ==> p@ == (if m.3 {
                "LC"@
            } else {
                m.2
            }))
            &&& a.profile is Some
            &&& (m.3 ==> a.sample_rate is None && a.channels is None)
            &&& (!m.3 ==> a.sample_rate == Some(m.0) && a.channels == Some(m.1))
        }),
        stream_type == 0x81 ==> (r is Some <==> ac3_find(data@, 0) is Some),
        stream_type == 0x81 ==> (r matches Some(a) ==> {
            let i = ac3_find(data@, 0)->0;
            let acmod = (data@[i + 6] >> 5) & 0x07;
            let lfe = acmod != 1 && ((data@[i + 6] >> 4) & 0x01) == 1;
            &&& a.codec@ == "AC-3"@
            &&& a.profile is None
            &&& a.sample_rate == Some(ac3_rate((data@[i + 4] >> 6) & 0x03))
            &&& a.channels == Some(
                (ac3_channels(acmod) + if lfe {
                    1u8
                } else {
                    0u8
                }) as u8,
            )
        }),
        !(stream_type == 0x03 || stream_type == 0x04 || stream_type == 0x0F || stream_type
            == 0x11 || stream_type == 0x81) ==> r is None,
{
    match stream_type {
        0x03 | 0x04 => parse_mp2(data),
        0x0F => parse_aac_adts(data),
        0x11 => parse_aac_latm(data),
        0x81 => parse_ac3(data),
        _ => None,
    }
}

} // verus!
