//! Video codec header parsers: MPEG-2 sequence header and H.264/HEVC
//! sequence parameter sets, the latter decoded bit-exactly with
//! Exp-Golomb values after emulation-prevention removal.
use vstd::prelude::*;
use vstd::string::StringExecFns;

use crate::bits::{bits_val, remove_ep, remove_ep_spec, se, se_spec, ue, ue_spec};
use crate::types::VideoInfo;

verus! {

/// A fixed-width bit read: the value of `n` bits at `pos` and the next
/// position, or `None` when the data ends first.
pub open spec fn rb_spec(d: Seq<u8>, pos: int, n: nat) -> Option<(u32, int)> {
    if 0 <= pos && pos + n <= 8 * d.len() {
        Some((bits_val(d, pos, n) as u32, pos + n))
    } else {
        None
    }
}

/// Executable fixed-width bit read matching [`rb_spec`].
fn rb(d: &[u8], pos: usize, n: usize) -> (r: Option<(u32, usize)>)
    requires
        d@.len() < 0x1000000,
        pos <= 8 * d@.len(),
        n <= 32,
    ensures
        match r {
            Some((v, p)) => rb_spec(d@, pos as int, n as nat) == Some((v, p as int)) && p <= 8
                * d@.len(),
            None => rb_spec(d@, pos as int, n as nat) is None,
        },
{
    if 8 * d.len() - pos < n {
        return None;
    }
    let v = crate::bits::read_bits(d, pos, n);
    Some((v, pos + n))
}

/// Skips `n` signed Exp-Golomb values; a value that cannot be read leaves
/// the position in place and is treated as zero, as the scaling-list walk
/// does.
pub open spec fn skip_ses_spec(d: Seq<u8>, pos: int, n: nat) -> int
    decreases n,
{
    if n == 0 {
        pos
    } else {
        match se_spec(d, pos) {
            Some((v, p)) => skip_ses_spec(d, p, (n - 1) as nat),
            None => skip_ses_spec(d, pos, (n - 1) as nat),
        }
    }
}

/// Executable worker matching [`skip_ses_spec`].
fn skip_ses(d: &[u8], pos: usize, n: usize) -> (r: usize)
    requires
        d@.len() < 0x1000000,
        pos <= 8 * d@.len(),
    ensures
        r == skip_ses_spec(d@, pos as int, n as nat),
        r <= 8 * d@.len(),
    decreases n,
{
    if n == 0 {
        pos
    } else {
        match se(d, pos) {
            Some((v, p)) => skip_ses(d, p, n - 1),
            None => skip_ses(d, pos, n - 1),
        }
    }
}

/// Skips `n` strict signed Exp-Golomb values: any failure fails the walk.
pub open spec fn strict_ses_spec(d: Seq<u8>, pos: int, n: nat) -> Option<int>
    decreases n,
{
    if n == 0 {
        Some(pos)
    } else {
        match se_spec(d, pos) {
            Some((v, p)) => strict_ses_spec(d, p, (n - 1) as nat),
            None => None,
        }
    }
}

/// Executable worker matching [`strict_ses_spec`].
fn strict_ses(d: &[u8], pos: usize, n: usize) -> (r: Option<usize>)
    requires
        d@.len() < 0x1000000,
        pos <= 8 * d@.len(),
    ensures
        match r {
            Some(p) => strict_ses_spec(d@, pos as int, n as nat) == Some(p as int) && p <= 8
                * d@.len(),
            None => strict_ses_spec(d@, pos as int, n as nat) is None,
        },
    decreases n,
{
    if n == 0 {
        Some(pos)
    } else {
        match se(d, pos) {
            Some((v, p)) => strict_ses(d, p, n - 1),
            None => None,
        }
    }
}

/// Walks the scaling-list flags: for each of `lists` lists, one presence
/// bit, and for a present list its deltas (16 or 64 for list index at
/// least 6).
pub open spec fn scaling_lists_spec(d: Seq<u8>, pos: int, idx: nat, lists: nat) -> Option<int>
    decreases lists - idx when idx <= lists
{
    if idx >= lists {
        Some(pos)
    } else {
        match rb_spec(d, pos, 1) {
            None => None,
            Some((flag, p)) => {
                let size: nat = if idx < 6 {
                    16
                } else {
                    64
                };
                let p2 = if flag != 0 {
                    skip_ses_spec(d, p, size)
                } else {
                    p
                };
                scaling_lists_spec(d, p2, idx + 1, lists)
            },
        }
    }
}

/// Executable worker matching [`scaling_lists_spec`].
fn scaling_lists(d: &[u8], pos: usize, idx: usize, lists: usize) -> (r: Option<usize>)
    requires
        d@.len() < 0x1000000,
        pos <= 8 * d@.len(),
        idx <= lists,
    ensures
        match r {
            Some(p) => scaling_lists_spec(d@, pos as int, idx as nat, lists as nat) == Some(
                p as int,
            ) && p <= 8 * d@.len(),
            None => scaling_lists_spec(d@, pos as int, idx as nat, lists as nat) is None,
        },
    decreases lists - idx,
{
    if idx >= lists {
        Some(pos)
    } else {
        match rb(d, pos, 1) {
            None => None,
            Some((flag, p)) => {
                let size: usize = if idx < 6 {
                    16
                } else {
                    64
                };
                let p2 = if flag != 0 {
                    skip_ses(d, p, size)
                } else {
                    p
                };
                scaling_lists(d, p2, idx + 1, lists)
            },
        }
    }
}

/// Whether a profile carries the chroma/bit-depth/scaling fields.
pub open spec fn high_profile(p: u32) -> bool {
    p == 100 || p == 110 || p == 122 || p == 244 || p == 44 || p == 83 || p == 86 || p == 118
        || p == 128 || p == 138 || p == 144
}

/// The frame rate in millihertz read from VUI timing info, starting at the
/// vui_parameters_present flag. `None` on a premature end of data; a rate
/// outside [1 Hz, 120 Hz] reads as 0, as does absent timing info.
pub open spec fn vui_fps_spec(d: Seq<u8>, pos: int) -> Option<u32> {
    match rb_spec(d, pos, 1) {
        None => None,
        Some((vui, p)) => if vui == 0 {
            Some(0)
        } else {
            match rb_spec(d, p, 1) {
                None => None,
                Some((ar, p)) => {
                    let p2_opt = if ar != 0 {
                        match rb_spec(d, p, 8) {
                            None => None,
                            Some((idc, p)) => if idc == 255 {
                                match rb_spec(d, p, 16) {
                                    None => None,
                                    Some((_x, p)) => Some(p),
                                }
                            } else {
                                Some(p)
                            },
                        }
                    } else {
                        Some(p)
                    };
                    match p2_opt {
                        None => None,
                        Some(p) => match rb_spec(d, p, 1) {
                            None => None,
                            Some((ov, p)) => {
                                let p3_opt = if ov != 0 {
                                    match rb_spec(d, p, 1) {
                                        None => None,
                                        Some((_x, p)) => Some(p),
                                    }
                                } else {
                                    Some(p)
                                };
                                match p3_opt {
                                    None => None,
                                    Some(p) => vui_fps_tail(d, p),
                                }
                            },
                        },
                    }
                },
            }
        },
    }
}

/// The VUI walk from the video-signal-type flag on.
pub open spec fn vui_fps_tail(d: Seq<u8>, pos: int) -> Option<u32> {
    match rb_spec(d, pos, 1) {
        None => None,
        Some((vs, p)) => {
            let p4_opt = if vs != 0 {
                match rb_spec(d, p, 3) {
                    None => None,
                    Some((_x, p)) => match rb_spec(d, p, 1) {
                        None => None,
                        Some((cd, p)) => if cd != 0 {
                            match rb_spec(d, p, 24) {
                                None => None,
                                Some((_y, p)) => Some(p),
                            }
                        } else {
                            Some(p)
                        },
                    },
                }
            } else {
                Some(p)
            };
            match p4_opt {
                None => None,
                Some(p) => match rb_spec(d, p, 1) {
                    None => None,
                    Some((cl, p)) => {
                        let p5_opt = if cl != 0 {
                            match ue_spec(d, p) {
                                None => None,
                                Some((_x, p)) => match ue_spec(d, p) {
                                    None => None,
                                    Some((_y, p)) => Some(p),
                                },
                            }
                        } else {
                            Some(p)
                        };
                        match p5_opt {
                            None => None,
                            Some(p) => match rb_spec(d, p, 1) {
                                None => None,
                                Some((ti, p)) => if ti == 0 {
                                    Some(0)
                                } else {
                                    match rb_spec(d, p, 32) {
                                        None => None,
                                        Some((num_units, p)) => match rb_spec(d, p, 32) {
                                            None => None,
                                            Some((time_scale, p)) => match rb_spec(d, p, 1) {
                                                None => None,
                                                Some((fixed, _p)) => Some(
                                                    vui_rate(num_units, time_scale, fixed != 0),
                                                ),
                                            },
                                        },
                                    }
                                },
                            },
                        }
                    },
                },
            }
        },
    }
}

/// The millihertz rate from VUI timing fields: time_scale over
/// num_units_in_tick, halved under fixed frame rate, zeroed outside
/// [1 Hz, 120 Hz] or for a zero tick count.
pub open spec fn vui_rate(num_units: u32, time_scale: u32, fixed: bool) -> u32 {
    if num_units == 0 || time_scale == 0 {
        0
    } else {
        let div: int = if fixed {
            2 * num_units
        } else {
            num_units as int
        };
        let mhz = (time_scale * 1000) / div;
        if mhz < 1000 || mhz > 120000 {
            0
        } else {
            mhz as u32
        }
    }
}

/// The crop unit scales for a chroma format.
pub open spec fn crop_unit_x(chroma_idc: u32) -> int {
    if chroma_idc == 0 || chroma_idc == 3 {
        1
    } else {
        2
    }
}

pub open spec fn crop_unit_y(chroma_idc: u32, frame_mbs_only: bool) -> int {
    let b: int = if frame_mbs_only {
        1
    } else {
        0
    };
    if chroma_idc == 0 {
        2 - b
    } else if chroma_idc == 1 || chroma_idc == 2 {
        2 * (2 - b)
    } else if chroma_idc == 3 {
        2 - b
    } else {
        2
    }
}

/// The fields of an H.264 sequence parameter set needed for the report:
/// width, height, frame rate (millihertz), chroma format and the
/// frame_mbs_only flag, decoded from an RBSP (emulation prevention already
/// removed).
pub open spec fn avc_sps_spec(d: Seq<u8>) -> Option<(u16, u16, u32, u32, bool)> {
    match rb_spec(d, 0, 8) {
        None => None,
        Some((profile_idc, p)) => match rb_spec(d, p, 16) {
            None => None,
            Some((_c, p)) => match ue_spec(d, p) {
                None => None,
                Some((_sps_id, p)) => {
                    let after_chroma = if high_profile(profile_idc) {
                        avc_chroma_spec(d, p)
                    } else {
                        Some((1u32, p))
                    };
                    match after_chroma {
                        None => None,
                        Some((chroma_idc, p)) => avc_size_spec(d, p, chroma_idc),
                    }
                },
            },
        },
    }
}

/// The chroma/bit-depth/scaling-list walk of a high profile.
pub open spec fn avc_chroma_spec(d: Seq<u8>, pos: int) -> Option<(u32, int)> {
    match ue_spec(d, pos) {
        None => None,
        Some((chroma_idc, p)) => {
            let p1_opt = if chroma_idc == 3 {
                match rb_spec(d, p, 1) {
                    None => None,
                    Some((_s, p)) => Some(p),
                }
            } else {
                Some(p)
            };
            match p1_opt {
                None => None,
                Some(p) => match ue_spec(d, p) {
                    None => None,
                    Some((_bl, p)) => match ue_spec(d, p) {
                        None => None,
                        Some((_bc, p)) => match rb_spec(d, p, 1) {
                            None => None,
                            Some((_q, p)) => match rb_spec(d, p, 1) {
                                None => None,
                                Some((sm, p)) => if sm != 0 {
                                    let lists: nat = if chroma_idc == 3 {
                                        12
                                    } else {
                                        8
                                    };
                                    match scaling_lists_spec(d, p, 0, lists) {
                                        None => None,
                                        Some(p) => Some((chroma_idc, p)),
                                    }
                                } else {
                                    Some((chroma_idc, p))
                                },
                            },
                        },
                    },
                },
            }
        },
    }
}

/// The ordering/size/cropping/VUI walk after the chroma fields.
pub open spec fn avc_size_spec(d: Seq<u8>, pos: int, chroma_idc: u32) -> Option<
    (u16, u16, u32, u32, bool),
> {
    match ue_spec(d, pos) {
        None => None,
        Some((_lg, p)) => match ue_spec(d, p) {
            None => None,
            Some((poc_type, p)) => {
                let poc_opt = if poc_type == 0 {
                    match ue_spec(d, p) {
                        None => None,
                        Some((_x, p)) => Some(p),
                    }
                } else if poc_type == 1 {
                    match rb_spec(d, p, 1) {
                        None => None,
                        Some((_x, p)) => match se_spec(d, p) {
                            None => None,
                            Some((_y, p)) => match se_spec(d, p) {
                                None => None,
                                Some((_z, p)) => match ue_spec(d, p) {
                                    None => None,
                                    Some((ncyc, p)) => strict_ses_spec(d, p, ncyc as nat),
                                },
                            },
                        },
                    }
                } else {
                    Some(p)
                };
                match poc_opt {
                    None => None,
                    Some(p) => match ue_spec(d, p) {
                        None => None,
                        Some((_refs, p)) => match rb_spec(d, p, 1) {
                            None => None,
                            Some((_gaps, p)) => match ue_spec(d, p) {
                                None => None,
                                Some((pw, p)) => match ue_spec(d, p) {
                                    None => None,
                                    Some((ph, p)) => match rb_spec(d, p, 1) {
                                        None => None,
                                        Some((fmo, p)) => {
                                            let fmo_b = fmo != 0;
                                            let pa_opt = if !fmo_b {
                                                match rb_spec(d, p, 1) {
                                                    None => None,
                                                    Some((_m, p)) => Some(p),
                                                }
                                            } else {
                                                Some(p)
                                            };
                                            match pa_opt {
                                                None => None,
                                                Some(p) => match rb_spec(d, p, 1) {
                                                    None => None,
                                                    Some((_d8, p)) => avc_crop_spec(
                                                        d,
                                                        p,
                                                        chroma_idc,
                                                        pw,
                                                        ph,
                                                        fmo_b,
                                                    ),
                                                },
                                            }
                                        },
                                    },
                                },
                            },
                        },
                    },
                }
            },
        },
    }
}

/// The cropping walk and the final geometry.
pub open spec fn avc_crop_spec(
    d: Seq<u8>,
    pos: int,
    chroma_idc: u32,
    pw: u32,
    ph: u32,
    fmo: bool,
) -> Option<(u16, u16, u32, u32, bool)> {
    match rb_spec(d, pos, 1) {
        None => None,
        Some((cf, p)) => {
            let crops_opt = if cf != 0 {
                match ue_spec(d, p) {
                    None => None,
                    Some((cl, p)) => match ue_spec(d, p) {
                        None => None,
                        Some((cr, p)) => match ue_spec(d, p) {
                            None => None,
                            Some((ct, p)) => match ue_spec(d, p) {
                                None => None,
                                Some((cb, p)) => Some((cl, cr, ct, cb, p)),
                            },
                        },
                    },
                }
            } else {
                Some((0u32, 0u32, 0u32, 0u32, p))
            };
            match crops_opt {
                None => None,
                Some((cl, cr, ct, cb, p)) => match vui_fps_spec(d, p) {
                    None => None,
                    Some(fps) => Some(
                        (
                            avc_width(pw, cl, cr, chroma_idc),
                            avc_height(ph, ct, cb, chroma_idc, fmo),
                            fps,
                            chroma_idc,
                            fmo,
                        ),
                    ),
                },
            }
        },
    }
}

/// Width: sixteen pixels per macroblock, minus the cropped columns; a
/// geometry outside the 16-bit range reads as 0.
pub open spec fn avc_width(pw: u32, cl: u32, cr: u32, chroma_idc: u32) -> u16 {
    let w = ((pw + 1) * 16) - (cl + cr) * crop_unit_x(chroma_idc);
    if 0 <= w <= 0xFFFF {
        w as u16
    } else {
        0
    }
}

/// Height: sixteen pixel rows per map unit (doubled for field coding),
/// minus the cropped rows; a geometry outside the 16-bit range reads as 0.
pub open spec fn avc_height(ph: u32, ct: u32, cb: u32, chroma_idc: u32, fmo: bool) -> u16 {
    let units: int = if fmo {
        1
    } else {
        2
    };
    let h = ((ph + 1) * units * 16) - (ct + cb) * crop_unit_y(chroma_idc, fmo);
    if 0 <= h <= 0xFFFF {
        h as u16
    } else {
        0
    }
}

/// The chroma format names.
pub open spec fn chroma_name(idc: u32) -> Seq<char> {
    if idc == 0 {
        "4:0:0"@
    } else if idc == 1 {
        "4:2:0"@
    } else if idc == 2 {
        "4:2:2"@
    } else if idc == 3 {
        "4:4:4"@
    } else {
        "?"@
    }
}

/// The H.264 VUI walk, executable counterpart of [`vui_fps_spec`].
fn vui_fps(d: &[u8], pos: usize) -> (r: Option<u32>)
    requires
        d@.len() < 0x1000000,
        pos <= 8 * d@.len(),
    ensures
        r == vui_fps_spec(d@, pos as int),
{
    let (vui, p) = match rb(d, pos, 1) {
        None => { return None; },
        Some(x) => x,
    };
    if vui == 0 {
        return Some(0);
    }
    let (ar, p) = match rb(d, p, 1) {
        None => { return None; },
        Some(x) => x,
    };
    let p = if ar != 0 {
        let (idc, p) = match rb(d, p, 8) {
            None => { return None; },
            Some(x) => x,
        };
        if idc == 255 {
            match rb(d, p, 16) {
                None => { return None; },
                Some((_x, p)) => p,
            }
        } else {
            p
        }
    } else {
        p
    };
    let (ov, p) = match rb(d, p, 1) {
        None => { return None; },
        Some(x) => x,
    };
    let p = if ov != 0 {
        match rb(d, p, 1) {
            None => { return None; },
            Some((_x, p)) => p,
        }
    } else {
        p
    };
    vui_fps_exec_tail(d, p)
}

/// Executable counterpart of [`vui_fps_tail`].
fn vui_fps_exec_tail(d: &[u8], pos: usize) -> (r: Option<u32>)
    requires
        d@.len() < 0x1000000,
        pos <= 8 * d@.len(),
    ensures
        r == vui_fps_tail(d@, pos as int),
{
    let (vs, p) = match rb(d, pos, 1) {
        None => { return None; },
        Some(x) => x,
    };
    let p = if vs != 0 {
        let (_x, p) = match rb(d, p, 3) {
            None => { return None; },
            Some(x) => x,
        };
        let (cd, p) = match rb(d, p, 1) {
            None => { return None; },
            Some(x) => x,
        };
        if cd != 0 {
            match rb(d, p, 24) {
                None => { return None; },
                Some((_y, p)) => p,
            }
        } else {
            p
        }
    } else {
        p
    };
    let (cl, p) = match rb(d, p, 1) {
        None => { return None; },
        Some(x) => x,
    };
    let p = if cl != 0 {
        let (_x, p) = match ue(d, p) {
            None => { return None; },
            Some(x) => x,
        };
        match ue(d, p) {
            None => { return None; },
            Some((_y, p)) => p,
        }
    } else {
        p
    };
    let (ti, p) = match rb(d, p, 1) {
        None => { return None; },
        Some(x) => x,
    };
    if ti == 0 {
        return Some(0);
    }
    let (num_units, p) = match rb(d, p, 32) {
        None => { return None; },
        Some(x) => x,
    };
    let (time_scale, p) = match rb(d, p, 32) {
        None => { return None; },
        Some(x) => x,
    };
    let (fixed, _p) = match rb(d, p, 1) {
        None => { return None; },
        Some(x) => x,
    };
    if num_units == 0 || time_scale == 0 {
        return Some(0);
    }
    let div: u64 = if fixed != 0 {
        2 * (num_units as u64)
    } else {
        num_units as u64
    };
    let mhz: u64 = ((time_scale as u64) * 1000) / div;
    if mhz < 1000 || mhz > 120000 {
        Some(0)
    } else {
        Some(mhz as u32)
    }
}

/// Parses an H.264 sequence parameter set from its raw NAL payload:
/// emulation-prevention bytes are removed, then the geometry, chroma
/// format and VUI frame rate are decoded.
#[verifier::rlimit(100)]
#[verifier::spinoff_prover]
pub fn parse_avc_sps(raw: &[u8]) -> (r: Option<VideoInfo>)
    requires
        raw@.len() < 0x1000000,
    ensures
        r is Some <==> avc_sps_spec(remove_ep_spec(raw@)) is Some,
        r matches Some(v) ==> ({
            let f = avc_sps_spec(remove_ep_spec(raw@))->0;
            &&& v.codec@ == "H.264"@
            &&& v.width == f.0
            &&& v.height == f.1
            &&& v.fps_millis == f.2
            &&& v.chroma@ == chroma_name(f.3)
            &&& v.interlaced == !f.4
        }),
{
    proof {
        crate::bits::lemma_remove_ep_len(raw@);
    }
    let rbsp_vec = remove_ep(raw);
    let d = rbsp_vec.as_slice();
    let (profile_idc, p) = match rb(d, 0, 8) {
        None => { return None; },
        Some(x) => x,
    };
    let (_c, p) = match rb(d, p, 16) {
        None => { return None; },
        Some(x) => x,
    };
    let (_sps_id, p) = match ue(d, p) {
        None => { return None; },
        Some(x) => x,
    };
    let is_high = profile_idc == 100 || profile_idc == 110 || profile_idc == 122 || profile_idc
        == 244 || profile_idc == 44 || profile_idc == 83 || profile_idc == 86 || profile_idc
        == 118 || profile_idc == 128 || profile_idc == 138 || profile_idc == 144;
    let (chroma_idc, p) = if is_high {
        match avc_chroma(d, p) {
            None => { return None; },
            Some(x) => x,
        }
    } else {
        (1u32, p)
    };
    avc_size(d, p, chroma_idc)
}

/// Executable counterpart of [`avc_size_spec`]: the ordering and size
/// fields, then cropping, VUI and the final record.
#[verifier::rlimit(100)]
#[verifier::spinoff_prover]
fn avc_size(d: &[u8], pos: usize, chroma_idc: u32) -> (r: Option<VideoInfo>)
    requires
        d@.len() < 0x1000000,
        pos <= 8 * d@.len(),
    ensures
        r is Some <==> avc_size_spec(d@, pos as int, chroma_idc) is Some,
        r matches Some(v) ==> ({
            let f = avc_size_spec(d@, pos as int, chroma_idc)->0;
            &&& v.codec@ == "H.264"@
            &&& v.width == f.0
            &&& v.height == f.1
            &&& v.fps_millis == f.2
            &&& v.chroma@ == chroma_name(f.3)
            &&& v.interlaced == !f.4
        }),
{
    let (_lg, p) = match ue(d, pos) {
        None => { return None; },
        Some(x) => x,
    };
    let (poc_type, p) = match ue(d, p) {
        None => { return None; },
        Some(x) => x,
    };
    let p = if poc_type == 0 {
        match ue(d, p) {
            None => { return None; },
            Some((_x, p)) => p,
        }
    } else if poc_type == 1 {
        let (_x, p) = match rb(d, p, 1) {
            None => { return None; },
            Some(x) => x,
        };
        let (_y, p) = match se(d, p) {
            None => { return None; },
            Some(x) => x,
        };
        let (_z, p) = match se(d, p) {
            None => { return None; },
            Some(x) => x,
        };
        let (ncyc, p) = match ue(d, p) {
            None => { return None; },
            Some(x) => x,
        };
        match strict_ses(d, p, ncyc as usize) {
            None => { return None; },
            Some(p) => p,
        }
    } else {
        p
    };
    let (_refs, p) = match ue(d, p) {
        None => { return None; },
        Some(x) => x,
    };
    let (_gaps, p) = match rb(d, p, 1) {
        None => { return None; },
        Some(x) => x,
    };
    let (pw, p) = match ue(d, p) {
        None => { return None; },
        Some(x) => x,
    };
    let (ph, p) = match ue(d, p) {
        None => { return None; },
        Some(x) => x,
    };
    let (fmo, p) = match rb(d, p, 1) {
        None => { return None; },
        Some(x) => x,
    };
    let fmo_b = fmo != 0;
    let p = if !fmo_b {
        match rb(d, p, 1) {
            None => { return None; },
            Some((_m, p)) => p,
        }
    } else {
        p
    };
    let (_d8, p) = match rb(d, p, 1) {
        None => { return None; },
        Some(x) => x,
    };
    avc_crop(d, p, chroma_idc, pw, ph, fmo_b)
}

/// Executable counterpart of [`avc_crop_spec`].
#[verifier::rlimit(100)]
#[verifier::spinoff_prover]
fn avc_crop(d: &[u8], pos: usize, chroma_idc: u32, pw: u32, ph: u32, fmo_b: bool) -> (r: Option<
    VideoInfo,
>)
    requires
        d@.len() < 0x1000000,
        pos <= 8 * d@.len(),
    ensures
        r is Some <==> avc_crop_spec(d@, pos as int, chroma_idc, pw, ph, fmo_b) is Some,
        r matches Some(v) ==> ({
            let f = avc_crop_spec(d@, pos as int, chroma_idc, pw, ph, fmo_b)->0;
            &&& v.codec@ == "H.264"@
            &&& v.width == f.0
            &&& v.height == f.1
            &&& v.fps_millis == f.2
            &&& v.chroma@ == chroma_name(f.3)
            &&& v.interlaced == !f.4
        }),
{
    let (cf, p) = match rb(d, pos, 1) {
        None => { return None; },
        Some(x) => x,
    };
    let (cl, cr, ct, cb, p) = if cf != 0 {
        let (cl, p) = match ue(d, p) {
            None => { return None; },
            Some(x) => x,
        };
        let (cr, p) = match ue(d, p) {
            None => { return None; },
            Some(x) => x,
        };
        let (ct, p) = match ue(d, p) {
            None => { return None; },
            Some(x) => x,
        };
        let (cb, p) = match ue(d, p) {
            None => { return None; },
            Some(x) => x,
        };
        (cl, cr, ct, cb, p)
    } else {
        (0u32, 0u32, 0u32, 0u32, p)
    };
    let fps = match vui_fps(d, p) {
        None => { return None; },
        Some(f) => f,
    };

    let cux: u64 = if chroma_idc == 0 || chroma_idc == 3 {
        1
    } else {
        2
    };
    let b: u64 = if fmo_b {
        1
    } else {
        0
    };
    let cuy: u64 = if chroma_idc == 0 {
        2 - b
    } else if chroma_idc == 1 || chroma_idc == 2 {
        2 * (2 - b)
    } else if chroma_idc == 3 {
        2 - b
    } else {
        2
    };
    let wide: u64 = ((pw as u64) + 1) * 16;
    let wcrop: u64 = ((cl as u64) + (cr as u64)) * cux;
    let width: u16 = if wide >= wcrop && wide - wcrop <= 0xFFFF {
        (wide - wcrop) as u16
    } else {
        0
    };
    let units: u64 = if fmo_b {
        1
    } else {
        2
    };
    let tall: u64 = ((ph as u64) + 1) * units * 16;
    let hcrop: u64 = ((ct as u64) + (cb as u64)) * cuy;
    let height: u16 = if tall >= hcrop && tall - hcrop <= 0xFFFF {
        (tall - hcrop) as u16
    } else {
        0
    };

    let chroma: String = if chroma_idc == 0 {
        String::from_str("4:0:0")
    } else if chroma_idc == 1 {
        String::from_str("4:2:0")
    } else if chroma_idc == 2 {
        String::from_str("4:2:2")
    } else if chroma_idc == 3 {
        String::from_str("4:4:4")
    } else {
        String::from_str("?")
    };
    Some(
        VideoInfo {
            codec: String::from_str("H.264"),
            width,
            height,
            fps_millis: fps,
            chroma,
            interlaced: !fmo_b,
        },
    )
}

/// Executable counterpart of [`avc_chroma_spec`].
fn avc_chroma(d: &[u8], pos: usize) -> (r: Option<(u32, usize)>)
    requires
        d@.len() < 0x1000000,
        pos <= 8 * d@.len(),
    ensures
        match r {
            Some((c, p)) => avc_chroma_spec(d@, pos as int) == Some((c, p as int)) && p <= 8
                * d@.len(),
            None => avc_chroma_spec(d@, pos as int) is None,
        },
{
    let (chroma_idc, p) = match ue(d, pos) {
        None => { return None; },
        Some(x) => x,
    };
    let p = if chroma_idc == 3 {
        match rb(d, p, 1) {
            None => { return None; },
            Some((_s, p)) => p,
        }
    } else {
        p
    };
    let (_bl, p) = match ue(d, p) {
        None => { return None; },
        Some(x) => x,
    };
    let (_bc, p) = match ue(d, p) {
        None => { return None; },
        Some(x) => x,
    };
    let (_q, p) = match rb(d, p, 1) {
        None => { return None; },
        Some(x) => x,
    };
    let (sm, p) = match rb(d, p, 1) {
        None => { return None; },
        Some(x) => x,
    };
    if sm != 0 {
        let lists: usize = if chroma_idc == 3 {
            12
        } else {
            8
        };
        match scaling_lists(d, p, 0, lists) {
            None => None,
            Some(p) => Some((chroma_idc, p)),
        }
    } else {
        Some((chroma_idc, p))
    }
}

/// The fields of the minimal HEVC sequence-parameter-set read: width and
/// height as the two Exp-Golomb values after the fixed head.
pub open spec fn hevc_sps_spec(d: Seq<u8>) -> Option<(u16, u16)> {
    match rb_spec(d, 0, 32) {
        None => None,
        Some((_h, p)) => match ue_spec(d, p) {
            None => None,
            Some((w, p)) => match ue_spec(d, p) {
                None => None,
                Some((h, _p)) => Some(((w as u16), (h as u16))),
            },
        },
    }
}

/// Parses an HEVC sequence parameter set, minimally: width and height only.
pub fn parse_hevc_sps(raw: &[u8]) -> (r: Option<VideoInfo>)
    requires
        raw@.len() < 0x1000000,
    ensures
        r is Some <==> hevc_sps_spec(remove_ep_spec(raw@)) is Some,
        r matches Some(v) ==> ({
            let f = hevc_sps_spec(remove_ep_spec(raw@))->0;
            &&& v.codec@ == "HEVC"@
            &&& v.width == f.0
            &&& v.height == f.1
            &&& v.fps_millis == 0
            &&& v.chroma@.len() == 0
            &&& v.interlaced == false
        }),
{
    proof {
        crate::bits::lemma_remove_ep_len(raw@);
    }
    let rbsp_vec = crate::bits::remove_emulation_prevention(raw);
    let d = rbsp_vec.as_slice();
    let (_h, p) = match rb(d, 0, 32) {
        None => { return None; },
        Some(x) => x,
    };
    let (w, p) = match ue(d, p) {
        None => { return None; },
        Some(x) => x,
    };
    let (h, _p) = match ue(d, p) {
        None => { return None; },
        Some(x) => x,
    };
    Some(
        VideoInfo {
            codec: String::from_str("HEVC"),
            width: #[verifier::truncate] (w as u16),
            height: #[verifier::truncate] (h as u16),
            fps_millis: 0,
            chroma: String::new(),
            interlaced: false,
        },
    )
}

/// The first NAL start code at or after `i` whose type is an H.264 SPS
/// (kind 1, payload from the fourth byte) or an HEVC SPS (kind 2, payload
/// from the fifth byte).
pub open spec fn h26x_find(d: Seq<u8>, i: int) -> Option<(int, int)>
    decreases d.len() - i when i >= 0
{
    if i < 0 || i + 4 >= d.len() {
        None
    } else if d[i] == 0 && d[i + 1] == 0 && d[i + 2] == 1 {
        if d[i + 3] & 0x1F == 7 {
            Some((1, i + 4))
        } else if (d[i + 3] >> 1) & 0x3F == 33 {
            Some((2, i + 5))
        } else {
            h26x_find(d, i + 1)
        }
    } else {
        h26x_find(d, i + 1)
    }
}

/// Worker matching [`h26x_find`].
fn h26x_scan(d: &[u8], i: usize) -> (r: Option<(usize, usize)>)
    requires
        i <= d@.len(),
    ensures
        match r {
            Some((k, o)) => h26x_find(d@, i as int) == Some((k as int, o as int)) && o <= d@.len()
                && (k == 1 || k == 2),
            None => h26x_find(d@, i as int) is None,
        },
    decreases d@.len() - i,
{
    if d.len() - i <= 4 {
        None
    } else if d[i] == 0 && d[i + 1] == 0 && d[i + 2] == 1 {
        if d[i + 3] & 0x1F == 7 {
            Some((1, i + 4))
        } else if (d[i + 3] >> 1) & 0x3F == 33 {
            Some((2, i + 5))
        } else {
            h26x_scan(d, i + 1)
        }
    } else {
        h26x_scan(d, i + 1)
    }
}

/// Finds the first SPS in an H.264 or HEVC elementary stream payload and
/// parses it.
pub fn parse_h26x_sps(data: &[u8]) -> (r: Option<VideoInfo>)
    requires
        data@.len() < 0x1000000,
    ensures
        h26x_find(data@, 0) is None ==> r is None,
        h26x_find(data@, 0) matches Some((kind, off)) ==> (kind == 1 ==> (r is Some
            <==> avc_sps_spec(remove_ep_spec(data@.skip(off))) is Some)),
        h26x_find(data@, 0) matches Some((kind, off)) ==> (kind == 1 ==> (r matches Some(v)
            ==> ({
            let f = avc_sps_spec(remove_ep_spec(data@.skip(off)))->0;
            &&& v.codec@ == "H.264"@
            &&& v.width == f.0
            &&& v.height == f.1
            &&& v.fps_millis == f.2
            &&& v.chroma@ == chroma_name(f.3)
            &&& v.interlaced == !f.4
        }))),
        h26x_find(data@, 0) matches Some((kind, off)) ==> (kind == 2 ==> (r is Some
            <==> hevc_sps_spec(remove_ep_spec(data@.skip(off))) is Some)),
        h26x_find(data@, 0) matches Some((kind, off)) ==> (kind == 2 ==> (r matches Some(v)
            ==> ({
            let f = hevc_sps_spec(remove_ep_spec(data@.skip(off)))->0;
            &&& v.codec@ == "HEVC"@
            &&& v.width == f.0
            &&& v.height == f.1
            &&& v.fps_millis == 0
            &&& v.interlaced == false
        }))),
        r matches Some(v) ==> (v.codec@ == "H.264"@ || v.codec@ == "HEVC"@),
{
    match h26x_scan(data, 0) {
        None => None,
        Some((kind, off)) => {
            let rest = vstd::slice::slice_subrange(data, off, data.len());
            proof {
                assert(rest@ =~= data@.skip(off as int));
            }
            if kind == 1 {
                parse_avc_sps(rest)
            } else {
                parse_hevc_sps(rest)
            }
        },
    }
}

/// The MPEG-2 frame-rate code table, in millihertz.
pub open spec fn mpeg2_fps(code: u8) -> u32 {
    if code == 1 {
        23976
    } else if code == 2 {
        24000
    } else if code == 3 {
        25000
    } else if code == 4 {
        29970
    } else if code == 5 {
        30000
    } else if code == 6 {
        50000
    } else if code == 7 {
        59940
    } else if code == 8 {
        60000
    } else {
        0
    }
}

/// The first MPEG-2 sequence-header start code at or after `i` with the
/// eight header bytes available.
pub open spec fn mpeg2_find(d: Seq<u8>, i: int) -> Option<int>
    decreases d.len() - i when i >= 0
{
    if i < 0 || i + 8 >= d.len() {
        None
    } else if d[i] == 0 && d[i + 1] == 0 && d[i + 2] == 1 && d[i + 3] == 0xB3 && i + 12
        <= d.len() {
        Some(i)
    } else {
        mpeg2_find(d, i + 1)
    }
}

/// Worker matching [`mpeg2_find`].
fn mpeg2_scan(d: &[u8], i: usize) -> (r: Option<usize>)
    requires
        i <= d@.len(),
    ensures
        match r {
            Some(j) => mpeg2_find(d@, i as int) == Some(j as int) && j + 12 <= d@.len(),
            None => mpeg2_find(d@, i as int) is None,
        },
    decreases d@.len() - i,
{
    if d.len() - i <= 8 {
        None
    } else if d[i] == 0 && d[i + 1] == 0 && d[i + 2] == 1 && d[i + 3] == 0xB3 && d.len() - i
        >= 12 {
        Some(i)
    } else {
        mpeg2_scan(d, i + 1)
    }
}

/// Parses an MPEG-2 sequence header: 12-bit width and height and the
/// 4-bit frame-rate code; MPEG-2 video reports 4:2:0 chroma.
pub fn parse_mpeg2_seq_hdr(data: &[u8]) -> (r: Option<VideoInfo>)
    ensures
        r is Some <==> mpeg2_find(data@, 0) is Some,
        r matches Some(v) ==> ({
            let i = mpeg2_find(data@, 0)->0;
            &&& v.codec@ == "MPEG-2"@
            &&& v.width == (data@[i + 4] as int) * 16 + (data@[i + 5] >> 4)
            &&& v.height == ((data@[i + 5] & 0x0F) as int) * 256 + data@[i + 6]
            &&& v.fps_millis == mpeg2_fps(data@[i + 7] & 0x0F)
            &&& v.chroma@ == "4:2:0"@
            &&& v.interlaced == false
        }),
{
    match mpeg2_scan(data, 0) {
        None => None,
        Some(i) => {
            let n = data.len();
            proof {
                crate::bits::lemma_u8_shr_bound(data@[i + 5], 4);
                crate::bits::lemma_u8_and_bound(data@[i + 5], 0x0F);
            }
            let width: u16 = (data[i + 4] as u16) * 16 + (data[i + 5] >> 4) as u16;
            let height: u16 = ((data[i + 5] & 0x0F) as u16) * 256 + data[i + 6] as u16;
            let frc = data[i + 7] & 0x0F;
            let fps: u32 = match frc {
                1 => 23976,
                2 => 24000,
                3 => 25000,
                4 => 29970,
                5 => 30000,
                6 => 50000,
                7 => 59940,
                8 => 60000,
                _ => 0,
            };
            Some(
                VideoInfo {
                    codec: String::from_str("MPEG-2"),
                    width,
                    height,
                    fps_millis: fps,
                    chroma: String::from_str("4:2:0"),
                    interlaced: false,
                },
            )
        },
    }
}

/// Dispatches video parsing by stream type: MPEG-2 for 0x02, H.264/HEVC
/// for 0x1B and 0x24.
#[verifier::rlimit(100)]
#[verifier::spinoff_prover]
pub fn parse_video_codec(stream_type: u8, data: &[u8]) -> (r: Option<VideoInfo>)
    requires
        data@.len() < 0x1000000,
    ensures
        stream_type == 0x02 ==> (r is Some <==> mpeg2_find(data@, 0) is Some),
        stream_type == 0x02 ==> (r matches Some(v) ==> {
            let i = mpeg2_find(data@, 0)->0;
            &&& v.codec@ == "MPEG-2"@
            &&& v.width == (data@[i + 4] as int) * 16 + (data@[i + 5] >> 4)
            &&& v.height == ((data@[i + 5] & 0x0F) as int) * 256 + data@[i + 6]
            &&& v.fps_millis == mpeg2_fps(data@[i + 7] & 0x0F)
            &&& v.chroma@ == "4:2:0"@
            &&& v.interlaced == false
        }),
        (stream_type == 0x1B || stream_type == 0x24) && h26x_find(data@, 0) is None ==> r
            is None,
        (stream_type == 0x1B || stream_type == 0x24) ==> (h26x_find(data@, 0) matches Some(
            (kind, off),
        ) ==> (kind == 1 ==> (r is Some <==> avc_sps_spec(
            remove_ep_spec(data@.skip(off)),
        ) is Some))),
        (stream_type == 0x1B || stream_type == 0x24) ==> (h26x_find(data@, 0) matches Some(
            (kind, off),
        ) ==> (kind == 1 ==> (r matches Some(v) ==> ({
            let f = avc_sps_spec(remove_ep_spec(data@.skip(off)))->0;
            &&& v.codec@ == "H.264"@
            &&& v.width == f.0
            &&& v.height == f.1
            &&& v.fps_millis == f.2
            &&& v.chroma@ == chroma_name(f.3)
            &&& v.interlaced == !f.4
        })))),
        (stream_type == 0x1B || stream_type == 0x24) ==> (h26x_find(data@, 0) matches Some(
            (kind, off),
        ) ==> (kind == 2 ==> (r is Some <==> hevc_sps_spec(
            remove_ep_spec(data@.skip(off)),
        ) is Some))),
        (stream_type == 0x1B || stream_type == 0x24) ==> (h26x_find(data@, 0) matches Some(
            (kind, off),
        ) ==> (kind == 2 ==> (r matches Some(v) ==> ({
            let f = hevc_sps_spec(remove_ep_spec(data@.skip(off)))->0;
            &&& v.codec@ == "HEVC"@
            &&& v.width == f.0
            &&& v.height == f.1
            &&& v.fps_millis == 0
            &&& v.interlaced == false
        })))),
        !(stream_type == 0x02 || stream_type == 0x1B || stream_type == 0x24) ==> r is None,
{
    match stream_type {
        0x02 => parse_mpeg2_seq_hdr(data),
        0x1B | 0x24 => parse_h26x_sps(data),
        _ => None,
    }
}

} // verus!
