//! Standalone statements of the engine's boundary behaviours, proved once
//! over the specification functions the contracts use.
use vstd::prelude::*;

use crate::constants::{NULL_PID, PTS_WRAP_THRESHOLD};
use crate::tr101::{
    cc_error, pcr_delta, pcr_ticks_of, pts_discontinuity, splice_legal, Tr101Metrics,
};

verus! {

/// A continuity counter that steps by exactly one modulo sixteen is never
/// a continuity violation, for any PID and any packet with a payload; so a
/// run of packets whose counters all step correctly leaves
/// `continuity_counter_errors` untouched.
pub proof fn lemma_cc_succession(last: Map<u16, u8>, pid: u16, cc: u8, afc: u8)
    requires
        last.contains_key(pid),
        cc == (last[pid] + 1) % 16,
    ensures
        !cc_error(last, pid, cc, afc),
{
}

/// A PID never seen before is no continuity violation either.
pub proof fn lemma_cc_first(last: Map<u16, u8>, pid: u16, cc: u8, afc: u8)
    requires
        !last.contains_key(pid),
    ensures
        !cc_error(last, pid, cc, afc),
{
}

/// A PCR whose 33-bit base rolls over from its maximum to zero advances by
/// exactly one base tick: the delta is 300, not a huge jump.
pub proof fn lemma_pcr_wrap(ext: u16)
    requires
        ext <= 299,
    ensures
        pcr_delta(pcr_ticks_of(0x1FFFFFFFF, ext), pcr_ticks_of(0, ext)) == 300,
{
}

/// A backward PTS step of at least half the 33-bit range is read as a
/// wrap, not as a PTS error.
pub proof fn lemma_pts_wrap(last: u64, pts: u64)
    requires
        pts < last,
        last - pts >= PTS_WRAP_THRESHOLD / 2,
    ensures
        !pts_discontinuity(last, pts),
{
}

/// A backward PTS step short of the wrap threshold is a PTS error, and a
/// forward step within a minute is not.
pub proof fn lemma_pts_steps(last: u64, pts: u64)
    ensures
        pts < last && last - pts < PTS_WRAP_THRESHOLD / 2 ==> pts_discontinuity(last, pts),
        pts >= last && pts - last <= crate::constants::MAX_PTS_JUMP ==> !pts_discontinuity(
            last,
            pts,
        ),
{
}

/// The legal splice-countdown successions are exactly: the same value, one
/// less, and the roll from -1 to 0. Every other transition is illegal, so
/// it always counts.
pub proof fn lemma_splice_transitions(prev: i8, val: i8)
    ensures
        splice_legal(prev, prev),
        prev > i8::MIN ==> splice_legal(prev, (prev - 1) as i8),
        prev == -1 ==> splice_legal(prev, 0),
        (val != prev && !(prev > i8::MIN && val == prev - 1) && !(prev == -1 && val == 0))
            ==> !splice_legal(prev, val),
{
}

/// Counter monotonicity composes across any two processing steps.
pub proof fn lemma_monotone_trans(a: &Tr101Metrics, b: &Tr101Metrics, c: &Tr101Metrics)
    requires
        Tr101Metrics::counters_monotone(a, b),
        Tr101Metrics::counters_monotone(b, c),
    ensures
        Tr101Metrics::counters_monotone(a, c),
{
}

} // verus!
