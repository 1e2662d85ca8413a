//! Per-PID elementary stream statistics: byte counts, codec records, PTS
//! samples for frame-rate estimation, and the idle-stream sweep.
use vstd::prelude::*;

use crate::constants::PID_LIMIT;
use crate::pidmap::PidMap;
use crate::types::{CodecInfo, EsStats};

verus! {

/// Manages elementary stream statistics and cleanup.
pub struct StatsManager {
    pub es_stats: PidMap<EsStats>,
}

impl StatsManager {
    pub open spec fn wf(&self) -> bool {
        self.es_stats.wf()
    }

    /// An empty manager.
    pub fn new() -> (r: StatsManager)
        ensures
            r.wf(),
            r.es_stats@ == Map::<u16, EsStats>::empty(),
    {
        StatsManager { es_stats: PidMap::new() }
    }

    /// Registers a stream; a PID already tracked is left untouched, so the
    /// start instant of a stream never moves.
    pub fn add_stream(&mut self, pid: u16, stream_type: u8, now_ms: u64)
        requires
            old(self).wf(),
            pid < PID_LIMIT,
        ensures
            final(self).wf(),
            old(self).es_stats@.contains_key(pid) ==> final(self).es_stats@ == old(
                self,
            ).es_stats@,
            !old(self).es_stats@.contains_key(pid) ==> final(self).es_stats@ == old(
                self,
            ).es_stats@.insert(
                pid,
                EsStats {
                    stream_type,
                    codec: None,
                    bytes: 0,
                    start_ms: now_ms,
                    last_pts: None,
                    pts_samples: final(self).es_stats@[pid].pts_samples,
                },
            ) && final(self).es_stats@[pid].pts_samples@ == Seq::<u64>::empty(),
    {
        if !self.es_stats.contains(pid) {
            self.es_stats.insert(
                pid,
                EsStats {
                    stream_type,
                    codec: None,
                    bytes: 0,
                    start_ms: now_ms,
                    last_pts: None,
                    pts_samples: Vec::new(),
                },
            );
        }
    }

    /// Adds to a tracked PID's byte count; unknown PIDs are ignored.
    pub fn update_bytes(&mut self, pid: u16, bytes: u64)
        requires
            old(self).wf(),
            pid < PID_LIMIT,
        ensures
            final(self).wf(),
            !old(self).es_stats@.contains_key(pid) ==> final(self).es_stats@ == old(
                self,
            ).es_stats@,
            old(self).es_stats@.contains_key(pid) ==> final(self).es_stats@ == old(
                self,
            ).es_stats@.insert(
                pid,
                (EsStats {
                    bytes: old(self).es_stats@[pid].bytes.saturating_add(bytes),
                    ..old(self).es_stats@[pid]
                }),
            ),
    {
        match self.es_stats.take(pid) {
            Some(mut stats) => {
                stats.bytes = stats.bytes.saturating_add(bytes);
                self.es_stats.insert(pid, stats);
                proof {
                    assert(self.es_stats@ =~= old(self).es_stats@.insert(
                        pid,
                        (EsStats {
                            bytes: old(self).es_stats@[pid].bytes.saturating_add(bytes),
                            ..old(self).es_stats@[pid]
                        }),
                    ));
                }
            },
            None => {
                proof {
                    assert(self.es_stats@ =~= old(self).es_stats@);
                }
            },
        }
    }

    /// Sets a tracked PID's codec record, only when none is set yet: the
    /// first successful parse wins.
    pub fn set_codec(&mut self, pid: u16, codec: CodecInfo)
        requires
            old(self).wf(),
            pid < PID_LIMIT,
        ensures
            final(self).wf(),
            !(old(self).es_stats@.contains_key(pid) && old(self).es_stats@[pid].codec is None)
                ==> final(self).es_stats@ == old(self).es_stats@,
            (old(self).es_stats@.contains_key(pid) && old(self).es_stats@[pid].codec is None)
                ==> final(self).es_stats@ == old(self).es_stats@.insert(
                pid,
                (EsStats { codec: Some(codec), ..old(self).es_stats@[pid] }),
            ),
    {
        match self.es_stats.take(pid) {
            Some(mut stats) => {
                if stats.codec.is_none() {
                    stats.codec = Some(codec);
                    self.es_stats.insert(pid, stats);
                    proof {
                        assert(self.es_stats@ =~= old(self).es_stats@.insert(
                            pid,
                            (EsStats { codec: self.es_stats@[pid].codec, ..old(
                                self,
                            ).es_stats@[pid] }),
                        ));
                    }
                } else {
                    self.es_stats.insert(pid, stats);
                    proof {
                        assert(self.es_stats@ =~= old(self).es_stats@);
                    }
                }
            },
            None => {
                proof {
                    assert(self.es_stats@ =~= old(self).es_stats@);
                }
            },
        }
    }

    /// Records a tracked PID's latest PTS.
    pub fn update_pts(&mut self, pid: u16, pts: u64)
        requires
            old(self).wf(),
            pid < PID_LIMIT,
        ensures
            final(self).wf(),
            !old(self).es_stats@.contains_key(pid) ==> final(self).es_stats@ == old(
                self,
            ).es_stats@,
            old(self).es_stats@.contains_key(pid) ==> final(self).es_stats@ == old(
                self,
            ).es_stats@.insert(
                pid,
                (EsStats { last_pts: Some(pts), ..old(self).es_stats@[pid] }),
            ),
    {
        match self.es_stats.take(pid) {
            Some(mut stats) => {
                stats.last_pts = Some(pts);
                self.es_stats.insert(pid, stats);
                proof {
                    assert(self.es_stats@ =~= old(self).es_stats@.insert(
                        pid,
                        (EsStats { last_pts: Some(pts), ..old(self).es_stats@[pid] }),
                    ));
                }
            },
            None => {
                proof {
                    assert(self.es_stats@ =~= old(self).es_stats@);
                }
            },
        }
    }

    /// The stats record for a PID, if tracked.
    pub fn get(&self, pid: u16) -> (r: Option<&EsStats>)
        requires
            self.wf(),
            pid < PID_LIMIT,
        ensures
            r is Some <==> self.es_stats@.contains_key(pid),
            r matches Some(s) ==> *s == self.es_stats@[pid],
    {
        self.es_stats.get(pid)
    }

    /// Removes and returns the record for a PID, for in-place edits.
    pub fn take(&mut self, pid: u16) -> (r: Option<EsStats>)
        requires
            old(self).wf(),
            pid < PID_LIMIT,
        ensures
            final(self).wf(),
            r is Some <==> old(self).es_stats@.contains_key(pid),
            r matches Some(s) ==> s == old(self).es_stats@[pid],
            final(self).es_stats@ == old(self).es_stats@.remove(pid),
    {
        self.es_stats.take(pid)
    }

    /// Puts a record back.
    pub fn put(&mut self, pid: u16, stats: EsStats)
        requires
            old(self).wf(),
            pid < PID_LIMIT,
        ensures
            final(self).wf(),
            final(self).es_stats@ == old(self).es_stats@.insert(pid, stats),
    {
        self.es_stats.insert(pid, stats);
    }

    /// Whether a PID is tracked.
    pub fn contains_pid(&self, pid: u16) -> (r: bool)
        requires
            self.wf(),
            pid < PID_LIMIT,
        ensures
            r == self.es_stats@.contains_key(pid),
    {
        self.es_stats.contains(pid)
    }

    /// Evicts every stream older than `timeout_ms`: afterwards, exactly the
    /// PIDs first seen less than `timeout_ms` ago remain, unchanged.
    #[verifier::rlimit(100)]
    #[verifier::spinoff_prover]
    pub fn cleanup_old_streams(&mut self, timeout_ms: u64, now_ms: u64)
        requires
            old(self).wf(),
        ensures
            final(self).wf(),
            forall|p: u16|
                final(self).es_stats@.contains_key(p) <==> (#[trigger] old(
                    self,
                ).es_stats@.contains_key(p) && now_ms.saturating_sub(
                    old(self).es_stats@[p].start_ms,
                ) < timeout_ms),
            forall|p: u16|
                final(self).es_stats@.contains_key(p) ==> #[trigger] final(self).es_stats@[p]
                    == old(self).es_stats@[p],
    {
        let mut pid: usize = 0;
        while pid < PID_LIMIT
            invariant
                self.wf(),
                pid <= PID_LIMIT,
                forall|p: u16|
                    p < pid ==> (self.es_stats@.contains_key(p) <==> (#[trigger] old(
                        self,
                    ).es_stats@.contains_key(p) && now_ms.saturating_sub(
                        old(self).es_stats@[p].start_ms,
                    ) < timeout_ms)),
                forall|p: u16|
                    p >= pid ==> (#[trigger] self.es_stats@.contains_key(p) == old(
                        self,
                    ).es_stats@.contains_key(p)),
                forall|p: u16|
                    self.es_stats@.contains_key(p) ==> #[trigger] self.es_stats@[p] == old(
                        self,
                    ).es_stats@[p],
            decreases PID_LIMIT - pid,
        {
            let p = pid as u16;
            let ghost pre = self.es_stats@;
            let stale: bool = match self.es_stats.get(p) {
                Some(stats) => !(now_ms.saturating_sub(stats.start_ms) < timeout_ms),
                None => false,
            };
            if stale {
                self.es_stats.remove(p);
            }
            proof {
                assert(forall|q: u16|
                    q != p ==> #[trigger] self.es_stats@.contains_key(q) == pre.contains_key(q)
                        && (pre.contains_key(q) ==> self.es_stats@[q] == pre[q]));
                if old(self).es_stats@.contains_key(p) {
                    assert(self.es_stats@.contains_key(p) <==> now_ms.saturating_sub(
                        old(self).es_stats@[p].start_ms,
                    ) < timeout_ms);
                } else {
                    assert(!self.es_stats@.contains_key(p));
                }
            }
            pid += 1;
        }
        proof {
            self.es_stats.lemma_keys_lt_limit();
            old(self).es_stats.lemma_keys_lt_limit();
        }
    }

    /// The long-window average bitrate of a tracked PID in kilobits per
    /// second: bits since the stream started over the elapsed time, with
    /// the elapsed time floored at a tenth of a second.
    pub fn calculate_bitrate(&self, pid: u16, now_ms: u64) -> (r: Option<u64>)
        requires
            self.wf(),
            pid < PID_LIMIT,
        ensures
            r is Some <==> self.es_stats@.contains_key(pid),
            r matches Some(kbps) ==> ({
                let s = self.es_stats@[pid];
                let bits = if s.bytes > u64::MAX / 8 {
                    u64::MAX
                } else {
                    (s.bytes * 8) as u64
                };
                let elapsed = now_ms.saturating_sub(s.start_ms);
                kbps == bits / (if elapsed < 100 {
                    100u64
                } else {
                    elapsed
                })
            }),
    {
        match self.es_stats.get(pid) {
            Some(stats) => {
                let bits: u64 = if stats.bytes > u64::MAX / 8 {
                    u64::MAX
                } else {
                    stats.bytes * 8
                };
                let elapsed = now_ms.saturating_sub(stats.start_ms);
                let divisor: u64 = if elapsed < 100 {
                    100
                } else {
                    elapsed
                };
                Some(bits / divisor)
            },
            None => None,
        }
    }

    /// The tracked PIDs, in ascending order.
    pub fn get_all_pids(&self) -> (r: Vec<u16>)
        requires
            self.wf(),
        ensures
            forall|j: int|
                0 <= j < r@.len() ==> self.es_stats@.contains_key(r@[j]) && r@[j] < PID_LIMIT,
            forall|p: u16| self.es_stats@.contains_key(p) ==> r@.contains(p),
            forall|j1: int, j2: int| 0 <= j1 < j2 < r@.len() ==> r@[j1] < r@[j2],
    {
        self.es_stats.keys()
    }
}

} // verus!
