//! The SI cache: the most recent validated PAT, PMTs (by PMT PID), SDT and
//! NIT, each replaced atomically, plus the cross-table consistency check.
use vstd::prelude::*;

use crate::constants::PID_LIMIT;
use crate::nit::NitSection;
use crate::pat::PatSection;
use crate::pidmap::PidMap;
use crate::pmt::PmtSection;
use crate::sdt::SdtSection;

verus! {

pub struct SiCache {
    pub pat: Option<PatSection>,
    pub pmts: PidMap<PmtSection>,
    pub sdt: Option<SdtSection>,
    pub nit: Option<NitSection>,
}

/// A service-id mismatch: some non-zero program of the PAT is absent from
/// the SDT's service list. False when either table is missing.
pub open spec fn service_id_mismatch_spec(pat: Option<PatSection>, sdt: Option<SdtSection>) -> bool {
    match (pat, sdt) {
        (Some(p), Some(s)) => exists|i: int|
            0 <= i < p.programs@.len() && #[trigger] p.programs@[i].program_number != 0 && !(
            exists|j: int|
                0 <= j < s.services@.len() && #[trigger] s.services@[j].service_id
                    == p.programs@[i].program_number),
        _ => false,
    }
}

impl SiCache {
    pub open spec fn wf(&self) -> bool {
        self.pmts.wf()
    }

    /// An empty cache.
    pub fn new() -> (r: SiCache)
        ensures
            r.wf(),
            r.pat is None && r.sdt is None && r.nit is None,
            r.pmts@ == Map::<u16, PmtSection>::empty(),
    {
        SiCache { pat: None, pmts: PidMap::new(), sdt: None, nit: None }
    }

    /// Replaces the cached PAT.
    pub fn update_pat(&mut self, pat: PatSection)
        requires
            old(self).wf(),
        ensures
            final(self).wf(),
            final(self).pat == Some(pat),
            final(self).pmts@ == old(self).pmts@,
            final(self).sdt == old(self).sdt,
            final(self).nit == old(self).nit,
    {
        self.pat = Some(pat);
    }

    /// Replaces the cached PMT for one PMT PID.
    pub fn update_pmt(&mut self, pid: u16, pmt: PmtSection)
        requires
            old(self).wf(),
            pid < PID_LIMIT,
        ensures
            final(self).wf(),
            final(self).pmts@ == old(self).pmts@.insert(pid, pmt),
            final(self).pat == old(self).pat,
            final(self).sdt == old(self).sdt,
            final(self).nit == old(self).nit,
    {
        self.pmts.insert(pid, pmt);
    }

    /// Replaces the cached SDT.
    pub fn update_sdt(&mut self, sdt: SdtSection)
        requires
            old(self).wf(),
        ensures
            final(self).wf(),
            final(self).sdt == Some(sdt),
            final(self).pat == old(self).pat,
            final(self).pmts@ == old(self).pmts@,
            final(self).nit == old(self).nit,
    {
        self.sdt = Some(sdt);
    }

    /// Replaces the cached NIT.
    pub fn update_nit(&mut self, nit: NitSection)
        requires
            old(self).wf(),
        ensures
            final(self).wf(),
            final(self).nit == Some(nit),
            final(self).pat == old(self).pat,
            final(self).pmts@ == old(self).pmts@,
            final(self).sdt == old(self).sdt,
    {
        self.nit = Some(nit);
    }

    /// True exactly when some non-zero program of the cached PAT is absent
    /// from the cached SDT's services. False when either table is missing.
    pub fn check_service_id_mismatch(&self) -> (r: bool)
        ensures
            r == service_id_mismatch_spec(self.pat, self.sdt),
    {
        match (&self.pat, &self.sdt) {
            (Some(pat), Some(sdt)) => {
                let n = pat.programs.len();
                let mut i: usize = 0;
                while i < n
                    invariant
                        self.pat matches Some(p0) && p0 == *pat,
                        self.sdt matches Some(s0) && s0 == *sdt,
                        n == pat.programs@.len(),
                        i <= n,
                        forall|k: int|
                            0 <= k < i ==> !(#[trigger] pat.programs@[k].program_number != 0 && !(
                            exists|j: int|
                                0 <= j < sdt.services@.len()
                                    && #[trigger] sdt.services@[j].service_id
                                    == pat.programs@[k].program_number)),
                    decreases n - i,
                {
                    let pn = pat.programs[i].program_number;
                    if pn != 0 {
                        if !Self::services_contain(sdt, pn) {
                            proof {
                                let ii = i as int;
                                assert(0 <= ii < pat.programs@.len()
                                    && pat.programs@[ii].program_number != 0 && !(exists|j: int|
                                    0 <= j < sdt.services@.len()
                                        && #[trigger] sdt.services@[j].service_id
                                        == pat.programs@[ii].program_number));
                            }
                            return true;
                        }
                    }
                    i += 1;
                }
                false
            },
            _ => false,
        }
    }

    /// Whether the SDT lists `service_id`.
    fn services_contain(sdt: &SdtSection, service_id: u16) -> (r: bool)
        ensures
            r == exists|j: int|
                0 <= j < sdt.services@.len() && #[trigger] sdt.services@[j].service_id
                    == service_id,
    {
        let n = sdt.services.len();
        let mut j: usize = 0;
        while j < n
            invariant
                n == sdt.services@.len(),
                j <= n,
                forall|k: int| 0 <= k < j ==> #[trigger] sdt.services@[k].service_id != service_id,
            decreases n - j,
        {
            if sdt.services[j].service_id == service_id {
                return true;
            }
            j += 1;
        }
        false
    }
}

} // verus!
