//! Bookkeeping of a scan: progress reports and the final summary.
use vstd::prelude::*;
use crate::models::{ScanProgress, ScanStatus};


verus! {

broadcast use vstd::string::group_string_axioms;

/// What a scan found and indexed under a root path.
pub struct ScanSummary {
    pub root_path: String,
    pub discovered: usize,
    pub indexed: usize,
}

/// The report sent before the filesystem walk starts.
pub fn scanning_progress() -> (r: ScanProgress)
    ensures
        r.total_found == 0,
        r.current == 0,
        r.current_path@ == "Scanning filesystem..."@,
        r.phase@ == "scanning"@,
{
    ScanProgress {
        total_found: 0,
        current: 0,
        current_path: "Scanning filesystem...".to_owned(),
        phase: "scanning".to_owned(),
    }
}

/// The report sent while indexing environment number `index` (counted from 0)
/// of `total`.
pub fn indexing_progress(total: usize, index: usize, path: &String) -> (r: ScanProgress)
    requires
        index < usize::MAX,
    ensures
        r.total_found == total,
        r.current == index + 1,
        r.current_path@ == path@,
        r.phase@ == "indexing"@,
{
    ScanProgress {
        total_found: total,
        current: index + 1,
        current_path: path.clone(),
        phase: "indexing".to_owned(),
    }
}

/// The summary a demo "scan" reports: the demo environments, all of them
/// counted as found and indexed, under the root `demo`.
pub fn demo_scan_summary(status: &ScanStatus) -> (r: ScanSummary)
    ensures
        r.root_path@ == "demo"@,
        r.discovered == status.venv_count as usize,
        r.indexed == status.venv_count as usize,
{
    ScanSummary {
        root_path: "demo".to_owned(),
        discovered: status.venv_count as usize,
        indexed: status.venv_count as usize,
    }
}

/// Counts environments while a scan indexes them: each environment found is
/// recorded once, as stored or skipped.
pub struct ScanTally {
    discovered: usize,
    recorded: usize,
    indexed: usize,
}

/// The counters of a `ScanTally`.
pub ghost struct TallySpec {
    pub discovered: nat,
    pub recorded: nat,
    pub indexed: nat,
}

impl View for ScanTally {
    type V = TallySpec;

    closed spec fn view(&self) -> TallySpec {
        TallySpec {
            discovered: self.discovered as nat,
            recorded: self.recorded as nat,
            indexed: self.indexed as nat,
        }
    }
}

impl ScanTally {
    #[verifier::type_invariant]
    spec fn counts_fit(self) -> bool {
        self.indexed <= self.recorded <= self.discovered
    }

    /// A tally for a scan that found `discovered` environments.
    pub fn new(discovered: usize) -> (r: ScanTally)
        ensures
            r@ == (TallySpec { discovered: discovered as nat, recorded: 0, indexed: 0 }),
    {
        ScanTally { discovered, recorded: 0, indexed: 0 }
    }

    /// Records the outcome for the next environment: counted as indexed only
    /// when it was stored.
    pub fn record(&mut self, stored: bool)
        requires
            old(self)@.recorded < old(self)@.discovered,
        ensures
            final(self)@ == (TallySpec {
                discovered: old(self)@.discovered,
                recorded: old(self)@.recorded + 1,
                indexed: old(self)@.indexed + if stored {
                    1nat
                } else {
                    0nat
                },
            }),
    {
        proof {
            use_type_invariant(&*self);
        }
        let recorded = self.recorded + 1;
        let indexed = if stored {
            self.indexed + 1
        } else {
            self.indexed
        };
        *self = ScanTally { discovered: self.discovered, recorded, indexed };
    }

    /// The summary of the scan under `root_path`; a scan never reports more
    /// environments indexed than it found.
    pub fn summary(&self, root_path: String) -> (r: ScanSummary)
        ensures
            r.root_path@ == root_path@,
            r.discovered == self@.discovered,
            r.indexed == self@.indexed,
            r.indexed <= r.discovered,
    {
        proof {
            use_type_invariant(self);
        }
        ScanSummary { root_path, discovered: self.discovered, indexed: self.indexed }
    }
}

} // verus!
