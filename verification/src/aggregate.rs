//! Folding per-host outcomes into the run's result set.
//!
//! Each token's processing produces one [`HostOutcome`]; merging them
//! builds a token-keyed result mapping — last write wins when a token
//! repeats — plus the run-wide counters.

use crate::lookup::LookupOutcome;
use vstd::prelude::*;

verus! {

/// The ports one successfully queried address reported.
pub struct AddressReport {
    pub address: String,
    pub ports: Vec<u16>,
}

/// Everything one token's processing came to: the reports of its
/// successfully queried addresses, and how many address queries
/// succeeded and failed.
pub struct HostOutcome {
    pub token: String,
    pub reports: Vec<AddressReport>,
    pub success_count: u64,
    pub fail_count: u64,
}

impl HostOutcome {
    /// A fresh outcome for one token, with nothing recorded yet.
    pub fn new(token: String) -> (r: HostOutcome)
        ensures
            r.token == token,
            r.reports@ =~= Seq::<AddressReport>::empty(),
            r.success_count == 0,
            r.fail_count == 0,
    {
        HostOutcome { token, reports: Vec::new(), success_count: 0, fail_count: 0 }
    }

    /// Record one address's post-retry outcome: a success adds its
    /// report and bumps the success counter, a failure only bumps the
    /// failure counter. A failure never disturbs what the token's
    /// other addresses yielded.
    pub fn record(&mut self, outcome: LookupOutcome)
        requires
            old(self).success_count < u64::MAX,
            old(self).fail_count < u64::MAX,
        ensures
            final(self).token == old(self).token,
            (match outcome {
                LookupOutcome::Success { address, ports, hostnames } => {
                    &&& final(self).reports@ == old(self).reports@.push(
                        AddressReport { address, ports },
                    )
                    &&& final(self).success_count == old(self).success_count + 1
                    &&& final(self).fail_count == old(self).fail_count
                },
                LookupOutcome::Failure { address, reason } => {
                    &&& final(self).reports@ == old(self).reports@
                    &&& final(self).success_count == old(self).success_count
                    &&& final(self).fail_count == old(self).fail_count + 1
                },
            }),
    {
        match outcome {
            LookupOutcome::Success { address, ports, hostnames: _ } => {
                self.reports.push(AddressReport { address, ports });
                self.success_count = self.success_count + 1;
            },
            LookupOutcome::Failure { address: _, reason: _ } => {
                self.fail_count = self.fail_count + 1;
            },
        }
    }
}

/// The reports of the successful outcomes, in query order.
pub open spec fn successes_of(outcomes: Seq<LookupOutcome>) -> Seq<AddressReport>
    decreases outcomes.len(),
{
    if outcomes.len() == 0 {
        Seq::empty()
    } else {
        successes_of(outcomes.drop_last()) + (match outcomes.last() {
            LookupOutcome::Success { address, ports, hostnames } => seq![
                AddressReport { address, ports },
            ],
            LookupOutcome::Failure { address, reason } => Seq::empty(),
        })
    }
}

/// How many of the outcomes are successes.
pub open spec fn success_count_of(outcomes: Seq<LookupOutcome>) -> int
    decreases outcomes.len(),
{
    if outcomes.len() == 0 {
        0
    } else {
        success_count_of(outcomes.drop_last()) + (if outcomes.last() is Success {
            1int
        } else {
            0int
        })
    }
}

/// One token's host outcome assembled from its addresses' post-retry
/// outcomes. Every query is accounted: successes carry their reports
/// over, failures are only counted — one address's failure never
/// disturbs the others — and the two counters add up to the number of
/// outcomes.
pub fn collect_host_outcome(token: String, outcomes: Vec<LookupOutcome>) -> (r: HostOutcome)
    requires
        outcomes@.len() <= u64::MAX,
    ensures
        r.token == token,
        r.reports@ =~= successes_of(outcomes@),
        r.success_count == success_count_of(outcomes@),
        r.success_count + r.fail_count == outcomes@.len(),
{
    let ghost all = outcomes@;
    let n = outcomes.len();
    let mut host = HostOutcome::new(token);
    let mut outcomes = outcomes;
    let mut i: usize = 0;
    // Walk the outcomes front to back; `remove(0)` hands each one over
    // by value.
    while i < n
        invariant
            0 <= i <= n,
            n == all.len() <= u64::MAX,
            outcomes@ =~= all.skip(i as int),
            host.reports@ =~= successes_of(all.take(i as int)),
            host.success_count == success_count_of(all.take(i as int)),
            host.success_count + host.fail_count == i,
            host.token == token,
        decreases n - i,
    {
        let outcome = outcomes.remove(0);
        proof {
            assert(outcome == all[i as int]);
            assert(all.take(i + 1).drop_last() =~= all.take(i as int));
            assert(all.take(i + 1).last() == all[i as int]);
        }
        host.record(outcome);
        proof {
            assert(outcomes@ =~= all.skip(i + 1));
            assert(host.reports@ =~= successes_of(all.take(i + 1)));
        }
        i = i + 1;
    }
    proof {
        assert(all.take(n as int) =~= all);
    }
    host
}

/// One row of the final mapping: a token and the reports its last
/// merge brought.
pub struct HostEntry {
    pub token: String,
    pub reports: Vec<AddressReport>,
}

/// Whether some entry carries this token.
pub open spec fn has_token(entries: Seq<HostEntry>, token: Seq<char>) -> bool {
    exists|i: int| 0 <= i < entries.len() && entries[i].token@ == token
}

/// Token-keyed result mapping plus run counters, built up merge by
/// merge over the run and read once at the end.
pub struct AggregateResult {
    pub entries: Vec<HostEntry>,
    pub hosts_processed: u64,
    pub queries_ok: u64,
    pub queries_failed: u64,
}

impl AggregateResult {
    /// The mapping's invariant: every token owns at most one entry.
    pub open spec fn wf(&self) -> bool {
        forall|i: int, j: int|
            0 <= i < j < self.entries@.len() ==> self.entries@[i].token@ != self.entries@[j].token@
    }

    pub fn new() -> (r: AggregateResult)
        ensures
            r.wf(),
            r.entries@ =~= Seq::<HostEntry>::empty(),
            r.hosts_processed == 0,
            r.queries_ok == 0,
            r.queries_failed == 0,
    {
        AggregateResult { entries: Vec::new(), hosts_processed: 0, queries_ok: 0, queries_failed: 0 }
    }

    /// Fold one host's outcome in. The host and query counters grow
    /// by what the outcome carries; the outcome's reports replace the
    /// token's previous entry when there is one — last write wins —
    /// and become a new entry otherwise.
    pub fn merge(&mut self, outcome: HostOutcome)
        requires
            old(self).wf(),
            old(self).hosts_processed < u64::MAX,
            old(self).queries_ok + outcome.success_count <= u64::MAX,
            old(self).queries_failed + outcome.fail_count <= u64::MAX,
        ensures
            final(self).wf(),
            final(self).hosts_processed == old(self).hosts_processed + 1,
            final(self).queries_ok == old(self).queries_ok + outcome.success_count,
            final(self).queries_failed == old(self).queries_failed + outcome.fail_count,
            (if has_token(old(self).entries@, outcome.token@) {
                exists|i: int|
                    0 <= i < old(self).entries@.len() && old(self).entries@[i].token@
                        == outcome.token@ && final(self).entries@ =~= old(self).entries@.update(
                        i,
                        HostEntry { token: outcome.token, reports: outcome.reports },
                    )
            } else {
                final(self).entries@ =~= old(self).entries@.push(
                    HostEntry { token: outcome.token, reports: outcome.reports },
                )
            }),
    {
        let HostOutcome { token, reports, success_count, fail_count } = outcome;
        let entry = HostEntry { token, reports };
        let n = self.entries.len();
        let mut i: usize = 0;
        let mut found: bool = false;
        while i < n && !found
            invariant
                0 <= i <= n,
                n == self.entries@.len(),
                !found ==> forall|j: int| 0 <= j < i ==> self.entries@[j].token@ != entry.token@,
                found ==> i < n && self.entries@[i as int].token@ == entry.token@,
            decreases n - i + (if found { 0int } else { 1int }),
        {
            if self.entries[i].token == entry.token {
                found = true;
            } else {
                i = i + 1;
            }
        }
        if found {
            self.entries.remove(i);
            self.entries.insert(i, entry);
            proof {
                assert(self.entries@ =~= old(self).entries@.update(
                    i as int,
                    HostEntry { token: outcome.token, reports: outcome.reports },
                ));
            }
        } else {
            self.entries.push(entry);
        }
        self.hosts_processed = self.hosts_processed + 1;
        self.queries_ok = self.queries_ok + success_count;
        self.queries_failed = self.queries_failed + fail_count;
    }
}

} // verus!
