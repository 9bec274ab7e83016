//! Health of the services a repository depends on: the verdict of one
//! check, and the report that gathers the verdicts by service name.
use vstd::prelude::*;
use vstd::string::*;

use crate::text::{
    compare_text, lemma_text_less_irreflexive, lemma_text_less_transitive, text_less, TextOrder,
};

verus! {

/// Whether a service answered as it should.
#[derive(Debug, Clone, Copy, PartialEq, Eq, Structural)]
pub enum HealthStatus {
    Healthy,
    Unhealthy,
}

/// The verdict of one check: its status, a message, and how long the
/// service took to answer (none when it did not answer in time).
#[derive(Debug)]
pub struct ServiceHealth {
    pub status: HealthStatus,
    pub message: String,
    pub response_time_ms: Option<u64>,
}

/// How a check ended: the service answered well, answered with an error
/// (given as text), or did not answer before the deadline.
pub enum CheckOutcome {
    Succeeded,
    Failed(String),
    TimedOut,
}

/// How long a check may take before it counts as timed out, in seconds.
pub const HEALTH_CHECK_TIMEOUT_SECS: u64 = 5;

/// The message of a check on `name` that ended with `outcome`.
pub open spec fn outcome_message(name: Seq<char>, outcome: CheckOutcome) -> Seq<char> {
    match outcome {
        CheckOutcome::Succeeded => name + " connection successful"@,
        CheckOutcome::Failed(e) => name + " error: "@ + e@,
        CheckOutcome::TimedOut => name + " connection timeout"@,
    }
}

/// The verdict of a check on `check_name` that ended with `outcome` after
/// `response_time_ms` milliseconds: healthy only on success; the time is
/// kept unless the check timed out.
pub fn health_from_outcome(check_name: &str, outcome: CheckOutcome, response_time_ms: u64) -> (r:
    ServiceHealth)
    ensures
        r.status == (if outcome is Succeeded {
            HealthStatus::Healthy
        } else {
            HealthStatus::Unhealthy
        }),
        r.message@ == outcome_message(check_name@, outcome),
        r.response_time_ms == (if outcome is TimedOut {
            None
        } else {
            Some(response_time_ms)
        }),
{
    let mut message = check_name.to_owned();
    match outcome {
        CheckOutcome::Succeeded => {
            message.append(" connection successful");
            ServiceHealth {
                status: HealthStatus::Healthy,
                message,
                response_time_ms: Some(response_time_ms),
            }
        },
        CheckOutcome::Failed(e) => {
            message.append(" error: ");
            message.append(e.as_str());
            ServiceHealth {
                status: HealthStatus::Unhealthy,
                message,
                response_time_ms: Some(response_time_ms),
            }
        },
        CheckOutcome::TimedOut => {
            message.append(" connection timeout");
            ServiceHealth { status: HealthStatus::Unhealthy, message, response_time_ms: None }
        },
    }
}

/// The verdict of the database check.
pub fn database_health(outcome: CheckOutcome, response_time_ms: u64) -> (r: ServiceHealth)
    ensures
        r.status == (if outcome is Succeeded {
            HealthStatus::Healthy
        } else {
            HealthStatus::Unhealthy
        }),
        r.message@ == outcome_message("Database"@, outcome),
        r.response_time_ms == (if outcome is TimedOut {
            None
        } else {
            Some(response_time_ms)
        }),
{
    health_from_outcome("Database", outcome, response_time_ms)
}

/// The verdict of the Redis check.
pub fn redis_health(outcome: CheckOutcome, response_time_ms: u64) -> (r: ServiceHealth)
    ensures
        r.status == (if outcome is Succeeded {
            HealthStatus::Healthy
        } else {
            HealthStatus::Unhealthy
        }),
        r.message@ == outcome_message("Redis"@, outcome),
        r.response_time_ms == (if outcome is TimedOut {
            None
        } else {
            Some(response_time_ms)
        }),
{
    health_from_outcome("Redis", outcome, response_time_ms)
}

// ---------------------------------------------------------------------
// The report
// ---------------------------------------------------------------------

/// No name occurs twice among the entries.
pub open spec fn distinct_names(s: Seq<(String, ServiceHealth)>) -> bool {
    forall|i: int, j: int| 0 <= i < j < s.len() ==> s[i].0@ != s[j].0@
}

/// The entries are in strictly increasing text order of their names (the
/// order in which a `BTreeMap` keyed by name holds them).
pub open spec fn sorted_names(s: Seq<(String, ServiceHealth)>) -> bool {
    forall|i: int, j: int| 0 <= i < j < s.len() ==> text_less(#[trigger] s[i].0@, #[trigger] s[j].0@)
}

/// Some entry has the name `k`.
pub open spec fn has_name(s: Seq<(String, ServiceHealth)>, k: Seq<char>) -> bool {
    exists|i: int| 0 <= i < s.len() && #[trigger] s[i].0@ == k
}

/// The map from name to verdict that a list of entries with distinct names
/// stands for.
pub open spec fn entries_map(s: Seq<(String, ServiceHealth)>) -> Map<Seq<char>, ServiceHealth> {
    Map::new(
        |k: Seq<char>| has_name(s, k),
        |k: Seq<char>| s[choose|i: int| 0 <= i < s.len() && #[trigger] s[i].0@ == k].1,
    )
}

/// Sorted names are distinct.
pub proof fn lemma_sorted_distinct(s: Seq<(String, ServiceHealth)>)
    requires
        sorted_names(s),
    ensures
        distinct_names(s),
{
    assert forall|i: int, j: int| 0 <= i < j < s.len() implies s[i].0@ != s[j].0@ by {
        assert(text_less(s[i].0@, s[j].0@));
        lemma_text_less_irreflexive(s[i].0@);
    }
}

/// With distinct names, each entry's name maps to that entry's verdict.
pub proof fn lemma_entries_map_get(s: Seq<(String, ServiceHealth)>, i: int)
    requires
        distinct_names(s),
        0 <= i < s.len(),
    ensures
        entries_map(s).contains_key(s[i].0@),
        entries_map(s)[s[i].0@] == s[i].1,
{
    let k = s[i].0@;
    assert(has_name(s, k));
    let j = choose|j: int| 0 <= j < s.len() && #[trigger] s[j].0@ == k;
    assert(j == i);
}

/// Inserting an entry with a new name at any position adds that name.
proof fn lemma_entries_map_insert(s: Seq<(String, ServiceHealth)>, i: int, e: (String, ServiceHealth))
    requires
        distinct_names(s),
        distinct_names(s.insert(i, e)),
        0 <= i <= s.len(),
        !has_name(s, e.0@),
    ensures
        entries_map(s.insert(i, e)) == entries_map(s).insert(e.0@, e.1),
{
    let t = s.insert(i, e);
    let m = entries_map(s).insert(e.0@, e.1);
    assert forall|k: Seq<char>| #[trigger] entries_map(t).contains_key(k) == m.contains_key(k) by {
        if has_name(t, k) && k != e.0@ {
            let j = choose|j: int| 0 <= j < t.len() && #[trigger] t[j].0@ == k;
            if j < i {
                assert(s[j].0@ == k);
            } else {
                assert(s[j - 1].0@ == k);
            }
        }
        if has_name(s, k) {
            let j = choose|j: int| 0 <= j < s.len() && #[trigger] s[j].0@ == k;
            if j < i {
                assert(t[j].0@ == k);
            } else {
                assert(t[j + 1].0@ == k);
            }
        }
        if k == e.0@ {
            assert(t[i].0@ == k);
        }
    }
    assert forall|k: Seq<char>| #[trigger] entries_map(t).contains_key(k) implies entries_map(t)[k]
        == m[k] by {
        let j = choose|j: int| 0 <= j < t.len() && #[trigger] t[j].0@ == k;
        lemma_entries_map_get(t, j);
        if j < i {
            lemma_entries_map_get(s, j);
        } else if j > i {
            lemma_entries_map_get(s, j - 1);
        }
    }
    assert(entries_map(t) =~= m);
}

/// Replacing the verdict of entry `i` replaces the verdict of its name.
proof fn lemma_entries_map_update(s: Seq<(String, ServiceHealth)>, i: int, e: (String, ServiceHealth))
    requires
        distinct_names(s),
        0 <= i < s.len(),
        e.0@ == s[i].0@,
    ensures
        distinct_names(s.update(i, e)),
        entries_map(s.update(i, e)) == entries_map(s).insert(e.0@, e.1),
{
    let t = s.update(i, e);
    let m = entries_map(s).insert(e.0@, e.1);
    assert(distinct_names(t));
    assert forall|k: Seq<char>| #[trigger] entries_map(t).contains_key(k) == m.contains_key(k) by {
        if has_name(t, k) {
            let j = choose|j: int| 0 <= j < t.len() && #[trigger] t[j].0@ == k;
            assert(s[j].0@ == k);
        }
        if has_name(s, k) {
            let j = choose|j: int| 0 <= j < s.len() && #[trigger] s[j].0@ == k;
            assert(t[j].0@ == k);
        }
    }
    assert forall|k: Seq<char>| #[trigger] entries_map(t).contains_key(k) implies entries_map(t)[k]
        == m[k] by {
        let j = choose|j: int| 0 <= j < t.len() && #[trigger] t[j].0@ == k;
        lemma_entries_map_get(t, j);
        if j != i {
            lemma_entries_map_get(s, j);
        }
    }
    assert(entries_map(t) =~= m);
}

/// Every service recorded in `m` is healthy.
pub open spec fn all_healthy(m: Map<Seq<char>, ServiceHealth>) -> bool {
    forall|k: Seq<char>| #[trigger] m.contains_key(k) ==> m[k].status == HealthStatus::Healthy
}

/// Recording a verdict decides the report's health together with the
/// others: the report is healthy afterwards exactly when the new verdict is
/// healthy and every other recorded service was healthy. In particular one
/// unhealthy verdict makes the whole report unhealthy, and replacing a
/// service's verdict forgets the old one.
pub proof fn lemma_health_after_insert(
    m: Map<Seq<char>, ServiceHealth>,
    name: Seq<char>,
    health: ServiceHealth,
)
    ensures
        all_healthy(m.insert(name, health)) == (health.status == HealthStatus::Healthy && forall|
            k: Seq<char>,
        | #[trigger] m.contains_key(k) && k != name ==> m[k].status == HealthStatus::Healthy),
{
    let n = m.insert(name, health);
    if all_healthy(n) {
        assert(n.contains_key(name));
        assert forall|k: Seq<char>| #[trigger] m.contains_key(k) && k != name implies m[k].status
            == HealthStatus::Healthy by {
            assert(n.contains_key(k));
        }
    }
}

/// The verdicts of several checks, by service name, kept in text order of
/// the names.
#[derive(Debug)]
pub struct HealthReport {
    checks: Vec<(String, ServiceHealth)>,
}

impl HealthReport {
    /// The names are in strictly increasing text order.
    #[verifier::type_invariant]
    spec fn names_sorted(self) -> bool {
        sorted_names(self.checks@)
    }
}

impl View for HealthReport {
    type V = Map<Seq<char>, ServiceHealth>;

    closed spec fn view(&self) -> Map<Seq<char>, ServiceHealth> {
        entries_map(self.checks@)
    }
}

impl HealthReport {
    /// A report with no verdicts.
    pub fn new() -> (r: Self)
        ensures
            r@ == Map::<Seq<char>, ServiceHealth>::empty(),
    {
        let r = HealthReport { checks: Vec::new() };
        assert(entries_map(r.checks@) =~= Map::<Seq<char>, ServiceHealth>::empty());
        r
    }

    /// Records the verdict for `name`, replacing any earlier verdict for it.
    pub fn insert(&mut self, name: String, health: ServiceHealth)
        ensures
            final(self)@ == old(self)@.insert(name@, health),
    {
        proof {
            use_type_invariant(&*self);
            lemma_sorted_distinct(self.checks@);
        }
        let n = self.checks.len();
        let mut i: usize = 0;
        let mut found = false;
        while i < n
            invariant_except_break
                !found,
            invariant
                n == self.checks@.len(),
                i <= n,
                forall|j: int| 0 <= j < i ==> text_less(self.checks@[j].0@, name@),
            ensures
                i <= n,
                forall|j: int| 0 <= j < i ==> text_less(self.checks@[j].0@, name@),
                found ==> i < n && self.checks@[i as int].0@ == name@,
                !found && i < n ==> text_less(name@, self.checks@[i as int].0@),
            decreases n - i,
        {
            match compare_text(self.checks[i].0.as_str(), name.as_str()) {
                TextOrder::Before => {
                    i = i + 1;
                },
                TextOrder::Same => {
                    found = true;
                    break;
                },
                TextOrder::After => {
                    break;
                },
            }
        }
        let ghost before = self.checks@;
        let mut checks: Vec<(String, ServiceHealth)> = Vec::new();
        std::mem::swap(&mut checks, &mut self.checks);
        if found {
            checks.set(i, (name, health));
            proof {
                lemma_entries_map_update(before, i as int, checks@[i as int]);
                assert(checks@ =~= before.update(i as int, checks@[i as int]));
                assert(sorted_names(checks@));
            }
        } else {
            let ghost e = (name, health);
            checks.insert(i, (name, health));
            proof {
                assert(checks@ =~= before.insert(i as int, e));
                assert forall|a: int, b: int| 0 <= a < b < checks@.len() implies text_less(
                    #[trigger] checks@[a].0@,
                    #[trigger] checks@[b].0@,
                ) by {
                    if b == i {
                        assert(checks@[a] == before[a]);
                    } else if a == i {
                        assert(checks@[b] == before[b - 1]);
                        if b - 1 > i {
                            lemma_text_less_transitive(name@, before[i as int].0@, before[b - 1].0@);
                        }
                    } else if a < i {
                        if b < i {
                            assert(checks@[b] == before[b]);
                        } else {
                            assert(checks@[b] == before[b - 1]);
                        }
                    } else {
                        assert(checks@[a] == before[a - 1]);
                        assert(checks@[b] == before[b - 1]);
                    }
                }
                lemma_sorted_distinct(checks@);
                assert(!has_name(before, e.0@)) by {
                    if has_name(before, e.0@) {
                        let j = choose|j: int| 0 <= j < before.len() && #[trigger] before[j].0@ == e.0@;
                        if j < i {
                            lemma_text_less_irreflexive(name@);
                        } else {
                            if j > i {
                                lemma_text_less_transitive(name@, before[i as int].0@, before[j].0@);
                            }
                            lemma_text_less_irreflexive(name@);
                        }
                    }
                }
                lemma_entries_map_insert(before, i as int, e);
            }
        }
        self.checks = checks;
    }

    /// Whether every recorded service is healthy (true when none is recorded).
    pub fn is_healthy(&self) -> (r: bool)
        ensures
            r == all_healthy(self@),
    {
        proof {
            use_type_invariant(self);
            lemma_sorted_distinct(self.checks@);
        }
        let n = self.checks.len();
        let mut i: usize = 0;
        while i < n
            invariant
                n == self.checks@.len(),
                i <= n,
                distinct_names(self.checks@),
                forall|j: int| 0 <= j < i ==> self.checks@[j].1.status == HealthStatus::Healthy,
            decreases n - i,
        {
            if self.checks[i].1.status != HealthStatus::Healthy {
                proof {
                    lemma_entries_map_get(self.checks@, i as int);
                }
                return false;
            }
            i = i + 1;
        }
        proof {
            assert forall|k: Seq<char>| #[trigger] self@.contains_key(k) implies self@[k].status
                == HealthStatus::Healthy by {
                let j = choose|j: int| 0 <= j < self.checks@.len() && #[trigger] self.checks@[j].0@
                    == k;
                lemma_entries_map_get(self.checks@, j);
            }
        }
        true
    }

    /// The verdict recorded for `name`, if any.
    pub fn get(&self, name: &str) -> (r: Option<&ServiceHealth>)
        ensures
            match r {
                Some(h) => self@.contains_key(name@) && *h == self@[name@],
                None => !self@.contains_key(name@),
            },
    {
        proof {
            use_type_invariant(self);
            lemma_sorted_distinct(self.checks@);
        }
        let n = self.checks.len();
        let mut i: usize = 0;
        while i < n
            invariant
                n == self.checks@.len(),
                i <= n,
                distinct_names(self.checks@),
                forall|j: int| 0 <= j < i ==> self.checks@[j].0@ != name@,
            decreases n - i,
        {
            match compare_text(self.checks[i].0.as_str(), name) {
                TextOrder::Same => {
                    proof {
                        lemma_entries_map_get(self.checks@, i as int);
                    }
                    return Some(&self.checks[i].1);
                },
                _ => {},
            }
            i = i + 1;
        }
        proof {
            if self@.contains_key(name@) {
                let j = choose|j: int| 0 <= j < self.checks@.len() && #[trigger] self.checks@[j].0@
                    == name@;
                assert(self.checks@[j].0@ == name@);
            }
        }
        None
    }

    /// The recorded verdicts, one entry per name, in text order of the names.
    pub fn entries(&self) -> (r: &Vec<(String, ServiceHealth)>)
        ensures
            entries_map(r@) == self@,
            sorted_names(r@),
            distinct_names(r@),
    {
        proof {
            use_type_invariant(self);
            lemma_sorted_distinct(self.checks@);
        }
        &self.checks
    }
}

impl Default for HealthReport {
    fn default() -> (r: Self)
        ensures
            r@ == Map::<Seq<char>, ServiceHealth>::empty(),
    {
        Self::new()
    }
}

} // verus!
