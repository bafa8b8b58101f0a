//! An in-process metrics registry: validation, circuit-breaker and cache
//! counters, with labeled counters kept as unique association lists.

use vstd::prelude::*;

verus! {

/// The first position of a label in a counter list, or -1.
pub open spec fn label_index(s: Seq<(String, u64)>, l: Seq<char>) -> int
    decreases s.len(),
{
    if s.len() == 0 {
        -1
    } else if s[0].0@ == l {
        0
    } else {
        let r = label_index(s.drop_first(), l);
        if r < 0 {
            -1
        } else {
            r + 1
        }
    }
}

/// `x + 1`, stopping at the counter's ceiling.
fn bump(x: u64) -> (r: u64)
    ensures
        r == if x < u64::MAX {
            x + 1
        } else {
            x as int
        },
{
    if x < u64::MAX {
        x + 1
    } else {
        x
    }
}

/// Bump the counter of one label in a labeled counter list: the first
/// entry with that label grows by one, or a fresh entry with count one is
/// appended.
fn bump_label(v: &mut Vec<(String, u64)>, label: String)
    ensures
        label_index(old(v)@, label@) < 0 ==> final(v)@.len() == old(v)@.len() + 1
            && final(v)@[old(v)@.len() as int].0@ == label@
            && final(v)@[old(v)@.len() as int].1 == 1
            && (forall|j: int| 0 <= j < old(v)@.len() ==> final(v)@[j] == old(v)@[j]),
        label_index(old(v)@, label@) >= 0 ==> ({
            let i = label_index(old(v)@, label@);
            final(v)@.len() == old(v)@.len() && final(v)@[i].0 == old(v)@[i].0 && final(v)@[i].1
                == (if old(v)@[i].1 < u64::MAX {
                old(v)@[i].1 + 1
            } else {
                old(v)@[i].1 as int
            }) && (forall|j: int| 0 <= j < old(v)@.len() && j != i ==> final(v)@[j] == old(v)@[j])
        }),
{
    let ghost pre = v@;
    let n = v.len();
    let mut i: usize = 0;
    proof {
        assert(v@.skip(0) =~= v@);
    }
    while i < n
        invariant
            i <= n,
            n == v@.len(),
            v@ == pre,
            pre == old(v)@,
            label_index(v@, label@) == (if label_index(v@.skip(i as int), label@) < 0 {
                -1
            } else {
                i + label_index(v@.skip(i as int), label@)
            }),
        decreases n - i,
    {
        proof {
            assert(v@.skip(i as int)[0] == v@[i as int]);
            assert(v@.skip(i as int).drop_first() =~= v@.skip(i + 1));
        }
        if v[i].0 == label {
            proof {
                assert(label_index(v@.skip(i as int), label@) == 0);
                assert(label_index(pre, label@) == i as int);
            }
            let count = v[i].1;
            let name = v.remove(i);
            let bumped: u64 = if count < u64::MAX {
                count + 1
            } else {
                count
            };
            v.insert(i, (name.0, bumped));
            proof {
                assert(v@ =~= pre.update(i as int, (pre[i as int].0, bumped)));
            }
            return ;
        }
        i += 1;
    }
    proof {
        assert(v@.skip(n as int) =~= Seq::<(String, u64)>::empty());
        assert(label_index(pre, label@) < 0);
    }
    v.push((label, 1));
}

/// The in-process metrics registry.
pub struct Metrics {
    pub api_key_validation_total: u64,
    pub api_key_validation_success: u64,
    pub api_key_validation_failed: Vec<(String, u64)>,
    pub api_key_validation_duration_ms_total: u64,
    pub api_key_validation_duration_count: u64,
    pub circuit_breaker_state_changes: Vec<(String, u64)>,
    pub circuit_breaker_rejected: u64,
    pub cache_hits: u64,
    pub cache_misses: u64,
}

impl Metrics {
    /// A registry with every counter at zero.
    pub fn new() -> (r: Self)
        ensures
            r.api_key_validation_total == 0,
            r.api_key_validation_success == 0,
            r.api_key_validation_failed@.len() == 0,
            r.api_key_validation_duration_ms_total == 0,
            r.api_key_validation_duration_count == 0,
            r.circuit_breaker_state_changes@.len() == 0,
            r.circuit_breaker_rejected == 0,
            r.cache_hits == 0,
            r.cache_misses == 0,
    {
        Metrics {
            api_key_validation_total: 0,
            api_key_validation_success: 0,
            api_key_validation_failed: Vec::new(),
            api_key_validation_duration_ms_total: 0,
            api_key_validation_duration_count: 0,
            circuit_breaker_state_changes: Vec::new(),
            circuit_breaker_rejected: 0,
            cache_hits: 0,
            cache_misses: 0,
        }
    }

    /// Record one API key validation: the total always grows; a success
    /// grows the success counter, a failure the counter of its reason
    /// (or of "unknown"); the duration is accumulated in milliseconds.
    pub fn record_validation_metrics(&mut self, success: bool, error_type: Option<&str>,
        duration_ms: u64)
        ensures
            final(self).api_key_validation_total == (if old(self).api_key_validation_total
                < u64::MAX {
                old(self).api_key_validation_total + 1
            } else {
                old(self).api_key_validation_total as int
            }),
            success ==> final(self).api_key_validation_success == (if old(self).api_key_validation_success < u64::MAX {
                old(self).api_key_validation_success + 1
            } else {
                old(self).api_key_validation_success as int
            }) && final(self).api_key_validation_failed@ == old(self).api_key_validation_failed@,
            !success ==> final(self).api_key_validation_success == old(self).api_key_validation_success,
            final(self).api_key_validation_duration_count == (if old(self).api_key_validation_duration_count < u64::MAX {
                old(self).api_key_validation_duration_count + 1
            } else {
                old(self).api_key_validation_duration_count as int
            }),
            final(self).api_key_validation_duration_ms_total == (if old(self).api_key_validation_duration_ms_total + duration_ms <= u64::MAX {
                old(self).api_key_validation_duration_ms_total + duration_ms
            } else {
                u64::MAX as int
            }),
            final(self).circuit_breaker_state_changes == old(self).circuit_breaker_state_changes,
            final(self).circuit_breaker_rejected == old(self).circuit_breaker_rejected,
            final(self).cache_hits == old(self).cache_hits,
            final(self).cache_misses == old(self).cache_misses,
    {
        self.api_key_validation_total = bump(self.api_key_validation_total);
        if success {
            self.api_key_validation_success = bump(self.api_key_validation_success);
        } else {
            let reason: String = match error_type {
                Some(r) => String::from_str(r),
                None => String::from_str("unknown"),
            };
            bump_label(&mut self.api_key_validation_failed, reason);
        }
        self.api_key_validation_duration_count = bump(self.api_key_validation_duration_count);
        self.api_key_validation_duration_ms_total = match self
            .api_key_validation_duration_ms_total
            .checked_add(duration_ms) {
            Some(t) => t,
            None => u64::MAX,
        };
    }

    /// Record a circuit breaker state change under its state label.
    pub fn record_circuit_breaker_state(&mut self, state: &str)
        ensures
            final(self).api_key_validation_total == old(self).api_key_validation_total,
            final(self).circuit_breaker_rejected == old(self).circuit_breaker_rejected,
            label_index(old(self).circuit_breaker_state_changes@, state@) < 0 ==> final(self).circuit_breaker_state_changes@.len() == old(self).circuit_breaker_state_changes@.len()
                + 1,
            label_index(old(self).circuit_breaker_state_changes@, state@) >= 0 ==> ({
                let i = label_index(old(self).circuit_breaker_state_changes@, state@);
                final(self).circuit_breaker_state_changes@[i].1 == (if old(self).circuit_breaker_state_changes@[i].1 < u64::MAX {
                    old(self).circuit_breaker_state_changes@[i].1 + 1
                } else {
                    old(self).circuit_breaker_state_changes@[i].1 as int
                })
            }),
    {
        bump_label(&mut self.circuit_breaker_state_changes, String::from_str(state));
    }

    /// Record a request rejected by the circuit breaker.
    pub fn record_circuit_breaker_rejection(&mut self)
        ensures
            final(self).circuit_breaker_rejected == (if old(self).circuit_breaker_rejected
                < u64::MAX {
                old(self).circuit_breaker_rejected + 1
            } else {
                old(self).circuit_breaker_rejected as int
            }),
            final(self).cache_hits == old(self).cache_hits,
            final(self).cache_misses == old(self).cache_misses,
    {
        self.circuit_breaker_rejected = bump(self.circuit_breaker_rejected);
    }

    /// Record a cache hit.
    pub fn record_cache_hit(&mut self)
        ensures
            final(self).cache_hits == (if old(self).cache_hits < u64::MAX {
                old(self).cache_hits + 1
            } else {
                old(self).cache_hits as int
            }),
            final(self).cache_misses == old(self).cache_misses,
    {
        self.cache_hits = bump(self.cache_hits);
    }

    /// Record a cache miss.
    pub fn record_cache_miss(&mut self)
        ensures
            final(self).cache_misses == (if old(self).cache_misses < u64::MAX {
                old(self).cache_misses + 1
            } else {
                old(self).cache_misses as int
            }),
            final(self).cache_hits == old(self).cache_hits,
    {
        self.cache_misses = bump(self.cache_misses);
    }
}

} // verus!
