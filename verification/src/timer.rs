use vstd::prelude::*;
use crate::key::{TransactionKey, KeyView};

verus! {

/// Timer durations of RFC 3261 Section 17, in milliseconds.
#[derive(Debug, Clone, Copy, PartialEq, Eq, Structural)]
pub struct TimerSettings {
    /// T1, the round-trip estimate and first retransmission interval.
    pub t1: u64,
    /// T2, the cap of the retransmission interval.
    pub t2: u64,
    /// T4, the longest a message stays in the network.
    pub t4: u64,
    /// Timers B and F: how long a client waits for a final response.
    pub transaction_timeout: u64,
    /// Timer D: how long an INVITE client waits in Completed.
    pub wait_time_d: u64,
    /// Timer K: how long a non-INVITE client waits in Completed.
    pub wait_time_k: u64,
    /// Timer J: how long a non-INVITE server waits in Completed.
    pub wait_time_j: u64,
}

impl TimerSettings {
    /// Settings with which retransmission intervals can be doubled without overflow.
    pub open spec fn wf(self) -> bool {
        self.t1 <= u64::MAX / 2 && self.t2 <= u64::MAX / 2
    }

    /// The defaults of RFC 3261: T1 = 500 ms, T2 = 4 s, T4 = 5 s, timers B
    /// and F at 64*T1, timer D at 32 s, timer K at T4 and timer J at 64*T1.
    pub open spec fn spec_default() -> Self {
        TimerSettings {
            t1: 500,
            t2: 4000,
            t4: 5000,
            transaction_timeout: 32000,
            wait_time_d: 32000,
            wait_time_k: 5000,
            wait_time_j: 32000,
        }
    }
}

impl Default for TimerSettings {
    fn default() -> (s: Self)
        ensures
            s == TimerSettings::spec_default(),
    {
        TimerSettings {
            t1: 500,
            t2: 4000,
            t4: 5000,
            transaction_timeout: 32000,
            wait_time_d: 32000,
            wait_time_k: 5000,
            wait_time_j: 32000,
        }
    }
}

/// The basic timer durations T1, T2 and T4, in milliseconds.
#[derive(Debug, Clone, Copy, PartialEq, Eq, Structural)]
pub struct TimerConfig {
    /// T1, the round-trip estimate.
    pub t1: u64,
    /// T2, the cap of retransmission intervals.
    pub t2: u64,
    /// T4, the longest a message stays in the network.
    pub t4: u64,
}

impl Default for TimerConfig {
    /// T1 = 500 ms, T2 = 4 s, T4 = 5 s, as RFC 3261 recommends.
    fn default() -> (c: Self)
        ensures
            c == (TimerConfig { t1: 500, t2: 4000, t4: 5000 }),
    {
        TimerConfig { t1: 500, t2: 4000, t4: 5000 }
    }
}

/// The transactions registered for timer events, and the settings the
/// timers were made with. A timer that fires for a transaction that is no
/// longer registered is dropped.
#[derive(Debug)]
pub struct TimerManager {
    settings: TimerSettings,
    registered: Vec<TransactionKey>,
}

impl TimerManager {
    /// The settings.
    pub closed spec fn spec_settings(&self) -> TimerSettings {
        self.settings
    }

    /// The registered transactions.
    pub closed spec fn spec_registered(&self) -> Set<KeyView> {
        self.registered@.map_values(|k: TransactionKey| k@).to_set()
    }

    /// Each transaction registered at most once.
    pub closed spec fn wf(&self) -> bool {
        forall|i: int, j: int|
            0 <= i < self.registered@.len() && 0 <= j < self.registered@.len() && i != j
                ==> (#[trigger] self.registered@[i])@ != (#[trigger] self.registered@[j])@
    }

    /// A manager with the given settings, or the defaults, and no transaction.
    pub fn new(settings: Option<TimerSettings>) -> (m: Self)
        ensures
            m.wf(),
            m.spec_settings() == match settings {
                Some(s) => s,
                None => TimerSettings::spec_default(),
            },
            m.spec_registered() == Set::<KeyView>::empty(),
    {
        let settings = match settings {
            Some(s) => s,
            None => TimerSettings::default(),
        };
        let m = TimerManager { settings, registered: Vec::new() };
        proof {
            assert(m.spec_registered() =~= Set::<KeyView>::empty());
        }
        m
    }

    /// The settings.
    pub fn settings(&self) -> (s: &TimerSettings)
        ensures
            *s == self.spec_settings(),
    {
        &self.settings
    }

    /// Whether timers of this transaction are delivered.
    pub fn is_registered(&self, key: &TransactionKey) -> (r: bool)
        ensures
            r == self.spec_registered().contains(key@),
    {
        let mut i: usize = 0;
        while i < self.registered.len()
            invariant
                i <= self.registered@.len(),
                forall|j: int| 0 <= j < i ==> (#[trigger] self.registered@[j])@ != key@,
            decreases self.registered.len() - i,
        {
            if self.registered[i].same_as(key) {
                proof {
                    assert(self.registered@.map_values(|k: TransactionKey| k@)[i as int] == key@);
                }
                return true;
            }
            i = i + 1;
        }
        proof {
            if self.spec_registered().contains(key@) {
                let v = self.registered@.map_values(|k: TransactionKey| k@);
                let j = choose|j: int| 0 <= j < v.len() && v[j] == key@;
                assert(self.registered@[j]@ == key@);
            }
        }
        false
    }

    /// Registers a transaction for timer events; registering it again keeps
    /// one registration.
    pub fn register_transaction(&mut self, key: TransactionKey)
        requires
            old(self).wf(),
        ensures
            final(self).wf(),
            final(self).spec_settings() == old(self).spec_settings(),
            final(self).spec_registered() == old(self).spec_registered().insert(key@),
    {
        if self.is_registered(&key) {
            proof {
                assert(self.spec_registered().insert(key@) =~= self.spec_registered());
            }
            return;
        }
        let ghost before = self.registered@;
        let ghost k = key@;
        self.registered.push(key);
        proof {
            assert(self.registered@.map_values(|x: TransactionKey| x@) =~= before.map_values(|x: TransactionKey| x@).push(k));
            before.map_values(|x: TransactionKey| x@).lemma_push_to_set_commute(k);
            assert(self.spec_registered() =~= old(self).spec_registered().insert(k));
            assert forall|i: int, j: int|
                0 <= i < self.registered@.len() && 0 <= j < self.registered@.len() && i != j
                    implies (#[trigger] self.registered@[i])@ != (#[trigger] self.registered@[j])@ by {
                let n = before.len() as int;
                if i < n && j < n {
                    assert(self.registered@[i] == before[i]);
                    assert(self.registered@[j] == before[j]);
                } else if i == n {
                    assert(self.registered@[j] == before[j]);
                    assert(before.map_values(|x: TransactionKey| x@)[j] == before[j]@);
                } else {
                    assert(self.registered@[i] == before[i]);
                    assert(before.map_values(|x: TransactionKey| x@)[i] == before[i]@);
                }
            }
        }
    }

    /// Stops delivering timer events of a transaction.
    pub fn unregister_transaction(&mut self, key: &TransactionKey)
        requires
            old(self).wf(),
        ensures
            final(self).wf(),
            final(self).spec_settings() == old(self).spec_settings(),
            final(self).spec_registered() == old(self).spec_registered().remove(key@),
    {
        let mut i: usize = 0;
        while i < self.registered.len()
            invariant
                i <= self.registered@.len(),
                self.registered@ == old(self).registered@,
                self.settings == old(self).settings,
                old(self).wf(),
                forall|j: int| 0 <= j < i ==> (#[trigger] self.registered@[j])@ != key@,
            decreases self.registered.len() - i,
        {
            if self.registered[i].same_as(key) {
                let ghost before = self.registered@;
                let ghost at: int = i as int;
                self.registered.remove(i);
                proof {
                    let vb = before.map_values(|x: TransactionKey| x@);
                    let va = self.registered@.map_values(|x: TransactionKey| x@);
                    assert forall|x: KeyView| va.to_set().contains(x) <==> vb.to_set().remove(key@).contains(x) by {
                        if va.to_set().contains(x) {
                            let j = choose|j: int| 0 <= j < va.len() && va[j] == x;
                            let oj = if j < at { j } else { j + 1 };
                            assert(vb[oj] == x);
                            assert(oj != at);
                            assert(before[oj]@ != before[at]@);
                        }
                        if vb.to_set().remove(key@).contains(x) {
                            let j = choose|j: int| 0 <= j < vb.len() && vb[j] == x;
                            assert(j != at);
                            if j < at {
                                assert(va[j] == x);
                            } else {
                                assert(va[j - 1] == x);
                            }
                        }
                    }
                    assert(self.spec_registered() =~= old(self).spec_registered().remove(key@));
                    assert forall|a: int, b: int|
                        0 <= a < self.registered@.len() && 0 <= b < self.registered@.len() && a != b
                            implies (#[trigger] self.registered@[a])@ != (#[trigger] self.registered@[b])@ by {
                        let oa = if a < at { a } else { a + 1 };
                        let ob = if b < at { b } else { b + 1 };
                        assert(self.registered@[a] == before[oa]);
                        assert(self.registered@[b] == before[ob]);
                    }
                }
                return;
            }
            i = i + 1;
        }
        proof {
            assert(!self.spec_registered().contains(key@)) by {
                if self.spec_registered().contains(key@) {
                    let v = self.registered@.map_values(|k: TransactionKey| k@);
                    let j = choose|j: int| 0 <= j < v.len() && v[j] == key@;
                    assert(self.registered@[j]@ == key@);
                }
            }
            assert(self.spec_registered().remove(key@) =~= self.spec_registered());
        }
    }
}

impl Default for TimerManager {
    /// A manager with the default settings and no transaction.
    fn default() -> (m: Self)
        ensures
            m.wf(),
            m.spec_settings() == TimerSettings::spec_default(),
            m.spec_registered() == Set::<KeyView>::empty(),
    {
        TimerManager::new(None)
    }
}

/// Registering then unregistering a transaction leaves it unregistered, and
/// every other transaction as it was.
pub proof fn lemma_register_unregister(regs: Set<KeyView>, k: KeyView, other: KeyView)
    requires
        other != k,
    ensures
        !regs.insert(k).remove(k).contains(k),
        regs.insert(k).remove(k).contains(other) == regs.contains(other),
{
}

/// The next retransmission interval after `current`: double it, but no more than T2.
pub open spec fn spec_backoff(current: u64, t2: u64) -> int {
    if 2 * current <= t2 {
        2 * current
    } else {
        t2 as int
    }
}

/// Helper that computes the next interval of a retransmission timer (A or E):
/// the current interval doubled, capped at T2.
pub fn calculate_backoff_interval(current_interval: u64, settings: &TimerSettings) -> (next: u64)
    requires
        current_interval <= u64::MAX / 2,
    ensures
        next == spec_backoff(current_interval, settings.t2),
{
    let doubled = current_interval * 2;
    if doubled <= settings.t2 {
        doubled
    } else {
        settings.t2
    }
}

/// The retransmission interval grows by doubling and never passes T2: the
/// next interval is at most T2 and at most twice the current one, it is
/// either of those two, and below T2 it never shrinks (RFC 3261 Sections
/// 17.1.1.2 and 17.1.2.2).
pub proof fn lemma_backoff_doubles_up_to_t2(current: u64, t2: u64)
    ensures
        spec_backoff(current, t2) <= t2,
        spec_backoff(current, t2) <= 2 * current,
        spec_backoff(current, t2) == 2 * current || spec_backoff(current, t2) == t2,
        current <= t2 ==> spec_backoff(current, t2) >= current,
        2 * current <= t2 ==> spec_backoff(current, t2) == 2 * current,
{
}

} // verus!
