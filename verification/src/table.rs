use vstd::prelude::*;
use crate::state::{TransactionKind, TransactionState, TransactionLifecycle};
use crate::key::{TransactionKey, KeyView};
use crate::runner::TransactionCore;
use crate::message::{opt_view, opt_str_clone};

verus! {

/// The dialog identifiers of the request that created a server transaction,
/// by which an ACK for a 2xx is matched to its INVITE.
#[derive(Debug)]
pub struct DialogIds {
    pub call_id: Option<String>,
    pub from_tag: Option<String>,
    pub to_tag: Option<String>,
}

/// What the manager knows of one transaction.
#[derive(Debug)]
pub struct TransactionRecord {
    pub key: TransactionKey,
    pub kind: TransactionKind,
    pub core: TransactionCore,
    pub dialog: DialogIds,
}

/// The transactions of one side (client or server), each key at most once.
#[derive(Debug)]
pub struct TransactionTable {
    pub records: Vec<TransactionRecord>,
}

/// The key of the record at `i`.
pub open spec fn key_at(recs: Seq<TransactionRecord>, i: int) -> KeyView {
    recs[i].key@
}

/// A record of the sequence has key `k`.
pub open spec fn has_key(recs: Seq<TransactionRecord>, k: KeyView) -> bool {
    exists|i: int| 0 <= i < recs.len() && #[trigger] key_at(recs, i) == k
}

/// No key occurs twice.
pub open spec fn distinct_keys(recs: Seq<TransactionRecord>) -> bool {
    forall|i: int, j: int|
        0 <= i < recs.len() && 0 <= j < recs.len() && i != j ==> #[trigger] key_at(recs, i)
            != #[trigger] key_at(recs, j)
}

/// The plain content of a record: kind, core and key.
pub open spec fn record_summary(r: TransactionRecord) -> (KeyView, TransactionKind, TransactionCore) {
    (r.key@, r.kind, r.core)
}

impl TransactionTable {
    /// Each key at most once.
    pub open spec fn wf(&self) -> bool {
        distinct_keys(self.records@)
    }

    /// Whether a transaction with key `k` is in the table.
    pub open spec fn contains(&self, k: KeyView) -> bool {
        has_key(self.records@, k)
    }

    /// An empty table.
    pub fn new() -> (t: Self)
        ensures
            t.wf(),
            t.records@.len() == 0,
            forall|k: KeyView| !t.contains(k),
    {
        TransactionTable { records: Vec::new() }
    }

    /// The number of transactions.
    pub fn len(&self) -> (n: usize)
        ensures
            n == self.records@.len(),
    {
        self.records.len()
    }

    /// The position of the transaction with key `key`, if any.
    pub fn find(&self, key: &TransactionKey) -> (r: Option<usize>)
        ensures
            r matches Some(i) ==> i < self.records@.len() && key_at(self.records@, i as int)
                == key@,
            r is None <==> !self.contains(key@),
    {
        let mut i: usize = 0;
        while i < self.records.len()
            invariant
                i <= self.records@.len(),
                forall|j: int| 0 <= j < i ==> key_at(self.records@, j) != key@,
            decreases self.records.len() - i,
        {
            if self.records[i].key.same_as(key) {
                return Some(i);
            }
            i = i + 1;
        }
        None
    }

    /// Whether a transaction with key `key` is in the table.
    pub fn contains_key(&self, key: &TransactionKey) -> (r: bool)
        ensures
            r == self.contains(key@),
    {
        self.find(key).is_some()
    }

    /// Adds a transaction; one with the same key is replaced in place.
    pub fn insert(&mut self, record: TransactionRecord)
        requires
            old(self).wf(),
        ensures
            final(self).wf(),
            final(self).contains(record.key@),
            forall|k: KeyView| k != record.key@ ==> (final(self).contains(k) <==> old(self).contains(k)),
            forall|i: int|
                0 <= i < final(self).records@.len() && key_at(final(self).records@, i)
                    == record.key@ ==> record_summary(final(self).records@[i]) == record_summary(
                    record,
                ),
            forall|i: int|
                0 <= i < final(self).records@.len() && key_at(final(self).records@, i)
                    != record.key@ ==> exists|j: int|
                    0 <= j < old(self).records@.len() && record_summary(
                        #[trigger] old(self).records@[j],
                    ) == record_summary(final(self).records@[i]),
    {
        let ghost rk = record.key@;
        match self.find(&record.key) {
            Some(i) => {
                self.records.set(i, record);
                assert(key_at(self.records@, i as int) == rk);
                assert forall|k: KeyView| k != rk implies (self.contains(k) <==> old(self).contains(
                    k,
                )) by {
                    if self.contains(k) {
                        let j = choose|j: int| 0 <= j < self.records@.len() && #[trigger] key_at(self.records@, j) == k;
                        assert(key_at(old(self).records@, j) == k);
                    }
                    if old(self).contains(k) {
                        let j = choose|j: int| 0 <= j < old(self).records@.len() && #[trigger] key_at(old(self).records@, j) == k;
                        assert(key_at(self.records@, j) == k);
                    }
                }
                assert forall|a: int, b: int|
                    0 <= a < self.records@.len() && 0 <= b < self.records@.len() && a != b
                        implies #[trigger] key_at(self.records@, a) != #[trigger] key_at(self.records@, b) by {
                    if a != i && b != i {
                        assert(key_at(old(self).records@, a) != key_at(old(self).records@, b));
                    } else if a == i {
                        assert(key_at(old(self).records@, b) != key_at(old(self).records@, a));
                    } else {
                        assert(key_at(old(self).records@, a) != key_at(old(self).records@, b));
                    }
                }
                assert forall|x: int|
                    0 <= x < self.records@.len() && key_at(self.records@, x) != rk implies exists|j: int|
                        0 <= j < old(self).records@.len() && record_summary(
                            #[trigger] old(self).records@[j],
                        ) == record_summary(self.records@[x]) by {
                    assert(record_summary(old(self).records@[x]) == record_summary(self.records@[x]));
                }
                assert forall|x: int|
                    0 <= x < self.records@.len() && key_at(self.records@, x) == rk implies record_summary(self.records@[x]) == record_summary(record) by {
                    if x != i {
                        assert(key_at(old(self).records@, x) != key_at(old(self).records@, i as int));
                    }
                }
            },
            None => {
                self.records.push(record);
                let ghost n: int = self.records@.len() - 1;
                assert(key_at(self.records@, n) == rk);
                assert forall|k: KeyView| k != rk implies (self.contains(k) <==> old(self).contains(
                    k,
                )) by {
                    if self.contains(k) {
                        let j = choose|j: int| 0 <= j < self.records@.len() && #[trigger] key_at(self.records@, j) == k;
                        assert(key_at(old(self).records@, j) == k);
                    }
                    if old(self).contains(k) {
                        let j = choose|j: int| 0 <= j < old(self).records@.len() && #[trigger] key_at(old(self).records@, j) == k;
                        assert(key_at(self.records@, j) == k);
                    }
                }
                assert forall|a: int, b: int|
                    0 <= a < self.records@.len() && 0 <= b < self.records@.len() && a != b
                        implies #[trigger] key_at(self.records@, a) != #[trigger] key_at(self.records@, b) by {
                    if a != n && b != n {
                        assert(key_at(old(self).records@, a) != key_at(old(self).records@, b));
                    } else if a == n {
                        assert(key_at(old(self).records@, b) == key_at(self.records@, b));
                    } else {
                        assert(key_at(old(self).records@, a) == key_at(self.records@, a));
                    }
                }
                assert forall|x: int|
                    0 <= x < self.records@.len() && key_at(self.records@, x) != rk implies exists|j: int|
                        0 <= j < old(self).records@.len() && record_summary(
                            #[trigger] old(self).records@[j],
                        ) == record_summary(self.records@[x]) by {
                    assert(record_summary(old(self).records@[x]) == record_summary(self.records@[x]));
                }
                assert forall|x: int|
                    0 <= x < self.records@.len() && key_at(self.records@, x) == rk implies record_summary(self.records@[x]) == record_summary(record) by {
                    if x != n {
                        assert(key_at(old(self).records@, x) == rk);
                    }
                }
            },
        }
    }

    /// Removes the transaction with key `key`; returns it when there was one.
    pub fn remove(&mut self, key: &TransactionKey) -> (r: Option<TransactionRecord>)
        requires
            old(self).wf(),
        ensures
            final(self).wf(),
            !final(self).contains(key@),
            r is Some <==> old(self).contains(key@),
            r matches Some(x) ==> x.key@ == key@,
            forall|k: KeyView| k != key@ ==> (final(self).contains(k) <==> old(self).contains(k)),
            final(self).records@.len() == old(self).records@.len() - (if r is Some { 1int } else { 0int }),
    {
        match self.find(key) {
            Some(i) => {
                let rec = self.records.remove(i);
                assert forall|k: KeyView| k != key@ implies (self.contains(k) <==> old(self).contains(
                    k,
                )) by {
                    if self.contains(k) {
                        let j = choose|j: int| 0 <= j < self.records@.len() && #[trigger] key_at(self.records@, j) == k;
                        if j < i {
                            assert(key_at(old(self).records@, j) == k);
                        } else {
                            assert(key_at(old(self).records@, j + 1) == k);
                        }
                    }
                    if old(self).contains(k) {
                        let j = choose|j: int| 0 <= j < old(self).records@.len() && #[trigger] key_at(old(self).records@, j) == k;
                        if j < i {
                            assert(key_at(self.records@, j) == k);
                        } else {
                            assert(j != i);
                            assert(key_at(self.records@, j - 1) == k);
                        }
                    }
                }
                assert forall|a: int, b: int|
                    0 <= a < self.records@.len() && 0 <= b < self.records@.len() && a != b
                        implies #[trigger] key_at(self.records@, a) != #[trigger] key_at(self.records@, b) by {
                    let oa = if a < i { a } else { a + 1 };
                    let ob = if b < i { b } else { b + 1 };
                    assert(key_at(self.records@, a) == key_at(old(self).records@, oa));
                    assert(key_at(self.records@, b) == key_at(old(self).records@, ob));
                }
                assert(!self.contains(key@)) by {
                    if self.contains(key@) {
                        let j = choose|j: int| 0 <= j < self.records@.len() && #[trigger] key_at(self.records@, j) == key@;
                        let oj = if j < i { j } else { j + 1 };
                        assert(key_at(self.records@, j) == key_at(old(self).records@, oj));
                        assert(oj != i);
                    }
                }
                Some(rec)
            },
            None => None,
        }
    }

    /// The keys of all transactions, in table order.
    pub fn keys(&self) -> (ks: Vec<TransactionKey>)
        ensures
            ks@.len() == self.records@.len(),
            forall|i: int| 0 <= i < ks@.len() ==> #[trigger] ks@[i]@ == key_at(self.records@, i),
    {
        let mut ks: Vec<TransactionKey> = Vec::new();
        let mut i: usize = 0;
        while i < self.records.len()
            invariant
                i <= self.records@.len(),
                ks@.len() == i,
                forall|j: int| 0 <= j < i ==> #[trigger] ks@[j]@ == key_at(self.records@, j),
            decreases self.records.len() - i,
        {
            ks.push(self.records[i].key.duplicate());
            i = i + 1;
        }
        ks
    }

    /// Empties the table.
    pub fn clear(&mut self)
        ensures
            final(self).wf(),
            final(self).records@.len() == 0,
    {
        self.records.clear();
    }
}

} // verus!
