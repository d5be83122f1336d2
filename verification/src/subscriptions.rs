use vstd::prelude::*;
use crate::key::{TransactionKey, KeyView};
use crate::table::TransactionTable;
use crate::manager::{transaction_exists, spec_exists};
use crate::error::Error;

verus! {

/// One subscriber's interest in one transaction.
#[derive(Debug)]
pub struct Subscription {
    pub subscriber: usize,
    pub key: TransactionKey,
}

/// The event subscribers of a transaction manager. Subscribers get ids
/// 0, 1, 2, ... in the order they subscribe; the same order gives their
/// place in the list of event senders. `pairs` records, in order, which
/// subscriber asked for the events of which transaction; the per-transaction
/// and per-subscriber lists are read off it.
#[derive(Debug)]
pub struct SubscriberRegistry {
    /// The id the next subscriber gets.
    pub next_id: usize,
    /// How many event senders there are.
    pub senders: usize,
    /// Who subscribed to what, in order.
    pub pairs: Vec<Subscription>,
}

/// The plain content of a subscription.
pub open spec fn sub_view(s: Subscription) -> (usize, KeyView) {
    (s.subscriber, s.key@)
}

/// The ids, in subscription order, of the subscribers of transaction `k`.
pub open spec fn ids_for(rel: Seq<(usize, KeyView)>, k: KeyView) -> Seq<usize>
    decreases rel.len(),
{
    if rel.len() == 0 {
        Seq::empty()
    } else {
        let prev = ids_for(rel.drop_last(), k);
        if rel.last().1 == k {
            prev.push(rel.last().0)
        } else {
            prev
        }
    }
}

/// The transactions, in subscription order, that subscriber `id` follows.
pub open spec fn keys_for(rel: Seq<(usize, KeyView)>, id: usize) -> Seq<KeyView>
    decreases rel.len(),
{
    if rel.len() == 0 {
        Seq::empty()
    } else {
        let prev = keys_for(rel.drop_last(), id);
        if rel.last().0 == id {
            prev.push(rel.last().1)
        } else {
            prev
        }
    }
}

/// The subscriptions left once those to transaction `k` are dropped.
pub open spec fn without_key(rel: Seq<(usize, KeyView)>, k: KeyView) -> Seq<(usize, KeyView)>
    decreases rel.len(),
{
    if rel.len() == 0 {
        Seq::empty()
    } else {
        let prev = without_key(rel.drop_last(), k);
        if rel.last().1 == k {
            prev
        } else {
            prev.push(rel.last())
        }
    }
}

/// Whether the sender at position `idx` gets an event: events of no
/// transaction go to everyone; an event of a transaction goes to its
/// subscribers, or to everyone when it has none.
pub open spec fn should_send(has_transaction: bool, interested: Seq<usize>, idx: usize) -> bool {
    !has_transaction || interested.contains(idx) || interested.len() == 0
}

/// The subscriptions of a list of transactions, all by subscriber `id`.
pub open spec fn subscribe_all(id: usize, keys: Seq<KeyView>) -> Seq<(usize, KeyView)> {
    keys.map_values(|k: KeyView| (id, k))
}

impl SubscriberRegistry {
    /// Who subscribed to what, as plain values.
    pub open spec fn rel(&self) -> Seq<(usize, KeyView)> {
        self.pairs@.map_values(|s: Subscription| sub_view(s))
    }

    /// Every subscription names a subscriber that was given an id, and there
    /// are no more senders than ids given.
    pub open spec fn wf(&self) -> bool {
        &&& self.senders <= self.next_id
        &&& forall|i: int| 0 <= i < self.pairs@.len() ==> (#[trigger] self.pairs@[i]).subscriber < self.next_id
    }

    /// No subscribers yet.
    pub fn new() -> (r: Self)
        ensures
            r.wf(),
            r.next_id == 0,
            r.senders == 0,
            r.rel() == Seq::<(usize, KeyView)>::empty(),
    {
        let r = SubscriberRegistry { next_id: 0, senders: 0, pairs: Vec::new() };
        assert(r.rel() =~= Seq::<(usize, KeyView)>::empty());
        r
    }

    /// Adds a subscriber to the events of every transaction; returns its id.
    pub fn subscribe(&mut self) -> (id: usize)
        requires
            old(self).wf(),
            old(self).next_id < usize::MAX,
        ensures
            final(self).wf(),
            id == old(self).next_id,
            final(self).next_id == old(self).next_id + 1,
            final(self).senders == old(self).senders + 1,
            final(self).rel() == old(self).rel(),
    {
        let id = self.next_id;
        self.next_id = self.next_id + 1;
        self.senders = self.senders + 1;
        id
    }

    /// Adds a subscriber to the events of one transaction, which must exist
    /// on one side or the other; returns its id.
    pub fn subscribe_to_transaction(
        &mut self,
        client: &TransactionTable,
        server: &TransactionTable,
        key: &TransactionKey,
    ) -> (r: Result<usize, Error>)
        requires
            old(self).wf(),
            old(self).next_id < usize::MAX,
        ensures
            final(self).wf(),
            r is Err <==> !spec_exists(*client, *server, key@),
            r matches Err(e) ==> e == Error::TransactionNotFound && *final(self) == *old(self),
            r matches Ok(id) ==> {
                &&& id == old(self).next_id
                &&& final(self).next_id == old(self).next_id + 1
                &&& final(self).senders == old(self).senders + 1
                &&& final(self).rel() == old(self).rel().push((id, key@))
            },
    {
        if !transaction_exists(client, server, key) {
            return Err(Error::TransactionNotFound);
        }
        let id = self.next_id;
        self.next_id = self.next_id + 1;
        self.senders = self.senders + 1;
        let ghost before = self.pairs@;
        self.pairs.push(Subscription { subscriber: id, key: key.duplicate() });
        proof {
            assert(self.rel() =~= old(self).rel().push((id, key@)));
            assert forall|i: int| 0 <= i < self.pairs@.len() implies (#[trigger] self.pairs@[i]).subscriber < self.next_id by {
                if i < before.len() {
                    assert(self.pairs@[i] == before[i]);
                }
            }
        }
        Ok(id)
    }

    /// Adds a subscriber to the events of several transactions, all of which
    /// must exist; returns its id. The first missing one is reported.
    pub fn subscribe_to_transactions(
        &mut self,
        client: &TransactionTable,
        server: &TransactionTable,
        keys: &[TransactionKey],
    ) -> (r: Result<usize, Error>)
        requires
            old(self).wf(),
            old(self).next_id < usize::MAX,
        ensures
            final(self).wf(),
            r is Err <==> exists|i: int| 0 <= i < keys@.len() && !spec_exists(*client, *server, #[trigger] keys@[i]@),
            r matches Err(e) ==> e == Error::TransactionNotFound && *final(self) == *old(self),
            r matches Ok(id) ==> {
                &&& id == old(self).next_id
                &&& final(self).next_id == old(self).next_id + 1
                &&& final(self).senders == old(self).senders + 1
                &&& final(self).rel() == old(self).rel() + subscribe_all(id, keys@.map_values(|k: TransactionKey| k@))
            },
    {
        let mut i: usize = 0;
        while i < keys.len()
            invariant
                i <= keys@.len(),
                forall|j: int| 0 <= j < i ==> spec_exists(*client, *server, #[trigger] keys@[j]@),
                *self == *old(self),
                old(self).wf(),
            decreases keys.len() - i,
        {
            if !transaction_exists(client, server, &keys[i]) {
                return Err(Error::TransactionNotFound);
            }
            i = i + 1;
        }
        let id = self.next_id;
        self.next_id = self.next_id + 1;
        self.senders = self.senders + 1;
        let ghost start = self.pairs@;
        let ghost views = keys@.map_values(|k: TransactionKey| k@);
        let mut j: usize = 0;
        while j < keys.len()
            invariant
                j <= keys@.len(),
                views == keys@.map_values(|k: TransactionKey| k@),
                self.next_id == old(self).next_id + 1,
                id == old(self).next_id,
                self.senders == old(self).senders + 1,
                self.senders <= self.next_id,
                self.pairs@.len() == start.len() + j,
                forall|x: int| 0 <= x < start.len() ==> self.pairs@[x] == start[x],
                forall|x: int| 0 <= x < start.len() ==> (#[trigger] start[x]).subscriber < id,
                self.rel() =~= old(self).rel() + subscribe_all(id, views.take(j as int)),
                forall|x: int| 0 <= x < self.pairs@.len() ==> (#[trigger] self.pairs@[x]).subscriber < self.next_id,
                start.len() == old(self).pairs@.len(),
                forall|x: int| 0 <= x < start.len() ==> start[x] == old(self).pairs@[x],
            decreases keys.len() - j,
        {
            let ghost before = self.pairs@;
            self.pairs.push(Subscription { subscriber: id, key: keys[j].duplicate() });
            proof {
                assert(views.take(j + 1) =~= views.take(j as int).push(keys@[j as int]@));
                assert(subscribe_all(id, views.take(j + 1)) =~= subscribe_all(id, views.take(j as int)).push((id, keys@[j as int]@)));
                assert(self.rel() =~= before.map_values(|s: Subscription| sub_view(s)).push((id, keys@[j as int]@)));
                assert forall|x: int| 0 <= x < self.pairs@.len() implies (#[trigger] self.pairs@[x]).subscriber < self.next_id by {
                    if x < before.len() {
                        assert(self.pairs@[x] == before[x]);
                    }
                }
            }
            j = j + 1;
        }
        proof {
            assert(views.take(keys@.len() as int) =~= views);
        }
        Ok(id)
    }

    /// The ids of the subscribers of transaction `key`, in subscription order.
    pub fn interested_subscribers(&self, key: &TransactionKey) -> (ids: Vec<usize>)
        ensures
            ids@ == ids_for(self.rel(), key@),
    {
        let mut ids: Vec<usize> = Vec::new();
        let mut i: usize = 0;
        while i < self.pairs.len()
            invariant
                i <= self.pairs@.len(),
                ids@ == ids_for(self.rel().take(i as int), key@),
            decreases self.pairs.len() - i,
        {
            proof {
                assert(self.rel().take(i + 1).drop_last() =~= self.rel().take(i as int));
            }
            if self.pairs[i].key.same_as(key) {
                ids.push(self.pairs[i].subscriber);
            }
            i = i + 1;
        }
        proof {
            assert(self.rel().take(self.pairs@.len() as int) =~= self.rel());
        }
        ids
    }

    /// The transactions that subscriber `id` follows, in subscription order.
    pub fn transactions_of(&self, id: usize) -> (ks: Vec<TransactionKey>)
        ensures
            ks@.map_values(|k: TransactionKey| k@) == keys_for(self.rel(), id),
    {
        let mut ks: Vec<TransactionKey> = Vec::new();
        let mut i: usize = 0;
        while i < self.pairs.len()
            invariant
                i <= self.pairs@.len(),
                ks@.map_values(|k: TransactionKey| k@) == keys_for(self.rel().take(i as int), id),
            decreases self.pairs.len() - i,
        {
            proof {
                assert(self.rel().take(i + 1).drop_last() =~= self.rel().take(i as int));
            }
            if self.pairs[i].subscriber == id {
                let ghost before = ks@;
                ks.push(self.pairs[i].key.duplicate());
                proof {
                    assert(ks@.map_values(|k: TransactionKey| k@) =~= before.map_values(|k: TransactionKey| k@).push(self.pairs@[i as int].key@));
                }
            }
            i = i + 1;
        }
        proof {
            assert(self.rel().take(self.pairs@.len() as int) =~= self.rel());
        }
        ks
    }

    /// Drops every subscription to transaction `key`, as when it is removed.
    pub fn remove_transaction(&mut self, key: &TransactionKey)
        requires
            old(self).wf(),
        ensures
            final(self).wf(),
            final(self).next_id == old(self).next_id,
            final(self).senders == old(self).senders,
            final(self).rel() == without_key(old(self).rel(), key@),
    {
        let mut kept: Vec<Subscription> = Vec::new();
        let ghost orig = self.pairs@;
        let ghost orig_rel = self.rel();
        let mut i: usize = 0;
        while i < self.pairs.len()
            invariant
                i <= self.pairs@.len(),
                self.pairs@ == orig,
                orig_rel == orig.map_values(|s: Subscription| sub_view(s)),
                kept@.map_values(|s: Subscription| sub_view(s)) == without_key(orig_rel.take(i as int), key@),
                forall|x: int| 0 <= x < kept@.len() ==> (#[trigger] kept@[x]).subscriber < self.next_id,
                forall|x: int| 0 <= x < orig.len() ==> (#[trigger] orig[x]).subscriber < self.next_id,
            decreases self.pairs.len() - i,
        {
            proof {
                assert(orig_rel.take(i + 1).drop_last() =~= orig_rel.take(i as int));
            }
            if !self.pairs[i].key.same_as(key) {
                let ghost before = kept@;
                kept.push(Subscription { subscriber: self.pairs[i].subscriber, key: self.pairs[i].key.duplicate() });
                proof {
                    assert(kept@.map_values(|s: Subscription| sub_view(s)) =~= before.map_values(|s: Subscription| sub_view(s)).push(orig_rel[i as int]));
                    assert forall|x: int| 0 <= x < kept@.len() implies (#[trigger] kept@[x]).subscriber < self.next_id by {
                        if x < before.len() {
                            assert(kept@[x] == before[x]);
                        }
                    }
                }
            }
            i = i + 1;
        }
        proof {
            assert(orig_rel.take(orig.len() as int) =~= orig_rel);
        }
        self.pairs = kept;
    }

    /// Forgets every subscriber and subscription, as at shutdown. Ids keep
    /// counting from where they were.
    pub fn clear(&mut self)
        requires
            old(self).wf(),
        ensures
            final(self).wf(),
            final(self).next_id == old(self).next_id,
            final(self).senders == 0,
            final(self).rel() == Seq::<(usize, KeyView)>::empty(),
    {
        self.pairs.clear();
        self.senders = 0;
        assert(self.rel() =~= Seq::<(usize, KeyView)>::empty());
    }

    /// The positions of the senders that get an event: of transaction `key`
    /// when there is one, of no transaction otherwise. In increasing order.
    pub fn recipients(&self, key: Option<&TransactionKey>) -> (r: Vec<usize>)
        ensures
            forall|a: int, b: int| 0 <= a < b < r@.len() ==> r@[a] < r@[b],
            forall|x: int| 0 <= x < r@.len() ==> r@[x] < self.senders,
            forall|idx: usize| idx < self.senders ==> (r@.contains(idx) <==> should_send(
                key is Some,
                match key {
                    Some(k) => ids_for(self.rel(), k@),
                    None => Seq::empty(),
                },
                idx,
            )),
    {
        let interested: Vec<usize> = match key {
            Some(k) => self.interested_subscribers(k),
            None => Vec::new(),
        };
        let has_transaction = key.is_some();
        let mut r: Vec<usize> = Vec::new();
        let mut idx: usize = 0;
        while idx < self.senders
            invariant
                idx <= self.senders,
                forall|a: int, b: int| 0 <= a < b < r@.len() ==> r@[a] < r@[b],
                forall|x: int| 0 <= x < r@.len() ==> r@[x] < idx,
                forall|y: usize| y < idx ==> (r@.contains(y) <==> should_send(has_transaction, interested@, y)),
            decreases self.senders - idx,
        {
            let send = !has_transaction || vec_contains(&interested, idx) || interested.len() == 0;
            if send {
                let ghost before = r@;
                r.push(idx);
                proof {
                    assert forall|y: usize| y < idx + 1 implies (r@.contains(y) <==> should_send(has_transaction, interested@, y)) by {
                        if y < idx {
                            if before.contains(y) {
                                let w = choose|w: int| 0 <= w < before.len() && before[w] == y;
                                assert(r@[w] == y);
                            }
                            if r@.contains(y) {
                                let w = choose|w: int| 0 <= w < r@.len() && r@[w] == y;
                                assert(w < before.len());
                                assert(before[w] == y);
                            }
                        } else {
                            assert(r@[r@.len() - 1] == y);
                        }
                    }
                }
            } else {
                proof {
                    assert(!r@.contains(idx)) by {
                        if r@.contains(idx) {
                            let w = choose|w: int| 0 <= w < r@.len() && r@[w] == idx;
                        }
                    }
                }
            }
            idx = idx + 1;
        }
        r
    }
}

/// Whether `v` holds `x`.
pub fn vec_contains(v: &Vec<usize>, x: usize) -> (r: bool)
    ensures
        r == v@.contains(x),
{
    let mut i: usize = 0;
    while i < v.len()
        invariant
            i <= v@.len(),
            forall|j: int| 0 <= j < i ==> v@[j] != x,
        decreases v.len() - i,
    {
        if v[i] == x {
            assert(v@[i as int] == x);
            return true;
        }
        i = i + 1;
    }
    false
}

/// The kinds of event a transaction manager broadcasts, as far as their
/// delivery goes.
#[derive(Debug, Clone, Copy, PartialEq, Eq, Structural)]
pub enum BroadcastKind {
    StateChanged,
    SuccessResponse,
    FailureResponse,
    ProvisionalResponse,
    TransactionTerminated,
    TimerTriggered,
    AckReceived,
    CancelReceived,
    InviteRequest,
    NonInviteRequest,
    AckRequest,
    CancelRequest,
    StrayResponse,
    StrayAck,
    StrayCancel,
    StrayAckRequest,
    /// Any other event (timeouts, transport errors, shutdown, ...).
    Other,
}

/// The kinds whose delivery is filtered by their transaction.
pub open spec fn spec_filters_by_transaction(kind: BroadcastKind) -> bool {
    match kind {
        BroadcastKind::StateChanged | BroadcastKind::SuccessResponse
        | BroadcastKind::FailureResponse | BroadcastKind::ProvisionalResponse
        | BroadcastKind::TransactionTerminated | BroadcastKind::TimerTriggered
        | BroadcastKind::AckReceived | BroadcastKind::CancelReceived
        | BroadcastKind::InviteRequest | BroadcastKind::NonInviteRequest
        | BroadcastKind::AckRequest | BroadcastKind::CancelRequest => true,
        _ => false,
    }
}

/// Whether an event of this kind is delivered by the subscriptions to its
/// transaction (otherwise it goes to every subscriber).
pub fn filters_by_transaction(kind: BroadcastKind) -> (r: bool)
    ensures
        r == spec_filters_by_transaction(kind),
{
    match kind {
        BroadcastKind::StateChanged | BroadcastKind::SuccessResponse
        | BroadcastKind::FailureResponse | BroadcastKind::ProvisionalResponse
        | BroadcastKind::TransactionTerminated | BroadcastKind::TimerTriggered
        | BroadcastKind::AckReceived | BroadcastKind::CancelReceived
        | BroadcastKind::InviteRequest | BroadcastKind::NonInviteRequest
        | BroadcastKind::AckRequest | BroadcastKind::CancelRequest => true,
        _ => false,
    }
}

/// How a broadcast event is delivered: the positions of the senders that get
/// it, and whether the manager must then process the termination of its
/// transaction.
///
/// `filtered` tells whether the subscriptions are consulted (the manager's
/// own events); without them every sender gets the event. The termination is
/// processed for a TransactionTerminated event with a key when the manager
/// is at hand (`with_manager`).
pub fn broadcast_plan(
    registry: &SubscriberRegistry,
    kind: BroadcastKind,
    key: Option<&TransactionKey>,
    filtered: bool,
    with_manager: bool,
) -> (r: (Vec<usize>, bool))
    ensures
        forall|a: int, b: int| 0 <= a < b < r.0@.len() ==> r.0@[a] < r.0@[b],
        forall|x: int| 0 <= x < r.0@.len() ==> r.0@[x] < registry.senders,
        forall|idx: usize| idx < registry.senders ==> (r.0@.contains(idx) <==> should_send(
            filtered && spec_filters_by_transaction(kind) && key is Some,
            if filtered && spec_filters_by_transaction(kind) && key is Some {
                ids_for(registry.rel(), key.unwrap()@)
            } else {
                Seq::empty()
            },
            idx,
        )),
        r.1 == (kind == BroadcastKind::TransactionTerminated && key is Some && with_manager),
{
    let filter_key = if filtered && filters_by_transaction(kind) { key } else { None };
    let recipients = registry.recipients(filter_key);
    (recipients, kind == BroadcastKind::TransactionTerminated && key.is_some() && with_manager)
}

/// Right after subscribing to transaction `k`, a subscriber is among those
/// that get `k`'s events.
pub proof fn lemma_subscriber_receives(rel: Seq<(usize, KeyView)>, id: usize, k: KeyView)
    ensures
        should_send(true, ids_for(rel.push((id, k)), k), id),
{
    lemma_ids_after_subscribe(rel, id, k, k);
    assert(ids_for(rel.push((id, k)), k).last() == id);
}

/// The subscribers of `k` after one more subscription are those before, then
/// the new one; other transactions keep theirs.
pub proof fn lemma_ids_after_subscribe(rel: Seq<(usize, KeyView)>, id: usize, k: KeyView, other: KeyView)
    ensures
        ids_for(rel.push((id, k)), k) == ids_for(rel, k).push(id),
        other != k ==> ids_for(rel.push((id, k)), other) == ids_for(rel, other),
{
    assert(rel.push((id, k)).drop_last() =~= rel);
}

/// Dropping the subscriptions to `k` leaves `k` with no subscriber and every
/// other transaction with the same subscribers, in the same order.
pub proof fn lemma_remove_transaction(rel: Seq<(usize, KeyView)>, k: KeyView, other: KeyView)
    ensures
        ids_for(without_key(rel, k), k) == Seq::<usize>::empty(),
        other != k ==> ids_for(without_key(rel, k), other) == ids_for(rel, other),
    decreases rel.len(),
{
    if rel.len() > 0 {
        lemma_remove_transaction(rel.drop_last(), k, other);
        let prev = without_key(rel.drop_last(), k);
        if rel.last().1 != k {
            assert(prev.push(rel.last()).drop_last() =~= prev);
        }
    }
}

/// Events of no transaction reach every sender.
pub proof fn lemma_untargeted_reach_all(interested: Seq<usize>, idx: usize)
    ensures
        should_send(false, interested, idx),
{
}

/// Who gets an event: one that concerns no transaction goes to every
/// subscriber; one of a transaction goes to the subscribers of that
/// transaction, and to every subscriber when nobody subscribed to it.
pub proof fn lemma_delivery_rule(has_transaction: bool, interested: Seq<usize>, idx: usize)
    ensures
        !has_transaction ==> should_send(has_transaction, interested, idx),
        has_transaction && interested.len() == 0 ==> should_send(has_transaction, interested, idx),
        has_transaction && interested.len() > 0 ==> (should_send(has_transaction, interested, idx)
            <==> interested.contains(idx)),
{
}

} // verus!
