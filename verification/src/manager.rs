use vstd::prelude::*;
use crate::state::{TransactionKind, TransactionState, TransactionLifecycle};
use crate::key::{TransactionKey, KeyView};
use crate::method::{Method, MethodView};
use crate::message::{RequestInfo, Message, top_branch, first_branch, opt_cseq};
use crate::validators::{client_transaction_matches, spec_response_matches};
use crate::server_non_invite::{ServerNonInviteLogic, spec_server_matches};
use crate::cancel::{find_invite_transaction_for_cancel, is_client_invite_with_branch};
use crate::table::{TransactionTable, TransactionRecord, key_at, has_key};
use crate::branch::{generate_branch, is_generated_branch};
use crate::cancel::{find_matching_invite_transaction, validate_cancel_request};
use crate::update::validate_update_request;
use crate::error::{Error, HeaderField};
use crate::request_builders::{RequestPart, PartView, text};
use crate::subscriptions::{SubscriberRegistry, without_key};
use crate::timer::TimerManager;

verus! {

/// Whether a transaction with key `k` exists on either side.
pub open spec fn spec_exists(client: TransactionTable, server: TransactionTable, k: KeyView) -> bool {
    client.contains(k) || server.contains(k)
}

/// Whether a transaction with this key exists, client or server.
pub fn transaction_exists(
    client: &TransactionTable,
    server: &TransactionTable,
    key: &TransactionKey,
) -> (r: bool)
    ensures
        r == spec_exists(*client, *server, key@),
{
    client.contains_key(key) || server.contains_key(key)
}

/// The state of the transaction with this key, looked up among client
/// transactions first.
pub fn transaction_state(
    client: &TransactionTable,
    server: &TransactionTable,
    key: &TransactionKey,
) -> (r: Result<TransactionState, Error>)
    ensures
        r is Err <==> !spec_exists(*client, *server, key@),
        r matches Err(e) ==> e == Error::TransactionNotFound,
        r matches Ok(s) ==> (exists|i: int|
            0 <= i < client.records@.len() && key_at(client.records@, i) == key@
                && client.records@[i].core.state == s) || (!client.contains(key@) && exists|i: int|
            0 <= i < server.records@.len() && key_at(server.records@, i) == key@
                && server.records@[i].core.state == s),
{
    match client.find(key) {
        Some(i) => return Ok(client.records[i].core.state),
        None => {},
    }
    match server.find(key) {
        Some(i) => Ok(server.records[i].core.state),
        None => Err(Error::TransactionNotFound),
    }
}

/// The kind of the transaction with this key, looked up among client
/// transactions first.
pub fn transaction_kind(
    client: &TransactionTable,
    server: &TransactionTable,
    key: &TransactionKey,
) -> (r: Result<TransactionKind, Error>)
    ensures
        r is Err <==> !spec_exists(*client, *server, key@),
        r matches Err(e) ==> e == Error::TransactionNotFound,
        r matches Ok(kd) ==> (exists|i: int|
            0 <= i < client.records@.len() && key_at(client.records@, i) == key@
                && client.records@[i].kind == kd) || (!client.contains(key@) && exists|i: int|
            0 <= i < server.records@.len() && key_at(server.records@, i) == key@
                && server.records@[i].kind == kd),
{
    match client.find(key) {
        Some(i) => return Ok(client.records[i].kind),
        None => {},
    }
    match server.find(key) {
        Some(i) => Ok(server.records[i].kind),
        None => Err(Error::TransactionNotFound),
    }
}

/// The keys of all client and all server transactions.
pub fn active_transactions(client: &TransactionTable, server: &TransactionTable) -> (r: (
    Vec<TransactionKey>,
    Vec<TransactionKey>,
))
    ensures
        r.0@.len() == client.records@.len(),
        r.1@.len() == server.records@.len(),
        forall|i: int| 0 <= i < r.0@.len() ==> #[trigger] r.0@[i]@ == key_at(client.records@, i),
        forall|i: int| 0 <= i < r.1@.len() ==> #[trigger] r.1@[i]@ == key_at(server.records@, i),
{
    (client.keys(), server.keys())
}

/// The keys of the INVITE client transactions, as candidates for a CANCEL.
pub fn client_invite_keys(client: &TransactionTable) -> (ks: Vec<TransactionKey>)
    ensures
        forall|i: int|
            0 <= i < ks@.len() ==> (#[trigger] ks@[i]@).method == MethodView::Invite
                && !ks@[i]@.is_server && client.contains(ks@[i]@),
        forall|i: int|
            0 <= i < client.records@.len() && key_at(client.records@, i).method
                == MethodView::Invite && !key_at(client.records@, i).is_server ==> exists|j: int|
                0 <= j < ks@.len() && #[trigger] ks@[j]@ == key_at(client.records@, i),
{
    let mut ks: Vec<TransactionKey> = Vec::new();
    let mut i: usize = 0;
    while i < client.records.len()
        invariant
            i <= client.records@.len(),
            forall|x: int|
                0 <= x < ks@.len() ==> (#[trigger] ks@[x]@).method == MethodView::Invite
                    && !ks@[x]@.is_server && client.contains(ks@[x]@),
            forall|x: int|
                0 <= x < i && key_at(client.records@, x).method == MethodView::Invite
                    && !key_at(client.records@, x).is_server ==> exists|j: int|
                    0 <= j < ks@.len() && #[trigger] ks@[j]@ == key_at(client.records@, x),
        decreases client.records.len() - i,
    {
        let ghost before = ks@;
        let k = &client.records[i].key;
        if k.method.is_invite() && !k.is_server {
            ks.push(k.duplicate());
            proof {
                assert(has_key(client.records@, key_at(client.records@, i as int)));
                assert forall|x: int|
                    0 <= x < ks@.len() implies (#[trigger] ks@[x]@).method == MethodView::Invite
                        && !ks@[x]@.is_server && client.contains(ks@[x]@) by {
                    if x < before.len() {
                        assert(ks@[x] == before[x]);
                    }
                }
                assert forall|x: int|
                    0 <= x < i + 1 && key_at(client.records@, x).method == MethodView::Invite
                        && !key_at(client.records@, x).is_server implies exists|j: int|
                    0 <= j < ks@.len() && #[trigger] ks@[j]@ == key_at(client.records@, x) by {
                    if x < i {
                        let j = choose|j: int|
                            0 <= j < before.len() && #[trigger] before[j]@ == key_at(
                                client.records@,
                                x,
                            );
                        assert(ks@[j] == before[j]);
                    } else {
                        assert(ks@[ks@.len() - 1]@ == key_at(client.records@, x));
                    }
                }
            }
        }
        i = i + 1;
    }
    ks
}

/// How the manager sets up a client transaction for an outgoing request.
#[derive(Debug)]
pub struct ClientTransactionPlan {
    /// The key: the request's top Via branch (or a fresh one), its method, client side.
    pub key: TransactionKey,
    /// INVITE client for an INVITE, non-INVITE client otherwise.
    pub kind: TransactionKind,
    /// Whether the request's Via header fields are replaced by a single Via
    /// with the local address and the key's branch (every method but CANCEL,
    /// whose Via must stay that of the INVITE it cancels).
    pub replace_via: bool,
    /// Whether a validation of the request (CANCEL or UPDATE) found a
    /// defect; the transaction is created anyway.
    pub validation_warning: bool,
}

/// The kind of client transaction for a method.
pub open spec fn spec_client_kind(m: MethodView) -> TransactionKind {
    if m == MethodView::Invite {
        TransactionKind::InviteClient
    } else {
        TransactionKind::NonInviteClient
    }
}

/// The kind of server transaction for a method.
pub open spec fn spec_server_kind(m: MethodView) -> TransactionKind {
    if m == MethodView::Invite {
        TransactionKind::InviteServer
    } else {
        TransactionKind::NonInviteServer
    }
}

/// Plans the client transaction for an outgoing request: the branch of the
/// request's top Via is kept, or a fresh one made when there is none.
pub fn plan_client_transaction(request: &RequestInfo) -> (p: ClientTransactionPlan)
    ensures
        top_branch(request.via_branches@) matches Some(b) ==> p.key.branch@ == b,
        top_branch(request.via_branches@) is None ==> is_generated_branch(p.key.branch@),
        p.key.method@ == request.method@,
        !p.key.is_server,
        p.kind == spec_client_kind(request.method@),
        p.replace_via == (request.method@ != MethodView::Cancel),
        request.method@ == MethodView::Cancel ==> (p.validation_warning <==> crate::cancel::spec_cancel_defect(*request) is Some),
        request.method@ == MethodView::Update ==> (p.validation_warning <==> crate::update::spec_update_defect(*request) is Some),
        request.method@ != MethodView::Cancel && request.method@ != MethodView::Update ==> !p.validation_warning,
{
    let branch = match first_branch(&request.via_branches) {
        Some(b) => b.clone(),
        None => generate_branch(),
    };
    let key = TransactionKey::new(branch, request.method.duplicate(), false);
    let kind = if request.method.is_invite() {
        TransactionKind::InviteClient
    } else {
        TransactionKind::NonInviteClient
    };
    let validation_warning = if request.method.is_cancel() {
        validate_cancel_request(request).is_err()
    } else if request.method.is_update() {
        validate_update_request(request).is_err()
    } else {
        false
    };
    ClientTransactionPlan { key, kind, replace_via: !request.method.is_cancel(), validation_warning }
}

/// The Via that replaces an outgoing request's Via header fields when the
/// plan asks for it: UDP, sent-by `local_addr`, and the key's branch.
pub fn client_via(plan: &ClientTransactionPlan, local_addr: &str) -> (r: Option<RequestPart>)
    ensures
        plan.replace_via ==> (r matches Some(p) && p@ == (PartView::Via {
            host: local_addr@,
            transport: "UDP"@,
            branch: plan.key.branch@,
        })),
        !plan.replace_via ==> r is None,
{
    proof {
        reveal_strlit("UDP");
    }
    if plan.replace_via {
        Some(RequestPart::Via { host: text(local_addr), transport: text("UDP"), branch: plan.key.branch.clone() })
    } else {
        None
    }
}

/// How the manager handles an incoming request that starts a server transaction.
#[derive(Debug)]
pub enum ServerTransactionPlan {
    /// A transaction with this key exists: the request is a retransmission for it.
    Existing(TransactionKey),
    /// Create a transaction of `kind` at `key`, then ask it to enter
    /// `initial_state`. For a CANCEL, `cancel_target` is the INVITE client
    /// transaction it matches, reported with a CancelRequest event.
    Create {
        key: TransactionKey,
        kind: TransactionKind,
        initial_state: TransactionState,
        cancel_target: Option<TransactionKey>,
        validation_warning: bool,
    },
}

/// The initial state that a new server transaction is asked to enter.
pub open spec fn spec_server_initial_state(m: MethodView) -> TransactionState {
    if m == MethodView::Invite {
        TransactionState::Proceeding
    } else {
        TransactionState::Trying
    }
}

/// Whether the validation flag matches the defects of the request.
pub open spec fn spec_validation_warning(request: RequestInfo, w: bool) -> bool {
    if request.method@ == MethodView::Cancel {
        w == (crate::cancel::spec_cancel_defect(request) is Some)
    } else if request.method@ == MethodView::Update {
        w == (crate::update::spec_update_defect(request) is Some)
    } else {
        !w
    }
}

/// Whether a CANCEL carries the header fields it is matched by: Call-ID,
/// From, To and CSeq.
pub open spec fn cancel_is_matchable(request: RequestInfo) -> bool {
    request.call_id is Some && request.from is Some && request.to is Some && request.cseq is Some
}

/// The key of the INVITE client transaction with branch `b`.
pub open spec fn invite_client_key(b: Seq<char>) -> KeyView {
    KeyView { branch: b, method: MethodView::Invite, is_server: false }
}

/// The INVITE client transaction that a CANCEL at key `k` targets: the one
/// with the CANCEL's branch, when the CANCEL can be matched and the client
/// table holds it.
pub open spec fn spec_cancel_target(request: RequestInfo, k: KeyView, client: TransactionTable) -> Option<KeyView> {
    if request.method@ == MethodView::Cancel && cancel_is_matchable(request) && client.contains(
        invite_client_key(k.branch),
    ) {
        Some(invite_client_key(k.branch))
    } else {
        None
    }
}

/// The view of an optional key.
pub open spec fn opt_key(o: Option<TransactionKey>) -> Option<KeyView> {
    match o {
        Some(t) => Some(t@),
        None => None,
    }
}

/// Whether a plan creates the right server transaction at key `k`.
pub open spec fn spec_create_plan(
    p: ServerTransactionPlan,
    k: KeyView,
    request: RequestInfo,
    client: TransactionTable,
) -> bool {
    match p {
        ServerTransactionPlan::Create { key, kind, initial_state, cancel_target, validation_warning } => {
            &&& key@ == k
            &&& kind == spec_server_kind(request.method@)
            &&& initial_state == spec_server_initial_state(request.method@)
            &&& spec_validation_warning(request, validation_warning)
            &&& opt_key(cancel_target) == spec_cancel_target(request, k, client)
        },
        ServerTransactionPlan::Existing(_) => false,
    }
}

/// Plans the server transaction for an incoming request. The request's top
/// Via must carry a branch. A non-INVITE server transaction cannot be made
/// for an ACK.
pub fn plan_server_transaction(
    server: &TransactionTable,
    client: &TransactionTable,
    request: &RequestInfo,
) -> (r: Result<ServerTransactionPlan, Error>)
    requires
        server.wf(),
    ensures
        request.via_branches@.len() == 0 ==> r == Err::<ServerTransactionPlan, Error>(
            Error::MissingHeader(HeaderField::Via),
        ),
        request.via_branches@.len() > 0 && top_branch(request.via_branches@) is None ==> r == Err::<
            ServerTransactionPlan,
            Error,
        >(Error::MissingBranch),
        top_branch(request.via_branches@) matches Some(b) ==> {
            let k = KeyView { branch: b, method: request.method@, is_server: true };
            &&& server.contains(k) ==> (r matches Ok(ServerTransactionPlan::Existing(t)) && t@ == k)
            &&& !server.contains(k) && request.method@ == MethodView::Ack ==> r == Err::<
                ServerTransactionPlan,
                Error,
            >(Error::WrongMethod)
            &&& !server.contains(k) && request.method@ != MethodView::Ack ==> (r matches Ok(p)
                && spec_create_plan(p, k, *request, *client))
        },
{
    if request.via_branches.len() == 0 {
        return Err(Error::MissingHeader(HeaderField::Via));
    }
    let branch = match &request.via_branches[0] {
        Some(b) => b.clone(),
        None => return Err(Error::MissingBranch),
    };
    let key = TransactionKey::new(branch, request.method.duplicate(), true);
    if server.contains_key(&key) {
        return Ok(ServerTransactionPlan::Existing(key));
    }
    if request.method.is_ack() {
        return Err(Error::WrongMethod);
    }
    let kind = if request.method.is_invite() {
        TransactionKind::InviteServer
    } else {
        TransactionKind::NonInviteServer
    };
    let initial_state = if request.method.is_invite() {
        TransactionState::Proceeding
    } else {
        TransactionState::Trying
    };
    let mut validation_warning = false;
    let mut cancel_target: Option<TransactionKey> = None;
    if request.method.is_cancel() {
        validation_warning = validate_cancel_request(request).is_err();
        let candidates = client_invite_keys(client);
        cancel_target = find_matching_invite_transaction(request, &candidates);
        proof {
            let b = top_branch(request.via_branches@).unwrap();
            let ik = invite_client_key(b);
            if cancel_target is Some {
                let t = cancel_target.unwrap();
                let i = choose|i: int| 0 <= i < candidates@.len() && candidates@[i]@ == t@ && t.branch@ == b && forall|j: int| 0 <= j < i ==> (#[trigger] candidates@[j]).branch@ != b;
                assert(candidates@[i]@.method == MethodView::Invite);
                assert(t@ == ik);
            } else if cancel_is_matchable(*request) && client.contains(ik) {
                let x = choose|x: int| 0 <= x < client.records@.len() && #[trigger] key_at(client.records@, x) == ik;
                let j = choose|j: int| 0 <= j < candidates@.len() && #[trigger] candidates@[j]@ == key_at(client.records@, x);
                assert(candidates@[j].branch@ == b);
            }
        }
    } else if request.method.is_update() {
        validation_warning = validate_update_request(request).is_err();
    }
    Ok(ServerTransactionPlan::Create { key, kind, initial_state, cancel_target, validation_warning })
}

/// A client INVITE transaction key: the only kind that can be cancelled or
/// acknowledged for a 2xx by the manager.
pub fn require_invite_client_key(key: &TransactionKey) -> (r: Result<(), Error>)
    ensures
        r is Ok <==> (key.method@ == MethodView::Invite && !key.is_server),
        r is Err ==> r == Err::<(), Error>(
            (Error::UnexpectedKind {
                kind: if key.is_server {
                    TransactionKind::InviteServer
                } else {
                    TransactionKind::NonInviteClient
                },
            }),
        ),
{
    if key.method.is_invite() && !key.is_server {
        Ok(())
    } else if key.is_server {
        Err(Error::UnexpectedKind { kind: TransactionKind::InviteServer })
    } else {
        Err(Error::UnexpectedKind { kind: TransactionKind::NonInviteClient })
    }
}

/// Creating an INVITE client transaction needs an INVITE.
pub fn check_invite_method(method: &Method) -> (r: Result<(), Error>)
    ensures
        r is Ok <==> method@ == MethodView::Invite,
        r matches Err(e) ==> e == Error::WrongMethod,
{
    if method.is_invite() {
        Ok(())
    } else {
        Err(Error::WrongMethod)
    }
}

/// Creating a non-INVITE client transaction needs another method than INVITE.
pub fn check_non_invite_method(method: &Method) -> (r: Result<(), Error>)
    ensures
        r is Ok <==> method@ != MethodView::Invite,
        r matches Err(e) ==> e == Error::WrongMethod,
{
    if method.is_invite() {
        Err(Error::WrongMethod)
    } else {
        Ok(())
    }
}

/// What `send_request` concludes from an event about the transaction it
/// started: a TransportError, or a move to Terminated straight from Initial,
/// Calling or Trying, means the request could not be sent.
pub fn send_failed_on_event(
    transport_error: bool,
    state_change: Option<(TransactionState, TransactionState)>,
) -> (failed: bool)
    ensures
        failed == (transport_error || (state_change matches Some((prev, new)) && new
            == TransactionState::Terminated && (prev == TransactionState::Initial || prev
            == TransactionState::Calling || prev == TransactionState::Trying))),
{
    if transport_error {
        return true;
    }
    match state_change {
        Some((prev, new)) => new == TransactionState::Terminated && (prev
            == TransactionState::Initial || prev == TransactionState::Calling || prev
            == TransactionState::Trying),
        None => false,
    }
}

/// What `send_request` concludes once the wait for events is over: the
/// request failed when the transaction is gone or Terminated.
pub fn send_failed_at_end(state: Option<TransactionState>) -> (failed: bool)
    ensures
        failed == (state is None || state == Some(TransactionState::Terminated)),
{
    match state {
        None => true,
        Some(s) => s == TransactionState::Terminated,
    }
}

/// Every record of the sequence has reached the Destroyed lifecycle.
pub open spec fn all_records_destroyed(recs: Seq<TransactionRecord>) -> bool {
    forall|i: int| 0 <= i < recs.len() ==> (#[trigger] recs[i]).core.lifecycle == TransactionLifecycle::Destroyed
}

/// Whether every record of the table has reached the Destroyed lifecycle.
fn table_destroyed(t: &TransactionTable) -> (r: bool)
    ensures
        r == all_records_destroyed(t.records@),
{
    let mut i: usize = 0;
    while i < t.records.len()
        invariant
            i <= t.records@.len(),
            forall|j: int|
                0 <= j < i ==> (#[trigger] t.records@[j]).core.lifecycle
                    == TransactionLifecycle::Destroyed,
        decreases t.records.len() - i,
    {
        if t.records[i].core.lifecycle != TransactionLifecycle::Destroyed {
            assert(!all_records_destroyed(t.records@)) by {
                assert(t.records@[i as int].core.lifecycle != TransactionLifecycle::Destroyed);
            }
            return false;
        }
        i = i + 1;
    }
    true
}

/// Whether every transaction on both sides has reached the Destroyed lifecycle.
pub fn all_destroyed(client: &TransactionTable, server: &TransactionTable) -> (r: bool)
    ensures
        r == (all_records_destroyed(client.records@) && all_records_destroyed(server.records@)),
{
    table_destroyed(client) && table_destroyed(server)
}

/// Whether a terminated transaction can be removed now: its record, on
/// either side, has reached the Destroyed lifecycle.
pub fn ready_for_cleanup(
    client: &TransactionTable,
    server: &TransactionTable,
    key: &TransactionKey,
) -> (r: bool)
    requires
        client.wf(),
        server.wf(),
    ensures
        r == ((exists|i: int|
            0 <= i < client.records@.len() && key_at(client.records@, i) == key@
                && client.records@[i].core.lifecycle == TransactionLifecycle::Destroyed) || (
        exists|i: int|
            0 <= i < server.records@.len() && key_at(server.records@, i) == key@
                && server.records@[i].core.lifecycle == TransactionLifecycle::Destroyed)),
    {
    let c = match client.find(key) {
        Some(i) => {
            proof {
                assert forall|x: int|
                    0 <= x < client.records@.len() && key_at(client.records@, x) == key@ implies x
                    == i by {
                    if x != i {
                        assert(key_at(client.records@, x) != key_at(client.records@, i as int));
                    }
                }
            }
            client.records[i].core.lifecycle == TransactionLifecycle::Destroyed
        },
        None => false,
    };
    let s = match server.find(key) {
        Some(i) => {
            proof {
                assert forall|x: int|
                    0 <= x < server.records@.len() && key_at(server.records@, x) == key@ implies x
                    == i by {
                    if x != i {
                        assert(key_at(server.records@, x) != key_at(server.records@, i as int));
                    }
                }
            }
            server.records[i].core.lifecycle == TransactionLifecycle::Destroyed
        },
        None => false,
    };
    proof {
        if !c {
            assert forall|x: int|
                0 <= x < client.records@.len() && key_at(client.records@, x) == key@ implies
                client.records@[x].core.lifecycle != TransactionLifecycle::Destroyed by {
                assert(has_key(client.records@, key@));
            }
        }
        if !s {
            assert forall|x: int|
                0 <= x < server.records@.len() && key_at(server.records@, x) == key@ implies
                server.records@[x].core.lifecycle != TransactionLifecycle::Destroyed by {
                assert(has_key(server.records@, key@));
            }
        }
    }
    c || s
}

/// Removes a terminated transaction: from the client and the server table
/// (both are tried), from the subscriptions and from the timer manager.
/// Returns whether either table held it.
pub fn remove_terminated_transaction(
    client: &mut TransactionTable,
    server: &mut TransactionTable,
    subscriptions: &mut SubscriberRegistry,
    timers: &mut TimerManager,
    key: &TransactionKey,
) -> (terminated: bool)
    requires
        old(client).wf(),
        old(server).wf(),
        old(subscriptions).wf(),
        old(timers).wf(),
    ensures
        final(client).wf(),
        final(server).wf(),
        final(subscriptions).wf(),
        final(timers).wf(),
        terminated == spec_exists(*old(client), *old(server), key@),
        !final(client).contains(key@),
        !final(server).contains(key@),
        forall|k: KeyView| k != key@ ==> (final(client).contains(k) <==> old(client).contains(k)),
        forall|k: KeyView| k != key@ ==> (final(server).contains(k) <==> old(server).contains(k)),
        final(subscriptions).rel() == without_key(old(subscriptions).rel(), key@),
        final(subscriptions).next_id == old(subscriptions).next_id,
        final(subscriptions).senders == old(subscriptions).senders,
        final(timers).spec_registered() == old(timers).spec_registered().remove(key@),
        final(timers).spec_settings() == old(timers).spec_settings(),
{
    let from_client = client.remove(key).is_some();
    let from_server = server.remove(key).is_some();
    subscriptions.remove_transaction(key);
    timers.unregister_transaction(key);
    from_client || from_server
}

/// Whether the transaction at key `k` on its side matches `m`: a server
/// transaction a request (or response) whose derived key is `k`, a client
/// transaction a response with `k`'s branch on top and `k`'s method in CSeq.
pub open spec fn spec_message_matches(m: Message, k: KeyView) -> bool {
    match m {
        Message::Request(_) => spec_server_matches(m, k),
        Message::Response(r) => spec_response_matches(r.via_branches@, opt_cseq(r.cseq), k.branch, k.method),
    }
}

/// The table a message is looked up in: server transactions for a request,
/// client transactions for a response.
pub open spec fn side_table(m: Message, client: TransactionTable, server: TransactionTable) -> TransactionTable {
    match m {
        Message::Request(_) => server,
        Message::Response(_) => client,
    }
}

/// The record at `i` is the first of the table that matches `m`.
pub open spec fn first_match_at(t: TransactionTable, m: Message, i: int) -> bool {
    &&& 0 <= i < t.records@.len()
    &&& spec_message_matches(m, key_at(t.records@, i))
    &&& forall|j: int| 0 <= j < i ==> !spec_message_matches(m, #[trigger] key_at(t.records@, j))
}

/// The transaction a message belongs to: for a request, the server
/// transaction it matches; for a response, the client transaction it
/// matches. Table order decides between several (keys are distinct, so there
/// is at most one).
pub fn find_transaction_by_message(
    client: &TransactionTable,
    server: &TransactionTable,
    message: &Message,
) -> (r: Option<TransactionKey>)
    ensures
        r matches Some(k) ==> exists|i: int|
            #[trigger] first_match_at(side_table(*message, *client, *server), *message, i) && key_at(
                side_table(*message, *client, *server).records@,
                i,
            ) == k@,
        r is None ==> forall|i: int|
            0 <= i < side_table(*message, *client, *server).records@.len() ==> !spec_message_matches(
                *message,
                #[trigger] key_at(side_table(*message, *client, *server).records@, i),
            ),
{
    let table = match message {
        Message::Request(_) => server,
        Message::Response(_) => client,
    };
    let mut i: usize = 0;
    while i < table.records.len()
        invariant
            i <= table.records@.len(),
            *table == side_table(*message, *client, *server),
            forall|j: int| 0 <= j < i ==> !spec_message_matches(*message, #[trigger] key_at(table.records@, j)),
        decreases table.records.len() - i,
    {
        let k = &table.records[i].key;
        let hit = match message {
            Message::Request(_) => ServerNonInviteLogic::matches(k, message),
            Message::Response(resp) => client_transaction_matches(resp, k),
        };
        if hit {
            let found = k.duplicate();
            assert(key_at(table.records@, i as int) == found@ && first_match_at(*table, *message, i as int));
            return Some(found);
        }
        i = i + 1;
    }
    None
}

/// The manager's lookup of the client INVITE transaction a CANCEL targets:
/// the request must be a CANCEL; the first INVITE client transaction (in table
/// order) with the CANCEL's top Via branch.
pub fn find_invite_client_for_cancel(client: &TransactionTable, cancel_request: &RequestInfo) -> (r: Result<
    Option<TransactionKey>,
    Error,
>)
    ensures
        cancel_request.method@ != MethodView::Cancel ==> r == Err::<Option<TransactionKey>, Error>(Error::WrongMethod),
        cancel_request.method@ == MethodView::Cancel ==> (r matches Ok(found) && match found {
            Some(k) => client.contains(k@) && top_branch(cancel_request.via_branches@) == Some(k@.branch)
                && k@.method == MethodView::Invite && !k@.is_server,
            None => top_branch(cancel_request.via_branches@) matches Some(b) ==> forall|i: int|
                0 <= i < client.records@.len() ==> !is_client_invite_with_branch(
                    #[trigger] key_at(client.records@, i),
                    b,
                ),
        }),
{
    if !cancel_request.method.is_cancel() {
        return Err(Error::WrongMethod);
    }
    let keys = client_invite_keys(client);
    let found = find_invite_transaction_for_cancel(cancel_request, &keys);
    proof {
        match top_branch(cancel_request.via_branches@) {
            Some(b) => {
                if found is None {
                    assert forall|i: int| 0 <= i < client.records@.len() implies !is_client_invite_with_branch(
                        #[trigger] key_at(client.records@, i),
                        b,
                    ) by {
                        if is_client_invite_with_branch(key_at(client.records@, i), b) {
                            let j = choose|j: int| 0 <= j < keys@.len() && #[trigger] keys@[j]@ == key_at(client.records@, i);
                            assert(!is_client_invite_with_branch(keys@[j]@, b));
                        }
                    }
                } else {
                    let k = found.unwrap();
                    let i = choose|i: int|
                        0 <= i < keys@.len() && keys@[i]@ == k@ && is_client_invite_with_branch(k@, b) && forall|j: int|
                            0 <= j < i ==> !is_client_invite_with_branch(#[trigger] keys@[j]@, b);
                    assert(client.contains(keys@[i]@));
                }
            },
            None => {},
        }
    }
    Ok(found)
}

/// What a waiting loop does after one look: clean up now, give up waiting
/// and clean up anyway, or wait another round.
#[derive(Debug, Clone, Copy, PartialEq, Eq, Structural)]
pub enum PollStep {
    Ready,
    GiveUp,
    Wait,
}

/// How many rounds of 100 ms the manager waits for a terminated transaction
/// to reach Destroyed before removing it anyway.
pub const TERMINATION_POLL_LIMIT: u32 = 50;

/// How many rounds of 100 ms shutdown waits for every transaction to reach
/// Destroyed before clearing them anyway.
pub const SHUTDOWN_POLL_LIMIT: u32 = 20;

/// One round of a waiting loop that has already waited `attempts` rounds:
/// `ready` ends it; otherwise the count goes up and the loop gives up once
/// it exceeds `limit`. Returns the step and the new count.
pub fn poll_step(ready: bool, attempts: u32, limit: u32) -> (r: (PollStep, u32))
    requires
        attempts < u32::MAX,
    ensures
        ready ==> r == (PollStep::Ready, attempts),
        !ready ==> r.1 == attempts + 1 && (r.0 == if attempts + 1 > limit {
            PollStep::GiveUp
        } else {
            PollStep::Wait
        }),
{
    if ready {
        return (PollStep::Ready, attempts);
    }
    let next = attempts + 1;
    if next > limit {
        (PollStep::GiveUp, next)
    } else {
        (PollStep::Wait, next)
    }
}

/// The CSeq of a message, when it has one.
pub open spec fn message_cseq(m: Message) -> Option<(u32, MethodView)> {
    match m {
        Message::Request(r) => opt_cseq(r.cseq),
        Message::Response(r) => opt_cseq(r.cseq),
    }
}

/// The sequence number and method of a message's CSeq.
pub fn extract_cseq(message: &Message) -> (r: Option<(u32, Method)>)
    ensures
        match r {
            Some((n, m)) => message_cseq(*message) == Some((n, m@)),
            None => message_cseq(*message) is None,
        },
{
    let c = match message {
        Message::Request(req) => &req.cseq,
        Message::Response(resp) => &resp.cseq,
    };
    match c {
        Some(x) => Some((x.seq, x.method.duplicate())),
        None => None,
    }
}

/// Where an ACK for a 2xx goes: the address of the response's Contact when
/// it gives one, else the destination the INVITE was sent to.
pub fn choose_ack_destination<A>(contact_address: Option<A>, invite_destination: Option<A>) -> (r: Result<A, Error>)
    ensures
        contact_address is Some ==> r == Ok::<A, Error>(contact_address.unwrap()),
        contact_address is None && invite_destination is Some ==> r == Ok::<A, Error>(invite_destination.unwrap()),
        contact_address is None && invite_destination is None ==> r == Err::<A, Error>(Error::DestinationNotFound),
{
    match contact_address {
        Some(a) => Ok(a),
        None => match invite_destination {
            Some(d) => Ok(d),
            None => Err(Error::DestinationNotFound),
        },
    }
}

/// An INVITE gets INVITE transactions and every other method non-INVITE
/// ones; a new INVITE server transaction starts in Proceeding and any other
/// server transaction in Trying (RFC 3261 Sections 17.1 and 17.2).
pub proof fn lemma_transaction_kinds_follow_rfc(m: MethodView)
    ensures
        m == MethodView::Invite ==> spec_client_kind(m) == TransactionKind::InviteClient && spec_server_kind(m)
            == TransactionKind::InviteServer && spec_server_initial_state(m) == TransactionState::Proceeding,
        m != MethodView::Invite ==> spec_client_kind(m) == TransactionKind::NonInviteClient && spec_server_kind(m)
            == TransactionKind::NonInviteServer && spec_server_initial_state(m) == TransactionState::Trying,
{
}

/// A new server transaction for a CANCEL targets the INVITE client
/// transaction with the CANCEL's branch, when the CANCEL carries Call-ID,
/// From, To and CSeq and the client table holds that transaction; any other
/// request, or a CANCEL without those or without such a transaction, has no
/// target. The validation flag is raised exactly for a CANCEL or an UPDATE
/// that fails its checks.
pub proof fn lemma_server_plan_follows_rfc(request: RequestInfo, k: KeyView, client: TransactionTable, w: bool)
    ensures
        request.method@ != MethodView::Cancel ==> spec_cancel_target(request, k, client) is None,
        spec_cancel_target(request, k, client) matches Some(t) ==> t.branch == k.branch && t.method
            == MethodView::Invite && !t.is_server && client.contains(t) && request.call_id is Some
            && request.from is Some && request.to is Some && request.cseq is Some,
        request.method@ == MethodView::Cancel && request.call_id is Some && request.from is Some && request.to is Some
            && request.cseq is Some && client.contains(KeyView { branch: k.branch, method: MethodView::Invite, is_server: false })
            ==> spec_cancel_target(request, k, client) is Some,
        spec_validation_warning(request, w) ==> (w <==> ((request.method@ == MethodView::Cancel
            && crate::cancel::spec_cancel_defect(request) is Some) || (request.method@ == MethodView::Update
            && crate::update::spec_update_defect(request) is Some))),
{
}

} // verus!
