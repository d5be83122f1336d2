use vstd::prelude::*;
use crate::state::{TransactionKind, TransactionState, TransactionLifecycle};
use crate::key::{TransactionKey, KeyView, key_of_request, key_of_response};
use crate::method::{Method, MethodView};
use crate::message::{RequestInfo, ResponseInfo, opt_view, party_tag, opt_cseq, top_branch,
    first_branch, is_provisional, is_success, status_is_success, status_is_provisional};
use crate::table::{TransactionTable, TransactionRecord, DialogIds, key_at, has_key};
use crate::event::TuEvent;

verus! {

/// An ACK for a 2xx belongs to an INVITE server transaction when Call-ID and
/// From tag are present on both sides and equal, and the To tags are equal
/// when both are present (the INVITE of an early dialog may have none).
pub open spec fn spec_ack_matches_dialog(
    tx_call_id: Option<Seq<char>>,
    tx_from_tag: Option<Seq<char>>,
    tx_to_tag: Option<Seq<char>>,
    ack_call_id: Option<Seq<char>>,
    ack_from_tag: Option<Seq<char>>,
    ack_to_tag: Option<Seq<char>>,
) -> bool {
    &&& tx_call_id is Some && ack_call_id is Some && tx_call_id == ack_call_id
    &&& tx_from_tag is Some && ack_from_tag is Some && tx_from_tag == ack_from_tag
    &&& (tx_to_tag is Some && ack_to_tag is Some ==> tx_to_tag == ack_to_tag)
}

/// Whether the record of an INVITE server transaction matches an ACK by dialog identifiers.
pub open spec fn spec_record_matches_ack(r: TransactionRecord, ack: RequestInfo) -> bool {
    &&& r.key.method@ == MethodView::Invite && r.key.is_server
    &&& spec_ack_matches_dialog(
        opt_view(r.dialog.call_id),
        opt_view(r.dialog.from_tag),
        opt_view(r.dialog.to_tag),
        opt_view(ack.call_id),
        party_tag(ack.from),
        party_tag(ack.to),
    )
}

fn opt_both_equal(a: &Option<String>, b: &Option<String>) -> (r: bool)
    ensures
        r == (a is Some && b is Some && opt_view(*a) == opt_view(*b)),
{
    match (a, b) {
        (Some(x), Some(y)) => *x == *y,
        _ => false,
    }
}

fn party_tag_of(p: &Option<crate::message::Party>) -> (r: &Option<String>)
    ensures
        opt_view(*r) == party_tag(*p),
{
    match p {
        Some(x) => &x.tag,
        None => &NO_TAG,
    }
}

const NO_TAG: Option<String> = None;

/// Whether a server transaction record matches an ACK by dialog identifiers.
pub fn record_matches_ack(record: &TransactionRecord, ack: &RequestInfo) -> (r: bool)
    ensures
        r == spec_record_matches_ack(*record, *ack),
{
    if !(record.key.method.is_invite() && record.key.is_server) {
        return false;
    }
    if !opt_both_equal(&record.dialog.call_id, &ack.call_id) {
        return false;
    }
    let ack_from = party_tag_of(&ack.from);
    if !opt_both_equal(&record.dialog.from_tag, ack_from) {
        return false;
    }
    let ack_to = party_tag_of(&ack.to);
    match (&record.dialog.to_tag, ack_to) {
        (Some(x), Some(y)) => *x == *y,
        _ => true,
    }
}

/// Finds an INVITE server transaction that an ACK matches by dialog
/// identifiers: one such record when any exists, `None` otherwise.
pub fn find_ack_dialog_match(server: &TransactionTable, ack: &RequestInfo) -> (r: Option<usize>)
    ensures
        r matches Some(i) ==> i < server.records@.len() && spec_record_matches_ack(
            server.records@[i as int],
            *ack,
        ),
        r is None ==> forall|i: int|
            0 <= i < server.records@.len() ==> !spec_record_matches_ack(
                #[trigger] server.records@[i],
                *ack,
            ),
{
    let mut i: usize = 0;
    while i < server.records.len()
        invariant
            i <= server.records@.len(),
            forall|j: int|
                0 <= j < i ==> !spec_record_matches_ack(#[trigger] server.records@[j], *ack),
        decreases server.records.len() - i,
    {
        if record_matches_ack(&server.records[i], ack) {
            return Some(i);
        }
        i = i + 1;
    }
    None
}

/// Whether an INVITE server transaction of the table matches an ACK by
/// dialog identifiers.
pub open spec fn spec_invite_server_takes_ack(server: TransactionTable, ack: RequestInfo) -> bool {
    exists|i: int|
        0 <= i < server.records@.len() && #[trigger] spec_record_matches_ack(server.records@[i], ack)
            && server.records@[i].kind == TransactionKind::InviteServer
}

/// Finds an INVITE server transaction that an ACK matches by dialog
/// identifiers: the first such record, or `None` when there is none.
pub fn find_invite_server_for_ack(server: &TransactionTable, ack: &RequestInfo) -> (r: Option<usize>)
    ensures
        r matches Some(i) ==> i < server.records@.len() && spec_record_matches_ack(
            server.records@[i as int],
            *ack,
        ) && server.records@[i as int].kind == TransactionKind::InviteServer,
        r is None <==> !spec_invite_server_takes_ack(*server, *ack),
{
    let mut i: usize = 0;
    while i < server.records.len()
        invariant
            i <= server.records@.len(),
            forall|j: int|
                0 <= j < i ==> !(#[trigger] spec_record_matches_ack(server.records@[j], *ack)
                    && server.records@[j].kind == TransactionKind::InviteServer),
        decreases server.records.len() - i,
    {
        if record_matches_ack(&server.records[i], ack) && server.records[i].kind == TransactionKind::InviteServer {
            return Some(i);
        }
        i = i + 1;
    }
    None
}

/// Where a request that arrives from the transport goes.
#[derive(Debug)]
pub enum RequestRoute {
    /// No transaction key can be derived from the request: an error.
    NoKey,
    /// An ACK for the INVITE server transaction at this key: hand it over
    /// and report AckReceived (a stray ACK if the transaction fails to take it).
    AckToInviteServer(TransactionKey),
    /// An ACK that matches no INVITE server transaction: report a stray ACK.
    StrayAck,
    /// A CANCEL for the INVITE server transaction at this key: report it,
    /// answer the CANCEL with [`crate::cancel::cancel_ok_response`] and let
    /// the transaction send [`crate::cancel::request_terminated_response`]
    /// for its INVITE.
    CancelInvite(TransactionKey),
    /// A CANCEL that matches no INVITE server transaction: answer it with
    /// [`crate::cancel::stray_cancel_response`] and report a stray CANCEL.
    StrayCancel,
    /// The transaction at this key is no longer active: drop the request.
    SkipInactive(TransactionKey),
    /// A retransmission for the transaction at this key.
    Retransmission(TransactionKey),
    /// A new request: create a server transaction for it.
    NewRequest,
}

/// In a table without repeated keys, the record found for a key is the only one with that key.
pub proof fn lemma_unique_index(recs: Seq<TransactionRecord>, i: int, k: KeyView)
    requires
        crate::table::distinct_keys(recs),
        0 <= i < recs.len(),
        key_at(recs, i) == k,
    ensures
        forall|j: int| 0 <= j < recs.len() && key_at(recs, j) == k ==> j == i,
{
    assert forall|j: int| 0 <= j < recs.len() && key_at(recs, j) == k implies j == i by {
        if j != i {
            assert(key_at(recs, i) != key_at(recs, j));
        }
    }
}

/// Routes a request delivered by the transport.
pub fn route_transport_request(server: &TransactionTable, request: &RequestInfo) -> (r: RequestRoute)
    requires
        server.wf(),
    ensures
        key_of_request(request.method@, request.via_branches@) is None ==> r is NoKey,
        key_of_request(request.method@, request.via_branches@) matches Some(k) ==> {
            &&& request.method@ == MethodView::Ack ==> {
                &&& r matches RequestRoute::AckToInviteServer(t) ==> {
                    ||| server.contains(k) && t@ == k && exists|i: int|
                        0 <= i < server.records@.len() && key_at(server.records@, i) == k
                            && server.records@[i].kind == TransactionKind::InviteServer
                    ||| !server.contains(k) && exists|i: int|
                        0 <= i < server.records@.len() && spec_record_matches_ack(
                            server.records@[i],
                            *request,
                        ) && key_at(server.records@, i) == t@
                            && server.records@[i].kind == TransactionKind::InviteServer
                }
                &&& r is StrayAck || r is AckToInviteServer
                &&& r is StrayAck ==> (server.contains(k) ==> forall|i: int|
                    0 <= i < server.records@.len() && key_at(server.records@, i) == k
                        ==> server.records@[i].kind != TransactionKind::InviteServer)
                &&& !server.contains(k) ==> (r is AckToInviteServer <==> spec_invite_server_takes_ack(
                    *server,
                    *request,
                ))
            }
            &&& request.method@ == MethodView::Cancel ==> {
                let ik = KeyView { branch: k.branch, method: MethodView::Invite, is_server: true };
                &&& r is CancelInvite || r is StrayCancel
                &&& r matches RequestRoute::CancelInvite(t) ==> t@ == ik && exists|i: int|
                    0 <= i < server.records@.len() && key_at(server.records@, i) == ik
                        && server.records@[i].kind == TransactionKind::InviteServer
                &&& r is StrayCancel ==> forall|i: int|
                    0 <= i < server.records@.len() && key_at(server.records@, i) == ik
                        ==> server.records@[i].kind != TransactionKind::InviteServer
            }
            &&& request.method@ != MethodView::Ack && request.method@ != MethodView::Cancel ==> {
                &&& !server.contains(k) <==> r is NewRequest
                &&& r matches RequestRoute::Retransmission(t) ==> t@ == k && exists|i: int|
                    0 <= i < server.records@.len() && key_at(server.records@, i) == k
                        && server.records@[i].core.lifecycle == TransactionLifecycle::Active
                &&& r matches RequestRoute::SkipInactive(t) ==> t@ == k && exists|i: int|
                    0 <= i < server.records@.len() && key_at(server.records@, i) == k
                        && server.records@[i].core.lifecycle != TransactionLifecycle::Active
                &&& r is NewRequest || r is Retransmission || r is SkipInactive
            }
        },
{
    let key = match TransactionKey::from_request(request) {
        Some(k) => k,
        None => return RequestRoute::NoKey,
    };
    if request.method.is_ack() {
        match server.find(&key) {
            Some(i) => {
                proof {
                    lemma_unique_index(server.records@, i as int, key@);
                }
                if server.records[i].kind == TransactionKind::InviteServer {
                    return RequestRoute::AckToInviteServer(server.records[i].key.duplicate());
                } else {
                    return RequestRoute::StrayAck;
                }
            },
            None => {
                return match find_invite_server_for_ack(server, request) {
                    Some(i) => {
                        let t = server.records[i].key.duplicate();
                        assert(spec_record_matches_ack(server.records@[i as int], *request)
                            && key_at(server.records@, i as int) == t@
                            && server.records@[i as int].kind == TransactionKind::InviteServer);
                        RequestRoute::AckToInviteServer(t)
                    },
                    None => RequestRoute::StrayAck,
                };
            },
        }
    }
    if request.method.is_cancel() {
        let invite_key = TransactionKey::new(key.branch.clone(), Method::Invite, true);
        return match server.find(&invite_key) {
            Some(i) => {
                proof {
                    lemma_unique_index(server.records@, i as int, invite_key@);
                }
                if server.records[i].kind == TransactionKind::InviteServer {
                    RequestRoute::CancelInvite(invite_key)
                } else {
                    RequestRoute::StrayCancel
                }
            },
            None => RequestRoute::StrayCancel,
        };
    }
    match server.find(&key) {
        Some(i) => {
            proof {
                lemma_unique_index(server.records@, i as int, key@);
            }
            if server.records[i].core.lifecycle != TransactionLifecycle::Active {
                RequestRoute::SkipInactive(key)
            } else {
                RequestRoute::Retransmission(key)
            }
        },
        None => RequestRoute::NewRequest,
    }
}

/// Where an ACK goes in the manager's own handling (RFC 3261 Section 17.1.1.3).
#[derive(Debug)]
pub enum AckRoute {
    /// An ACK for a non-2xx final response: the INVITE server transaction
    /// at this key (same branch) processes it.
    ToTransaction(TransactionKey),
    /// That transaction is no longer active: drop the ACK.
    SkipInactive(TransactionKey),
    /// An ACK for a 2xx, matched by dialog identifiers to the INVITE server
    /// transaction at this key: report AckReceived, the transaction does not process it.
    AckReceived(TransactionKey),
    /// No INVITE server transaction matches: report a stray ACK.
    Stray,
}

/// Routes an ACK: first by branch to an INVITE server transaction that is
/// not yet Confirmed, then by dialog identifiers.
pub fn route_ack_request(server: &TransactionTable, ack: &RequestInfo) -> (r: AckRoute)
    requires
        server.wf(),
    ensures
        ({
            let direct = match key_of_request(ack.method@, ack.via_branches@) {
                Some(k) => {
                    let ik = KeyView { method: MethodView::Invite, ..k };
                    exists|i: int|
                        0 <= i < server.records@.len() && key_at(server.records@, i) == ik
                            && server.records@[i].core.state != TransactionState::Confirmed
                },
                None => false,
            };
            &&& direct ==> (r is ToTransaction || r is SkipInactive)
            &&& r matches AckRoute::ToTransaction(t) ==> direct && exists|i: int|
                0 <= i < server.records@.len() && key_at(server.records@, i) == t@
                    && server.records@[i].core.lifecycle == TransactionLifecycle::Active
                    && server.records@[i].core.state != TransactionState::Confirmed
            &&& r matches AckRoute::SkipInactive(t) ==> direct && exists|i: int|
                0 <= i < server.records@.len() && key_at(server.records@, i) == t@
                    && server.records@[i].core.lifecycle != TransactionLifecycle::Active
            &&& r matches AckRoute::AckReceived(t) ==> !direct && exists|i: int|
                0 <= i < server.records@.len() && key_at(server.records@, i) == t@
                    && spec_record_matches_ack(server.records@[i], *ack)
            &&& r is Stray <==> !direct && forall|i: int|
                0 <= i < server.records@.len() ==> !spec_record_matches_ack(
                    #[trigger] server.records@[i],
                    *ack,
                )
        }),
{
    match TransactionKey::from_request(ack) {
        Some(key) => {
            let invite_key = key.with_method(Method::Invite);
            match server.find(&invite_key) {
                Some(i) => {
                    proof {
                        lemma_unique_index(server.records@, i as int, invite_key@);
                    }
                    if server.records[i].core.state != TransactionState::Confirmed {
                        if server.records[i].core.lifecycle != TransactionLifecycle::Active {
                            return AckRoute::SkipInactive(invite_key);
                        }
                        return AckRoute::ToTransaction(invite_key);
                    }
                },
                None => {},
            }
        },
        None => {},
    }
    match find_ack_dialog_match(server, ack) {
        Some(i) => {
            let t = server.records[i].key.duplicate();
            assert(key_at(server.records@, i as int) == t@);
            AckRoute::AckReceived(t)
        },
        None => AckRoute::Stray,
    }
}

/// Where a non-ACK request goes in the manager's own handling.
#[derive(Debug)]
pub enum ServerRequestRoute {
    /// The matching transaction is no longer active: drop the request.
    SkipInactive(TransactionKey),
    /// The matching transaction at this key processes the request.
    ToTransaction(TransactionKey),
    /// No transaction matches: create one.
    CreateTransaction,
}

/// Routes a request to its server transaction, or to a new one.
pub fn route_server_request(server: &TransactionTable, request: &RequestInfo) -> (r: ServerRequestRoute)
    requires
        server.wf(),
    ensures
        ({
            let k = key_of_request(request.method@, request.via_branches@);
            &&& r is CreateTransaction <==> (k is None || !server.contains(k.unwrap()))
            &&& r matches ServerRequestRoute::ToTransaction(t) ==> k == Some(t@) && exists|i: int|
                0 <= i < server.records@.len() && key_at(server.records@, i) == t@
                    && server.records@[i].core.lifecycle == TransactionLifecycle::Active
            &&& r matches ServerRequestRoute::SkipInactive(t) ==> k == Some(t@) && exists|i: int|
                0 <= i < server.records@.len() && key_at(server.records@, i) == t@
                    && server.records@[i].core.lifecycle != TransactionLifecycle::Active
        }),
{
    match TransactionKey::from_request(request) {
        Some(key) => match server.find(&key) {
            Some(i) => {
                if server.records[i].core.lifecycle != TransactionLifecycle::Active {
                    ServerRequestRoute::SkipInactive(key)
                } else {
                    ServerRequestRoute::ToTransaction(key)
                }
            },
            None => ServerRequestRoute::CreateTransaction,
        },
        None => ServerRequestRoute::CreateTransaction,
    }
}

/// The event that announces a new server transaction: an INVITE request for
/// an INVITE server transaction, a non-INVITE request for any other method
/// but CANCEL (whose event names the INVITE it targets and is sent when the
/// transaction is created).
#[derive(Debug, Clone, Copy, PartialEq, Eq, Structural)]
pub enum NewRequestEvent {
    InviteRequest,
    NonInviteRequest,
}

/// The event for a newly created server transaction of `kind` for `method`.
pub fn new_request_event(kind: TransactionKind, method: &Method) -> (r: Option<NewRequestEvent>)
    ensures
        kind == TransactionKind::InviteServer ==> r == Some(NewRequestEvent::InviteRequest),
        kind == TransactionKind::NonInviteServer ==> r == (if method@ == MethodView::Cancel {
            None
        } else {
            Some(NewRequestEvent::NonInviteRequest)
        }),
        kind == TransactionKind::InviteClient || kind == TransactionKind::NonInviteClient ==> r is None,
{
    match kind {
        TransactionKind::InviteServer => Some(NewRequestEvent::InviteRequest),
        TransactionKind::NonInviteServer => {
            if method.is_cancel() {
                None
            } else {
                Some(NewRequestEvent::NonInviteRequest)
            }
        },
        _ => None,
    }
}

/// Where a response goes.
#[derive(Debug)]
pub enum ResponseRoute {
    /// No transaction key can be derived from the response.
    NoKey,
    /// The derived key is a server key: an error.
    ServerKey(TransactionKey),
    /// The matching client transaction is no longer active: drop the response.
    SkipInactive(TransactionKey),
    /// The client transaction at this key processes the response; when
    /// `auto_ack`, an ACK is sent for it afterwards (a non-2xx response to an
    /// INVITE client transaction).
    ToTransaction { key: TransactionKey, auto_ack: bool },
    /// No client transaction matches.
    Unmatched(TransactionKey),
}

/// Routes a response to its client transaction.
pub fn route_response(client: &TransactionTable, response: &ResponseInfo) -> (r: ResponseRoute)
    requires
        client.wf(),
    ensures
        ({
            let k = key_of_response(response.via_branches@, opt_cseq(response.cseq));
            &&& k is None <==> r is NoKey
            &&& k matches Some(kk) ==> {
                &&& kk.is_server <==> r is ServerKey
                &&& !kk.is_server ==> (client.contains(kk) <==> (r is SkipInactive
                    || r is ToTransaction))
                &&& r matches ResponseRoute::Unmatched(t) ==> t@ == kk && !client.contains(kk)
                &&& r matches ResponseRoute::SkipInactive(t) ==> t@ == kk && exists|i: int|
                    0 <= i < client.records@.len() && key_at(client.records@, i) == kk
                        && client.records@[i].core.lifecycle != TransactionLifecycle::Active
                &&& r matches ResponseRoute::ToTransaction { key, auto_ack } ==> key@ == kk
                    && exists|i: int|
                    0 <= i < client.records@.len() && key_at(client.records@, i) == kk
                        && client.records@[i].core.lifecycle == TransactionLifecycle::Active
                        && auto_ack == (!is_success(response.status) && client.records@[i].kind
                        == TransactionKind::InviteClient)
            }
        }),
{
    let key = match TransactionKey::from_response(response) {
        Some(k) => k,
        None => return ResponseRoute::NoKey,
    };
    if key.is_server {
        return ResponseRoute::ServerKey(key);
    }
    match client.find(&key) {
        Some(i) => {
            if client.records[i].core.lifecycle != TransactionLifecycle::Active {
                ResponseRoute::SkipInactive(key)
            } else {
                let auto_ack = !status_is_success(response.status) && client.records[i].kind
                    == TransactionKind::InviteClient;
                ResponseRoute::ToTransaction { key, auto_ack }
            }
        },
        None => ResponseRoute::Unmatched(key),
    }
}

/// The event that reports a response whose key matched no active client
/// transaction: a 2xx to an INVITE asks for an ACK; other responses are
/// reported by their class.
pub open spec fn spec_unmatched_response_event(method_is_invite: bool, status: u16) -> TuEvent {
    if method_is_invite && is_success(status) {
        TuEvent::SuccessResponse { need_ack: true }
    } else if is_provisional(status) {
        TuEvent::ProvisionalResponse
    } else if is_success(status) && !method_is_invite {
        TuEvent::SuccessResponse { need_ack: false }
    } else {
        TuEvent::FailureResponse
    }
}

/// The event for a response whose key matched no active client transaction.
pub fn unmatched_response_event(key: &TransactionKey, status: u16) -> (e: TuEvent)
    ensures
        e == spec_unmatched_response_event(key.method@ == MethodView::Invite, status),
{
    let invite = key.method.is_invite();
    if invite && status_is_success(status) {
        TuEvent::SuccessResponse { need_ack: true }
    } else if status_is_provisional(status) {
        TuEvent::ProvisionalResponse
    } else if status_is_success(status) && !invite {
        TuEvent::SuccessResponse { need_ack: false }
    } else {
        TuEvent::FailureResponse
    }
}

/// The event for a response that matched no active client transaction: a
/// 2xx is a success, and it asks for an ACK exactly when the transaction's
/// method is INVITE (a retransmitted 2xx to an INVITE must be acknowledged
/// again); a 1xx is provisional; any other status is a failure.
pub proof fn lemma_unmatched_response_event_follows_rfc(method_is_invite: bool, status: u16)
    ensures
        ({
            let e = spec_unmatched_response_event(method_is_invite, status);
            &&& 200 <= status < 300 ==> e == TuEvent::SuccessResponse { need_ack: method_is_invite }
            &&& 100 <= status < 200 ==> e == TuEvent::ProvisionalResponse
            &&& !(100 <= status < 300) ==> e == TuEvent::FailureResponse
        }),
{
}

/// An ACK for a 2xx belongs to an INVITE server transaction of the same
/// dialog: both carry the same Call-ID and the same From tag, and the To tags
/// agree whenever both sides have one.
pub proof fn lemma_ack_dialog_match_follows_rfc(
    tx_call_id: Option<Seq<char>>,
    tx_from_tag: Option<Seq<char>>,
    tx_to_tag: Option<Seq<char>>,
    ack_call_id: Option<Seq<char>>,
    ack_from_tag: Option<Seq<char>>,
    ack_to_tag: Option<Seq<char>>,
)
    ensures
        spec_ack_matches_dialog(tx_call_id, tx_from_tag, tx_to_tag, ack_call_id, ack_from_tag, ack_to_tag) <==> {
            &&& tx_call_id is Some && tx_call_id == ack_call_id
            &&& tx_from_tag is Some && tx_from_tag == ack_from_tag
            &&& (tx_to_tag is Some && ack_to_tag is Some ==> tx_to_tag == ack_to_tag)
        },
{
}

/// Only an INVITE server transaction of the same dialog takes an ACK by
/// dialog identifiers.
pub proof fn lemma_record_ack_match_needs_invite_server(r: TransactionRecord, ack: RequestInfo)
    ensures
        spec_record_matches_ack(r, ack) ==> r.key.method@ == MethodView::Invite && r.key.is_server
            && r.dialog.call_id is Some && opt_view(r.dialog.call_id) == opt_view(ack.call_id)
            && r.dialog.from_tag is Some && opt_view(r.dialog.from_tag) == party_tag(ack.from),
{
}

} // verus!
