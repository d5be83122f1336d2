use vstd::prelude::*;
use crate::state::{TransactionKind, TransactionState, spec_valid_transition};
use crate::event::TuEvent;
use crate::message::{is_provisional, is_success, status_is_provisional, status_is_success};
use crate::key::TransactionKey;
use crate::method::MethodView;

verus! {

/// The event that reports a response: 1xx provisional, 2xx success (asking
/// for an ACK when `need_ack`), any other status a failure.
pub open spec fn response_event(status: u16, need_ack: bool) -> TuEvent {
    if is_provisional(status) {
        TuEvent::ProvisionalResponse
    } else if is_success(status) {
        TuEvent::SuccessResponse { need_ack }
    } else {
        TuEvent::FailureResponse
    }
}

/// What a client transaction does with a response, by status and state:
/// the event to report, if any, and the state to move to, if any. In Trying,
/// Calling or Proceeding a response is reported; a 1xx moves to Proceeding
/// (from Proceeding it stays), a 2xx ends an INVITE transaction and completes
/// any other, a 3xx to 6xx completes. In any other state the response is a
/// retransmission and is ignored.
pub open spec fn spec_response_by_status(
    state: TransactionState,
    status: u16,
    is_invite: bool,
    need_ack: bool,
) -> (Option<TuEvent>, Option<TransactionState>) {
    match state {
        TransactionState::Trying | TransactionState::Calling | TransactionState::Proceeding => {
            let ev = Some(response_event(status, need_ack));
            if is_provisional(status) {
                if state == TransactionState::Proceeding {
                    (ev, None)
                } else {
                    (ev, Some(TransactionState::Proceeding))
                }
            } else if is_success(status) {
                if is_invite {
                    (ev, Some(TransactionState::Terminated))
                } else {
                    (ev, Some(TransactionState::Completed))
                }
            } else {
                (ev, Some(TransactionState::Completed))
            }
        },
        _ => (None, None),
    }
}

/// Handles a response by its status code and the current state of a client
/// transaction. Returns the event to report to the Transaction User (which
/// carries the response) and the state to move to, if any. `need_ack` is
/// whether the transaction's method is INVITE.
pub fn handle_response_by_status(
    status: u16,
    current_state: TransactionState,
    is_invite: bool,
    need_ack: bool,
) -> (r: (Option<TuEvent>, Option<TransactionState>))
    ensures
        r == spec_response_by_status(current_state, status, is_invite, need_ack),
{
    let provisional = status_is_provisional(status);
    let success = status_is_success(status);
    match current_state {
        TransactionState::Trying | TransactionState::Calling | TransactionState::Proceeding => {
            let ev = if provisional {
                TuEvent::ProvisionalResponse
            } else if success {
                TuEvent::SuccessResponse { need_ack }
            } else {
                TuEvent::FailureResponse
            };
            if provisional {
                if current_state == TransactionState::Proceeding {
                    (Some(ev), None)
                } else {
                    (Some(ev), Some(TransactionState::Proceeding))
                }
            } else if success {
                if is_invite {
                    (Some(ev), Some(TransactionState::Terminated))
                } else {
                    (Some(ev), Some(TransactionState::Completed))
                }
            } else {
                (Some(ev), Some(TransactionState::Completed))
            }
        },
        _ => (None, None),
    }
}

/// The response handler was given a server transaction.
#[derive(Debug, Clone, Copy, PartialEq, Eq, Structural)]
pub struct UnexpectedKind {
    pub kind: TransactionKind,
}

/// What a client transaction of `kind` does with a response: the event to
/// report and the resulting state (the current one when nothing changes).
pub open spec fn spec_response_for_client(
    state: TransactionState,
    kind: TransactionKind,
    status: u16,
    need_ack: bool,
) -> (Option<TuEvent>, Result<TransactionState, UnexpectedKind>) {
    match kind {
        TransactionKind::InviteClient => match state {
            TransactionState::Calling | TransactionState::Proceeding => {
                let ev = Some(response_event(status, need_ack));
                if is_provisional(status) {
                    (ev, Ok(TransactionState::Proceeding))
                } else if is_success(status) {
                    (ev, Ok(TransactionState::Terminated))
                } else {
                    (ev, Ok(TransactionState::Completed))
                }
            },
            _ => (None, Ok(state)),
        },
        TransactionKind::NonInviteClient => match state {
            TransactionState::Trying | TransactionState::Proceeding => {
                let ev = Some(response_event(status, need_ack));
                if is_provisional(status) {
                    (ev, Ok(TransactionState::Proceeding))
                } else {
                    (ev, Ok(TransactionState::Completed))
                }
            },
            _ => (None, Ok(state)),
        },
        _ => (None, Err(UnexpectedKind { kind })),
    }
}

/// Handles a response for the client transaction `tx_id` of `kind` in
/// `state`; refuses a server kind. A success asks for an ACK when the
/// transaction's method is INVITE.
pub fn handle_response_for_client_transaction(
    tx_id: &TransactionKey,
    state: TransactionState,
    kind: TransactionKind,
    status: u16,
) -> (r: (Option<TuEvent>, Result<TransactionState, UnexpectedKind>))
    ensures
        r == spec_response_for_client(state, kind, status, tx_id.method@ == MethodView::Invite),
{
    let need_ack = tx_id.method.is_invite();
    let provisional = status_is_provisional(status);
    let success = status_is_success(status);
    let ev = if provisional {
        TuEvent::ProvisionalResponse
    } else if success {
        TuEvent::SuccessResponse { need_ack }
    } else {
        TuEvent::FailureResponse
    };
    match kind {
        TransactionKind::InviteClient => match state {
            TransactionState::Calling | TransactionState::Proceeding => {
                if provisional {
                    (Some(ev), Ok(TransactionState::Proceeding))
                } else if success {
                    (Some(ev), Ok(TransactionState::Terminated))
                } else {
                    (Some(ev), Ok(TransactionState::Completed))
                }
            },
            _ => (None, Ok(state)),
        },
        TransactionKind::NonInviteClient => match state {
            TransactionState::Trying | TransactionState::Proceeding => {
                if provisional {
                    (Some(ev), Ok(TransactionState::Proceeding))
                } else {
                    (Some(ev), Ok(TransactionState::Completed))
                }
            },
            _ => (None, Ok(state)),
        },
        _ => (None, Err(UnexpectedKind { kind })),
    }
}

/// The two response handlers agree for the client kinds: in every active
/// state they report the same event and lead to the same state (the handler
/// by status answers "stay" where the other names the current state).
pub proof fn lemma_response_handlers_agree(
    state: TransactionState,
    kind: TransactionKind,
    status: u16,
    need_ack: bool,
)
    requires
        kind == TransactionKind::InviteClient && (state == TransactionState::Calling || state
            == TransactionState::Proceeding) || kind == TransactionKind::NonInviteClient && (state
            == TransactionState::Trying || state == TransactionState::Proceeding),
    ensures
        ({
            let by_status = spec_response_by_status(
                state,
                status,
                kind == TransactionKind::InviteClient,
                need_ack,
            );
            let by_kind = spec_response_for_client(state, kind, status, need_ack);
            &&& by_status.0 == by_kind.0
            &&& by_kind.1 == Ok::<TransactionState, UnexpectedKind>(
                match by_status.1 {
                    Some(s) => s,
                    None => state,
                },
            )
        }),
{
}

/// Every state change that a response causes is one the state machine allows.
pub proof fn lemma_response_transitions_valid(
    state: TransactionState,
    kind: TransactionKind,
    status: u16,
    need_ack: bool,
)
    requires
        kind == TransactionKind::InviteClient || kind == TransactionKind::NonInviteClient,
        kind == TransactionKind::InviteClient ==> state != TransactionState::Trying,
        kind == TransactionKind::NonInviteClient ==> state != TransactionState::Calling,
    ensures
        spec_response_by_status(state, status, kind == TransactionKind::InviteClient, need_ack).1
            matches Some(s) ==> spec_valid_transition(kind, state, s),
        spec_response_for_client(state, kind, status, need_ack).1 matches Ok(s) ==> s == state
            || spec_valid_transition(kind, state, s),
{
}

/// How a client transaction that is still waiting for its final response
/// answers a response (RFC 3261 Sections 17.1.1.2 and 17.1.2.2): every
/// response is reported; a 1xx moves Calling or Trying to Proceeding and
/// leaves Proceeding where it is; a 2xx ends an INVITE transaction and
/// completes a non-INVITE one; any other status completes the transaction.
/// In the other states a response is a retransmission: nothing is reported
/// and the state stays.
pub proof fn lemma_client_response_follows_rfc(
    state: TransactionState,
    status: u16,
    is_invite: bool,
    need_ack: bool,
)
    ensures
        ({
            let (ev, next) = spec_response_by_status(state, status, is_invite, need_ack);
            let waiting = state == TransactionState::Trying || state == TransactionState::Calling
                || state == TransactionState::Proceeding;
            &&& !waiting ==> ev is None && next is None
            &&& waiting && 100 <= status < 200 ==> ev == Some(TuEvent::ProvisionalResponse)
            &&& waiting && 100 <= status < 200 && state != TransactionState::Proceeding ==> next == Some(
                TransactionState::Proceeding,
            )
            &&& waiting && 100 <= status < 200 && state == TransactionState::Proceeding ==> next is None
            &&& waiting && 200 <= status < 300 ==> ev == Some(TuEvent::SuccessResponse { need_ack })
            &&& waiting && 200 <= status < 300 && is_invite ==> next == Some(TransactionState::Terminated)
            &&& waiting && 200 <= status < 300 && !is_invite ==> next == Some(TransactionState::Completed)
            &&& waiting && !(100 <= status < 300) ==> ev == Some(TuEvent::FailureResponse) && next == Some(
                TransactionState::Completed,
            )
        }),
{
}

/// The same rules for the handler by transaction kind: an INVITE client
/// transaction in Calling or Proceeding and a non-INVITE one in Trying or
/// Proceeding report the response and move to Proceeding on a 1xx, to
/// Terminated (INVITE) or Completed (non-INVITE) on a 2xx, and to Completed
/// on any other status; in their other states nothing is reported and the
/// state stays; a server kind is refused.
pub proof fn lemma_client_kind_response_follows_rfc(
    state: TransactionState,
    kind: TransactionKind,
    status: u16,
    need_ack: bool,
)
    ensures
        ({
            let (ev, next) = spec_response_for_client(state, kind, status, need_ack);
            let waiting = (kind == TransactionKind::InviteClient && (state == TransactionState::Calling
                || state == TransactionState::Proceeding)) || (kind == TransactionKind::NonInviteClient && (
            state == TransactionState::Trying || state == TransactionState::Proceeding));
            let client = kind == TransactionKind::InviteClient || kind == TransactionKind::NonInviteClient;
            &&& !client ==> ev is None && next == Err::<TransactionState, UnexpectedKind>(UnexpectedKind { kind })
            &&& client && !waiting ==> ev is None && next == Ok::<TransactionState, UnexpectedKind>(state)
            &&& waiting && 100 <= status < 200 ==> ev == Some(TuEvent::ProvisionalResponse) && next == Ok::<
                TransactionState,
                UnexpectedKind,
            >(TransactionState::Proceeding)
            &&& waiting && 200 <= status < 300 ==> ev == Some(TuEvent::SuccessResponse { need_ack })
            &&& waiting && 200 <= status < 300 && kind == TransactionKind::InviteClient ==> next == Ok::<
                TransactionState,
                UnexpectedKind,
            >(TransactionState::Terminated)
            &&& waiting && 200 <= status < 300 && kind == TransactionKind::NonInviteClient ==> next == Ok::<
                TransactionState,
                UnexpectedKind,
            >(TransactionState::Completed)
            &&& waiting && !(100 <= status < 300) ==> ev == Some(TuEvent::FailureResponse) && next == Ok::<
                TransactionState,
                UnexpectedKind,
            >(TransactionState::Completed)
        }),
{
}

} // verus!
