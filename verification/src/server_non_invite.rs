use vstd::prelude::*;
use crate::state::{TransactionKind, TransactionState, spec_valid_transition};
use crate::event::{Action, TimerKind, TuEvent};
use crate::timer::TimerSettings;
use crate::method::{Method, MethodView, str_eq};
use crate::key::{TransactionKey, KeyView, key_of_request, key_of_response};
use crate::message::{Message, is_provisional, opt_cseq, status_is_provisional};
use crate::client_invite::named;
use crate::error::Error;

verus! {

/// The timer that a non-INVITE server transaction holds: whether Timer J runs.
#[derive(Debug, Clone, Copy, PartialEq, Eq, Structural)]
pub struct ServerNonInviteTimers {
    pub timer_j: bool,
}

/// The non-INVITE server transaction state machine (RFC 3261 Section 17.2.2).
pub struct ServerNonInviteLogic {
    pub timer_config: TimerSettings,
}

/// The state a non-INVITE server transaction moves to once a response was
/// sent: from Trying a 1xx leads to Proceeding and a final response to
/// Completed; from Proceeding a final response leads to Completed.
pub open spec fn spec_server_response_transition(
    state: TransactionState,
    status: u16,
) -> Option<TransactionState> {
    if state == TransactionState::Trying {
        if is_provisional(status) {
            Some(TransactionState::Proceeding)
        } else {
            Some(TransactionState::Completed)
        }
    } else if state == TransactionState::Proceeding && !is_provisional(status) {
        Some(TransactionState::Completed)
    } else {
        None
    }
}

/// A message belongs to a server transaction when the key derived from it
/// is the transaction's key.
pub open spec fn spec_server_matches(m: Message, key: KeyView) -> bool {
    match m {
        Message::Request(r) => key_of_request(r.method@, r.via_branches@) == Some(key),
        Message::Response(r) => key_of_response(r.via_branches@, opt_cseq(r.cseq)) == Some(key),
    }
}

impl ServerNonInviteLogic {
    /// The kind of transaction this logic drives.
    pub fn kind(&self) -> (k: TransactionKind)
        ensures
            k == TransactionKind::NonInviteServer,
    {
        TransactionKind::NonInviteServer
    }

    /// The state the transaction is created in.
    pub fn initial_state(&self) -> (s: TransactionState)
        ensures
            s == TransactionState::Trying,
    {
        TransactionState::Trying
    }

    /// The timer settings of the transaction.
    pub fn timer_settings(&self) -> (s: &TimerSettings)
        ensures
            *s == self.timer_config,
    {
        &self.timer_config
    }

    /// A non-INVITE server transaction cannot be made for an INVITE or an ACK.
    pub fn check_request_method(method: &Method) -> (r: Result<(), Error>)
        ensures
            r is Ok <==> !(method@ == MethodView::Invite || method@ == MethodView::Ack),
            r matches Err(e) ==> e == Error::WrongMethod,
    {
        if method.is_invite() || method.is_ack() {
            Err(Error::WrongMethod)
        } else {
            Ok(())
        }
    }

    /// Starts Timer J, which ends the transaction when it fires.
    pub fn start_timer_j(&self, timers: &mut ServerNonInviteTimers, actions: &mut Vec<Action>)
        ensures
            final(timers).timer_j,
            final(actions)@ == old(actions)@.push(
                Action::StartTimerWithTransition {
                    timer: TimerKind::J,
                    interval_ms: self.timer_config.wait_time_j,
                    target: TransactionState::Terminated,
                },
            ),
    {
        actions.push(
            Action::StartTimerWithTransition {
                timer: TimerKind::J,
                interval_ms: self.timer_config.wait_time_j,
                target: TransactionState::Terminated,
            },
        );
        timers.timer_j = true;
    }

    /// Timer J fired: the transition to Terminated comes with the timer itself.
    pub fn handle_timer_j_trigger(&self, current_state: TransactionState) -> (r: Option<
        TransactionState,
    >)
        ensures
            r is None,
    {
        None
    }

    /// A retransmitted request: in Completed the last response is sent
    /// again, when there is one; the state never changes.
    pub fn process_request_retransmission(
        &self,
        current_state: TransactionState,
        has_last_response: bool,
        actions: &mut Vec<Action>,
    ) -> (r: Option<TransactionState>)
        ensures
            r is None,
            final(actions)@ == old(actions)@ + (if current_state == TransactionState::Completed
                && has_last_response {
                seq![Action::ResendLastResponse]
            } else {
                Seq::empty()
            }),
    {
        match current_state {
            TransactionState::Trying | TransactionState::Proceeding | TransactionState::Completed => {
                if current_state == TransactionState::Completed && has_last_response {
                    actions.push(Action::ResendLastResponse);
                }
                None
            },
            _ => None,
        }
    }

    /// Actions on entering a state: Completed starts Timer J and Terminated
    /// leaves the timer manager.
    pub fn on_enter_state(
        &self,
        new_state: TransactionState,
        timers: &mut ServerNonInviteTimers,
        actions: &mut Vec<Action>,
    ) -> (r: Result<(), Error>)
        ensures
            r is Ok,
            new_state == TransactionState::Completed ==> final(timers).timer_j && final(actions)@
                == old(actions)@.push(
                Action::StartTimerWithTransition {
                    timer: TimerKind::J,
                    interval_ms: self.timer_config.wait_time_j,
                    target: TransactionState::Terminated,
                },
            ),
            new_state == TransactionState::Terminated ==> *final(timers) == *old(timers)
                && final(actions)@ == old(actions)@.push(Action::UnregisterTimers),
            new_state != TransactionState::Completed && new_state != TransactionState::Terminated
                ==> *final(timers) == *old(timers) && final(actions)@ == old(actions)@,
    {
        match new_state {
            TransactionState::Completed => {
                self.start_timer_j(timers, actions);
                Ok(())
            },
            TransactionState::Terminated => {
                actions.push(Action::UnregisterTimers);
                Ok(())
            },
            _ => Ok(()),
        }
    }

    /// A timer fired: Timer J's handle is cleared and the firing reported;
    /// no timer changes the state here.
    pub fn handle_timer(
        &self,
        timer_name: &str,
        current_state: TransactionState,
        timers: &mut ServerNonInviteTimers,
        actions: &mut Vec<Action>,
    ) -> (r: Option<TransactionState>)
        ensures
            r is None,
            final(actions)@ == old(actions)@.push(Action::Emit(TuEvent::TimerTriggered)),
            named(timer_name@, "J"@) ==> !final(timers).timer_j,
            !named(timer_name@, "J"@) ==> *final(timers) == *old(timers),
    {
        if str_eq(timer_name, "J") {
            timers.timer_j = false;
            actions.push(Action::Emit(TuEvent::TimerTriggered));
            self.handle_timer_j_trigger(current_state)
        } else {
            actions.push(Action::Emit(TuEvent::TimerTriggered));
            None
        }
    }

    /// Processes a message routed to the transaction: a request is a
    /// retransmission; a response is ignored.
    pub fn process_message(
        &self,
        message: &Message,
        current_state: TransactionState,
        has_last_response: bool,
        actions: &mut Vec<Action>,
    ) -> (r: Option<TransactionState>)
        ensures
            r is None,
            message is Response ==> final(actions)@ == old(actions)@,
            message is Request ==> final(actions)@ == old(actions)@ + (if current_state
                == TransactionState::Completed && has_last_response {
                seq![Action::ResendLastResponse]
            } else {
                Seq::empty()
            }),
    {
        match message {
            Message::Request(_) => self.process_request_retransmission(
                current_state,
                has_last_response,
                actions,
            ),
            Message::Response(_) => None,
        }
    }

    /// Stops Timer J.
    pub fn cancel_all_specific_timers(
        &self,
        timers: &mut ServerNonInviteTimers,
        actions: &mut Vec<Action>,
    )
        ensures
            !final(timers).timer_j,
            final(actions)@ == old(actions)@ + (if old(timers).timer_j {
                seq![Action::AbortTimer(TimerKind::J)]
            } else {
                Seq::empty()
            }),
    {
        if timers.timer_j {
            actions.push(Action::AbortTimer(TimerKind::J));
        }
        timers.timer_j = false;
    }

    /// Sending a response: when the transport refused it the error is
    /// returned; otherwise the state to move to, by the response's status.
    pub fn send_response_outcome(
        current_state: TransactionState,
        status: u16,
        sent: bool,
    ) -> (r: Result<Option<TransactionState>, Error>)
        ensures
            !sent ==> r == Err::<Option<TransactionState>, Error>(Error::Transport),
            sent ==> r == Ok::<Option<TransactionState>, Error>(
                spec_server_response_transition(current_state, status),
            ),
            r matches Ok(Some(s)) ==> spec_valid_transition(
                TransactionKind::NonInviteServer,
                current_state,
                s,
            ),
    {
        if !sent {
            return Err(Error::Transport);
        }
        let provisional = status_is_provisional(status);
        if current_state == TransactionState::Trying {
            if provisional {
                Ok(Some(TransactionState::Proceeding))
            } else {
                Ok(Some(TransactionState::Completed))
            }
        } else if current_state == TransactionState::Proceeding && !provisional {
            Ok(Some(TransactionState::Completed))
        } else {
            Ok(None)
        }
    }

    /// Whether a message belongs to the transaction `key`.
    pub fn matches(key: &TransactionKey, message: &Message) -> (r: bool)
        ensures
            r == spec_server_matches(*message, key@),
    {
        let derived = match message {
            Message::Request(r) => TransactionKey::from_request(r),
            Message::Response(r) => TransactionKey::from_response(r),
        };
        match derived {
            Some(k) => k.same_as(key),
            None => false,
        }
    }
}

/// How a non-INVITE server transaction moves once it sent a response (RFC
/// 3261 Section 17.2.2): from Trying a 1xx leads to Proceeding and a final
/// response (200 to 699, or any status outside 1xx) to Completed; from
/// Proceeding a final response leads to Completed and a 1xx keeps it there;
/// in any other state sending changes nothing.
pub proof fn lemma_server_non_invite_response_follows_rfc(state: TransactionState, status: u16)
    ensures
        ({
            let next = spec_server_response_transition(state, status);
            &&& state == TransactionState::Trying && 100 <= status < 200 ==> next == Some(
                TransactionState::Proceeding,
            )
            &&& state == TransactionState::Trying && !(100 <= status < 200) ==> next == Some(
                TransactionState::Completed,
            )
            &&& state == TransactionState::Proceeding && !(100 <= status < 200) ==> next == Some(
                TransactionState::Completed,
            )
            &&& state == TransactionState::Proceeding && 100 <= status < 200 ==> next is None
            &&& state != TransactionState::Trying && state != TransactionState::Proceeding ==> next is None
        }),
{
}

/// A request belongs to the server transaction whose key carries its top
/// Via branch and its own method, on the server side; a response belongs to
/// the client transaction whose key carries its top Via branch and its CSeq
/// method. A message without a top Via branch belongs to none.
pub proof fn lemma_server_matching_follows_rfc(m: Message, key: KeyView)
    ensures
        m matches Message::Request(r) ==> (spec_server_matches(m, key) <==> (r.via_branches@.len() > 0
            && r.via_branches@[0] is Some && r.via_branches@[0].unwrap()@ == key.branch && key.branch.len() > 0
            && key.method == r.method@ && key.is_server)),
        m matches Message::Response(r) ==> (spec_server_matches(m, key) <==> (r.via_branches@.len() > 0
            && r.via_branches@[0] is Some && r.via_branches@[0].unwrap()@ == key.branch && key.branch.len() > 0
            && r.cseq is Some && key.method == r.cseq.unwrap().method@ && !key.is_server)),
{
}

} // verus!
