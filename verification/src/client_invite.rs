use vstd::prelude::*;
use crate::state::{TransactionKind, TransactionState, spec_valid_transition};
use crate::event::{Action, TimerKind, TuEvent};
use crate::timer::{TimerSettings, calculate_backoff_interval, spec_backoff};
use crate::method::{Method, MethodView, str_eq};
use crate::key::TransactionKey;
use crate::message::{ResponseInfo, Message, is_provisional, is_success, opt_cseq,
    status_is_provisional, status_is_success};
use crate::validators::{spec_response_matches, response_matches_transaction};
use crate::error::Error;

verus! {

/// The timers that an INVITE client transaction holds: whether Timers A, B
/// and D are running, and the current interval of Timer A.
#[derive(Debug, Clone, Copy, PartialEq, Eq, Structural)]
pub struct ClientInviteTimers {
    pub timer_a: bool,
    pub current_timer_a_interval: Option<u64>,
    pub timer_b: bool,
    pub timer_d: bool,
}

impl ClientInviteTimers {
    /// No timer running.
    pub fn new() -> (t: Self)
        ensures
            !t.timer_a && !t.timer_b && !t.timer_d && t.current_timer_a_interval is None,
    {
        ClientInviteTimers {
            timer_a: false,
            current_timer_a_interval: None,
            timer_b: false,
            timer_d: false,
        }
    }

    /// The interval of Timer A is T1 or at most T2.
    pub open spec fn interval_ok(self, settings: TimerSettings) -> bool {
        self.current_timer_a_interval matches Some(x) ==> x == settings.t1 || x <= settings.t2
    }
}

/// The INVITE client transaction state machine (RFC 3261 Section 17.1.1).
/// Each function decides one step: the actions to perform, in order, and
/// the state to move to. Sends happen before the step, and the step is
/// told whether they succeeded.
pub struct ClientInviteLogic {
    pub timer_config: TimerSettings,
}

/// The name of a timer is a given text.
pub open spec fn named(name: Seq<char>, label: Seq<char>) -> bool {
    name == label
}

/// A response needs an ACK from the transaction when it belongs to it, is a
/// final non-2xx response, and the transaction is in Calling, Proceeding or
/// Completed (where a retransmitted response is acknowledged again).
pub open spec fn spec_invite_response_needs_ack(
    state: TransactionState,
    matches: bool,
    status: u16,
) -> bool {
    &&& matches
    &&& !is_provisional(status) && !is_success(status)
    &&& (state == TransactionState::Calling || state == TransactionState::Proceeding || state
        == TransactionState::Completed)
}

/// The outcome of a response for an INVITE client transaction: the events
/// to report and the next state. A response that does not belong to the
/// transaction, or arrives in another state, changes nothing. A 1xx is
/// reported and leads to Proceeding; a 2xx is reported (the TU sends its
/// ACK) and ends the transaction; a 3xx to 6xx is acknowledged, reported and
/// completes the transaction, but ends it if the ACK could not be sent.
pub open spec fn spec_invite_response_outcome(
    state: TransactionState,
    matches: bool,
    status: u16,
    need_ack: bool,
    ack_sent: bool,
) -> (Seq<TuEvent>, Option<TransactionState>) {
    if !matches {
        (Seq::empty(), None)
    } else if state == TransactionState::Calling || state == TransactionState::Proceeding {
        if is_provisional(status) {
            (
                seq![TuEvent::ProvisionalResponse],
                if state == TransactionState::Calling {
                    Some(TransactionState::Proceeding)
                } else {
                    None
                },
            )
        } else if is_success(status) {
            (seq![TuEvent::SuccessResponse { need_ack }], Some(TransactionState::Terminated))
        } else if !ack_sent {
            (Seq::empty(), Some(TransactionState::Terminated))
        } else {
            (seq![TuEvent::FailureResponse], Some(TransactionState::Completed))
        }
    } else {
        (Seq::empty(), None)
    }
}

/// The events of a list of actions.
pub open spec fn emitted(events: Seq<TuEvent>) -> Seq<Action> {
    events.map_values(|e: TuEvent| Action::Emit(e))
}

impl ClientInviteLogic {
    /// The kind of transaction this logic drives.
    pub fn kind(&self) -> (k: TransactionKind)
        ensures
            k == TransactionKind::InviteClient,
    {
        TransactionKind::InviteClient
    }

    /// The state the transaction is created in.
    pub fn initial_state(&self) -> (s: TransactionState)
        ensures
            s == TransactionState::Initial,
    {
        TransactionState::Initial
    }

    /// The timer settings of the transaction.
    pub fn timer_settings(&self) -> (s: &TimerSettings)
        ensures
            *s == self.timer_config,
    {
        &self.timer_config
    }

    /// Starts Timer A with its current interval, or T1 when none is set.
    pub fn start_timer_a(&self, timers: &mut ClientInviteTimers, actions: &mut Vec<Action>)
        ensures
            ({
                let interval = match old(timers).current_timer_a_interval {
                    Some(x) => x,
                    None => self.timer_config.t1,
                };
                &&& *final(timers) == (ClientInviteTimers {
                    timer_a: true,
                    current_timer_a_interval: Some(interval),
                    ..*old(timers)
                })
                &&& final(actions)@ == old(actions)@.push(
                    Action::StartTimer { timer: TimerKind::A, interval_ms: interval },
                )
            }),
    {
        let interval = match timers.current_timer_a_interval {
            Some(x) => x,
            None => self.timer_config.t1,
        };
        timers.current_timer_a_interval = Some(interval);
        actions.push(Action::StartTimer { timer: TimerKind::A, interval_ms: interval });
        timers.timer_a = true;
    }

    /// Starts Timer B, the transaction timeout.
    pub fn start_timer_b(&self, timers: &mut ClientInviteTimers, actions: &mut Vec<Action>)
        ensures
            *final(timers) == (ClientInviteTimers { timer_b: true, ..*old(timers) }),
            final(actions)@ == old(actions)@.push(
                Action::StartTimer {
                    timer: TimerKind::B,
                    interval_ms: self.timer_config.transaction_timeout,
                },
            ),
    {
        actions.push(
            Action::StartTimer {
                timer: TimerKind::B,
                interval_ms: self.timer_config.transaction_timeout,
            },
        );
        timers.timer_b = true;
    }

    /// Starts Timer D, which ends the transaction when it fires.
    pub fn start_timer_d(&self, timers: &mut ClientInviteTimers, actions: &mut Vec<Action>)
        ensures
            *final(timers) == (ClientInviteTimers { timer_d: true, ..*old(timers) }),
            final(actions)@ == old(actions)@.push(
                Action::StartTimerWithTransition {
                    timer: TimerKind::D,
                    interval_ms: self.timer_config.wait_time_d,
                    target: TransactionState::Terminated,
                },
            ),
    {
        actions.push(
            Action::StartTimerWithTransition {
                timer: TimerKind::D,
                interval_ms: self.timer_config.wait_time_d,
                target: TransactionState::Terminated,
            },
        );
        timers.timer_d = true;
    }

    /// On entering Calling, after the INVITE was handed to the transport:
    /// when the send failed, reports a transport error and asks for
    /// Terminated; otherwise sets Timer A to T1 and starts Timers A and B.
    pub fn handle_calling_state(
        &self,
        timers: &mut ClientInviteTimers,
        sent: bool,
        actions: &mut Vec<Action>,
    ) -> (r: Result<(), Error>)
        ensures
            !sent ==> r == Err::<(), Error>(Error::Transport) && *final(timers) == *old(timers)
                && final(actions)@ == old(actions)@ + seq![
                Action::Emit(TuEvent::TransportError),
                Action::CommandTransition(TransactionState::Terminated),
            ],
            sent ==> r is Ok && *final(timers) == (ClientInviteTimers {
                timer_a: true,
                current_timer_a_interval: Some(self.timer_config.t1),
                timer_b: true,
                ..*old(timers)
            }) && final(actions)@ == old(actions)@ + seq![
                Action::StartTimer { timer: TimerKind::A, interval_ms: self.timer_config.t1 },
                Action::StartTimer {
                    timer: TimerKind::B,
                    interval_ms: self.timer_config.transaction_timeout,
                },
            ],
    {
        if !sent {
            actions.push(Action::Emit(TuEvent::TransportError));
            actions.push(Action::CommandTransition(TransactionState::Terminated));
            return Err(Error::Transport);
        }
        timers.current_timer_a_interval = Some(self.timer_config.t1);
        self.start_timer_a(timers, actions);
        self.start_timer_b(timers, actions);
        Ok(())
    }

    /// Timer A fired. In Calling the INVITE was retransmitted before this
    /// call: when that failed, reports a transport error and ends the
    /// transaction; otherwise doubles the interval (capped at T2) and starts
    /// Timer A again. In any other state nothing happens.
    pub fn handle_timer_a_trigger(
        &self,
        current_state: TransactionState,
        timers: &mut ClientInviteTimers,
        resent: bool,
        actions: &mut Vec<Action>,
    ) -> (r: Option<TransactionState>)
        requires
            self.timer_config.wf(),
            old(timers).interval_ok(self.timer_config),
        ensures
            final(timers).interval_ok(self.timer_config),
            current_state != TransactionState::Calling ==> r is None && *final(timers) == *old(timers) && final(actions)@ == old(actions)@,
            current_state == TransactionState::Calling && !resent ==> r == Some(
                TransactionState::Terminated,
            ) && *final(timers) == *old(timers) && final(actions)@ == old(actions)@.push(
                Action::Emit(TuEvent::TransportError),
            ),
            current_state == TransactionState::Calling && resent ==> ({
                let cur = match old(timers).current_timer_a_interval {
                    Some(x) => x,
                    None => self.timer_config.t1,
                };
                let next = spec_backoff(cur, self.timer_config.t2) as u64;
                &&& r is None
                &&& *final(timers) == (ClientInviteTimers {
                    timer_a: true,
                    current_timer_a_interval: Some(next),
                    ..*old(timers)
                })
                &&& final(actions)@ == old(actions)@.push(
                    Action::StartTimer { timer: TimerKind::A, interval_ms: next },
                )
            }),
    {
        match current_state {
            TransactionState::Calling => {
                if !resent {
                    actions.push(Action::Emit(TuEvent::TransportError));
                    return Some(TransactionState::Terminated);
                }
                let current_interval = match timers.current_timer_a_interval {
                    Some(x) => x,
                    None => self.timer_config.t1,
                };
                let new_interval = calculate_backoff_interval(current_interval, &self.timer_config);
                timers.current_timer_a_interval = Some(new_interval);
                self.start_timer_a(timers, actions);
                None
            },
            _ => None,
        }
    }

    /// Timer B fired: in Calling, reports the timeout and ends the transaction.
    pub fn handle_timer_b_trigger(
        &self,
        current_state: TransactionState,
        actions: &mut Vec<Action>,
    ) -> (r: Option<TransactionState>)
        ensures
            current_state == TransactionState::Calling ==> r == Some(TransactionState::Terminated)
                && final(actions)@ == old(actions)@.push(Action::Emit(TuEvent::TransactionTimeout)),
            current_state != TransactionState::Calling ==> r is None && final(actions)@ == old(actions)@,
    {
        match current_state {
            TransactionState::Calling => {
                actions.push(Action::Emit(TuEvent::TransactionTimeout));
                Some(TransactionState::Terminated)
            },
            _ => None,
        }
    }

    /// Timer D fired: the transition to Terminated comes with the timer itself.
    pub fn handle_timer_d_trigger(&self, current_state: TransactionState) -> (r: Option<
        TransactionState,
    >)
        ensures
            r is None,
    {
        None
    }

    /// Whether the INVITE must be retransmitted before handling a timer that fired.
    pub fn timer_needs_resend(&self, timer_name: &str, current_state: TransactionState) -> (r: bool)
        ensures
            r == (named(timer_name@, "A"@) && current_state == TransactionState::Calling),
    {
        str_eq(timer_name, "A") && current_state == TransactionState::Calling
    }

    /// A timer fired: Timer A's handle is cleared, the firing is reported,
    /// and the timer's own handler decides. Unknown timers change nothing more.
    pub fn handle_timer(
        &self,
        timer_name: &str,
        current_state: TransactionState,
        timers: &mut ClientInviteTimers,
        resent: bool,
        actions: &mut Vec<Action>,
    ) -> (r: Option<TransactionState>)
        requires
            self.timer_config.wf(),
            old(timers).interval_ok(self.timer_config),
        ensures
            final(timers).interval_ok(self.timer_config),
            final(actions)@.len() >= old(actions)@.len() + 1,
            final(actions)@[old(actions)@.len() as int] == Action::Emit(TuEvent::TimerTriggered),
            named(timer_name@, "A"@) ==> !final(timers).timer_a || current_state
                == TransactionState::Calling && resent,
            named(timer_name@, "B"@) ==> r == (if current_state == TransactionState::Calling {
                Some(TransactionState::Terminated)
            } else {
                None
            }),
            !named(timer_name@, "A"@) && !named(timer_name@, "B"@) ==> r is None
                && final(actions)@ == old(actions)@.push(Action::Emit(TuEvent::TimerTriggered))
                && *final(timers) == *old(timers),
            r matches Some(s) ==> spec_valid_transition(
                TransactionKind::InviteClient,
                current_state,
                s,
            ),
    {
        proof {
            reveal_strlit("A");
            reveal_strlit("B");
            assert("A"@[0] != "B"@[0]);
        }
        let is_a = str_eq(timer_name, "A");
        if is_a {
            timers.timer_a = false;
        }
        actions.push(Action::Emit(TuEvent::TimerTriggered));
        if is_a {
            self.handle_timer_a_trigger(current_state, timers, resent, actions)
        } else if str_eq(timer_name, "B") {
            self.handle_timer_b_trigger(current_state, actions)
        } else if str_eq(timer_name, "D") {
            self.handle_timer_d_trigger(current_state)
        } else {
            None
        }
    }

    /// Whether an ACK must be sent for this response before it is processed.
    pub fn response_needs_ack(
        &self,
        key: &TransactionKey,
        original_method: &Method,
        response: &ResponseInfo,
        current_state: TransactionState,
    ) -> (r: bool)
        ensures
            r == spec_invite_response_needs_ack(
                current_state,
                spec_response_matches(
                    response.via_branches@,
                    opt_cseq(response.cseq),
                    key.branch@,
                    original_method@,
                ),
                response.status,
            ),
    {
        response_matches_transaction(response, key, original_method) && !status_is_provisional(
            response.status,
        ) && !status_is_success(response.status) && (current_state == TransactionState::Calling
            || current_state == TransactionState::Proceeding || current_state
            == TransactionState::Completed)
    }

    /// Processes a response (RFC 3261 Section 17.1.1.2). Any response in
    /// Calling stops Timer A. `ack_sent` tells whether the ACK that
    /// [`Self::response_needs_ack`] asked for was sent.
    pub fn process_response(
        &self,
        key: &TransactionKey,
        original_method: &Method,
        response: &ResponseInfo,
        current_state: TransactionState,
        timers: &mut ClientInviteTimers,
        ack_sent: bool,
        actions: &mut Vec<Action>,
    ) -> (r: Option<TransactionState>)
        ensures
            ({
                let m = spec_response_matches(
                    response.via_branches@,
                    opt_cseq(response.cseq),
                    key.branch@,
                    original_method@,
                );
                let outcome = spec_invite_response_outcome(
                    current_state,
                    m,
                    response.status,
                    key.method@ == MethodView::Invite,
                    ack_sent,
                );
                let stop_a = m && current_state == TransactionState::Calling && old(timers).timer_a;
                &&& r == outcome.1
                &&& final(actions)@ == old(actions)@ + (if stop_a {
                    seq![Action::AbortTimer(TimerKind::A)]
                } else {
                    Seq::empty()
                }) + emitted(outcome.0)
                &&& *final(timers) == (if m && current_state == TransactionState::Calling {
                    ClientInviteTimers { timer_a: false, ..*old(timers) }
                } else {
                    *old(timers)
                })
            }),
            r matches Some(s) ==> spec_valid_transition(
                TransactionKind::InviteClient,
                current_state,
                s,
            ),
    {
        let ghost old_actions = actions@;
        if !response_matches_transaction(response, key, original_method) {
            return None;
        }
        let provisional = status_is_provisional(response.status);
        let success = status_is_success(response.status);
        let need_ack = key.method.is_invite();
        match current_state {
            TransactionState::Calling | TransactionState::Proceeding => {
                if current_state == TransactionState::Calling {
                    if timers.timer_a {
                        actions.push(Action::AbortTimer(TimerKind::A));
                    }
                    timers.timer_a = false;
                }
                let ghost mid = actions@;
                if provisional {
                    actions.push(Action::Emit(TuEvent::ProvisionalResponse));
                    assert(actions@ == mid + emitted(seq![TuEvent::ProvisionalResponse]));
                    if current_state == TransactionState::Calling {
                        Some(TransactionState::Proceeding)
                    } else {
                        None
                    }
                } else if success {
                    actions.push(Action::Emit(TuEvent::SuccessResponse { need_ack }));
                    assert(actions@ == mid + emitted(seq![TuEvent::SuccessResponse { need_ack }]));
                    Some(TransactionState::Terminated)
                } else if !ack_sent {
                    assert(actions@ == mid + emitted(Seq::empty()));
                    Some(TransactionState::Terminated)
                } else {
                    actions.push(Action::Emit(TuEvent::FailureResponse));
                    assert(actions@ == mid + emitted(seq![TuEvent::FailureResponse]));
                    Some(TransactionState::Completed)
                }
            },
            _ => {
                assert(actions@ == old_actions + Seq::<Action>::empty() + emitted(Seq::empty()));
                None
            },
        }
    }

    /// Processes a message routed to the transaction: requests are ignored.
    pub fn process_message(
        &self,
        key: &TransactionKey,
        original_method: &Method,
        message: &Message,
        current_state: TransactionState,
        timers: &mut ClientInviteTimers,
        ack_sent: bool,
        actions: &mut Vec<Action>,
    ) -> (r: Option<TransactionState>)
        ensures
            message is Request ==> r is None && *final(timers) == *old(timers) && final(actions)@
                == old(actions)@,
            message matches Message::Response(response) ==> ({
                let m = spec_response_matches(
                    response.via_branches@,
                    opt_cseq(response.cseq),
                    key.branch@,
                    original_method@,
                );
                let outcome = spec_invite_response_outcome(
                    current_state,
                    m,
                    response.status,
                    key.method@ == MethodView::Invite,
                    ack_sent,
                );
                let stop_a = m && current_state == TransactionState::Calling && old(timers).timer_a;
                &&& r == outcome.1
                &&& final(actions)@ == old(actions)@ + (if stop_a {
                    seq![Action::AbortTimer(TimerKind::A)]
                } else {
                    Seq::empty()
                }) + emitted(outcome.0)
                &&& *final(timers) == (if m && current_state == TransactionState::Calling {
                    ClientInviteTimers { timer_a: false, ..*old(timers) }
                } else {
                    *old(timers)
                })
            }),
            r matches Some(s) ==> spec_valid_transition(
                TransactionKind::InviteClient,
                current_state,
                s,
            ),
    {
        match message {
            Message::Response(response) => self.process_response(
                key,
                original_method,
                response,
                current_state,
                timers,
                ack_sent,
                actions,
            ),
            Message::Request(_) => None,
        }
    }

    /// Actions on entering a state: Calling starts the transaction (see
    /// [`Self::handle_calling_state`]; `sent` tells whether the INVITE went
    /// out), Proceeding stops Timer A, Completed starts Timer D, and
    /// Terminated leaves the timer manager.
    pub fn on_enter_state(
        &self,
        new_state: TransactionState,
        timers: &mut ClientInviteTimers,
        sent: bool,
        actions: &mut Vec<Action>,
    ) -> (r: Result<(), Error>)
        ensures
            new_state != TransactionState::Calling ==> r is Ok,
            new_state == TransactionState::Calling ==> (r is Ok <==> sent),
            new_state == TransactionState::Proceeding ==> *final(timers) == (ClientInviteTimers {
                timer_a: false,
                ..*old(timers)
            }) && final(actions)@ == old(actions)@ + (if old(timers).timer_a {
                seq![Action::AbortTimer(TimerKind::A)]
            } else {
                Seq::empty()
            }),
            new_state == TransactionState::Completed ==> final(timers).timer_d && final(actions)@
                == old(actions)@.push(
                Action::StartTimerWithTransition {
                    timer: TimerKind::D,
                    interval_ms: self.timer_config.wait_time_d,
                    target: TransactionState::Terminated,
                },
            ),
            new_state == TransactionState::Terminated ==> *final(timers) == *old(timers)
                && final(actions)@ == old(actions)@.push(Action::UnregisterTimers),
            new_state == TransactionState::Initial || new_state == TransactionState::Trying
                || new_state == TransactionState::Confirmed ==> *final(timers) == *old(timers)
                && final(actions)@ == old(actions)@,
    {
        match new_state {
            TransactionState::Calling => self.handle_calling_state(timers, sent, actions),
            TransactionState::Proceeding => {
                if timers.timer_a {
                    actions.push(Action::AbortTimer(TimerKind::A));
                }
                timers.timer_a = false;
                Ok(())
            },
            TransactionState::Completed => {
                self.start_timer_d(timers, actions);
                Ok(())
            },
            TransactionState::Terminated => {
                actions.push(Action::UnregisterTimers);
                Ok(())
            },
            _ => Ok(()),
        }
    }

    /// Stops every running timer and forgets Timer A's interval.
    pub fn cancel_all_specific_timers(
        &self,
        timers: &mut ClientInviteTimers,
        actions: &mut Vec<Action>,
    )
        ensures
            *final(timers) == ClientInviteTimers::new_spec(),
            final(actions)@ == old(actions)@ + (if old(timers).timer_a {
                seq![Action::AbortTimer(TimerKind::A)]
            } else {
                Seq::empty()
            }) + (if old(timers).timer_b {
                seq![Action::AbortTimer(TimerKind::B)]
            } else {
                Seq::empty()
            }) + (if old(timers).timer_d {
                seq![Action::AbortTimer(TimerKind::D)]
            } else {
                Seq::empty()
            }),
    {
        let ghost a0 = actions@;
        if timers.timer_a {
            actions.push(Action::AbortTimer(TimerKind::A));
        }
        let ghost a1 = actions@;
        if timers.timer_b {
            actions.push(Action::AbortTimer(TimerKind::B));
        }
        let ghost a2 = actions@;
        if timers.timer_d {
            actions.push(Action::AbortTimer(TimerKind::D));
        }
        assert(actions@ == a0 + (a1.subrange(a0.len() as int, a1.len() as int)) + (a2.subrange(
            a1.len() as int,
            a2.len() as int,
        )) + (actions@.subrange(a2.len() as int, actions@.len() as int)));
        *timers = ClientInviteTimers::new();
    }
}

impl ClientInviteTimers {
    /// No timer running, as a value.
    pub open spec fn new_spec() -> Self {
        ClientInviteTimers {
            timer_a: false,
            current_timer_a_interval: None,
            timer_b: false,
            timer_d: false,
        }
    }
}

/// How an INVITE client transaction answers a response (RFC 3261 Section
/// 17.1.1.2). A response of another transaction changes nothing. In Calling
/// or Proceeding: a 1xx is reported and moves Calling to Proceeding; a 2xx
/// is reported (asking for an ACK when the method is INVITE) and ends the
/// transaction; a 3xx to 6xx is reported and completes it once its ACK was
/// sent, and ends it unreported when the ACK could not be sent. In any other
/// state a response changes nothing.
pub proof fn lemma_invite_client_response_follows_rfc(
    state: TransactionState,
    matches: bool,
    status: u16,
    need_ack: bool,
    ack_sent: bool,
)
    ensures
        ({
            let (events, next) = spec_invite_response_outcome(state, matches, status, need_ack, ack_sent);
            let waiting = state == TransactionState::Calling || state == TransactionState::Proceeding;
            &&& !(matches && waiting) ==> events.len() == 0 && next is None
            &&& matches && waiting && 100 <= status < 200 ==> events == seq![TuEvent::ProvisionalResponse]
            &&& matches && state == TransactionState::Calling && 100 <= status < 200 ==> next == Some(
                TransactionState::Proceeding,
            )
            &&& matches && state == TransactionState::Proceeding && 100 <= status < 200 ==> next is None
            &&& matches && waiting && 200 <= status < 300 ==> events == seq![
                TuEvent::SuccessResponse { need_ack },
            ] && next == Some(TransactionState::Terminated)
            &&& matches && waiting && !(100 <= status < 300) && ack_sent ==> events == seq![
                TuEvent::FailureResponse,
            ] && next == Some(TransactionState::Completed)
            &&& matches && waiting && !(100 <= status < 300) && !ack_sent ==> events.len() == 0 && next
                == Some(TransactionState::Terminated)
        }),
{
}

/// An INVITE client transaction acknowledges exactly the final non-2xx
/// responses (300 to 699, or any status outside 1xx and 2xx) of its own
/// INVITE, while in Calling, Proceeding or Completed (RFC 3261 Section
/// 17.1.1.3); a 1xx or 2xx response, a response of another transaction, or
/// any response in another state is not acknowledged by the transaction.
pub proof fn lemma_invite_ack_follows_rfc(state: TransactionState, matches: bool, status: u16)
    ensures
        spec_invite_response_needs_ack(state, matches, status) <==> (matches && !(100 <= status < 300) && (
        state == TransactionState::Calling || state == TransactionState::Proceeding || state
            == TransactionState::Completed)),
{
}

} // verus!
