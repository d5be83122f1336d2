use vstd::prelude::*;
use crate::state::{TransactionKind, TransactionState, spec_valid_transition};
use crate::event::{Action, TimerKind, TuEvent};
use crate::timer::{TimerSettings, calculate_backoff_interval, spec_backoff};
use crate::method::{Method, MethodView, str_eq};
use crate::key::TransactionKey;
use crate::message::{ResponseInfo, Message, is_provisional, opt_cseq, status_is_provisional};
use crate::validators::{spec_response_matches, response_matches_transaction};
use crate::common_logic::{spec_response_by_status, handle_response_by_status};
use crate::client_invite::named;
use crate::error::Error;

verus! {

/// The timers that a non-INVITE client transaction holds: whether Timers E,
/// F and K are running, and the current interval of Timer E.
#[derive(Debug, Clone, Copy, PartialEq, Eq, Structural)]
pub struct ClientNonInviteTimers {
    pub timer_e: bool,
    pub current_timer_e_interval: Option<u64>,
    pub timer_f: bool,
    pub timer_k: bool,
}

impl ClientNonInviteTimers {
    /// No timer running.
    pub fn new() -> (t: Self)
        ensures
            t == Self::new_spec(),
    {
        ClientNonInviteTimers {
            timer_e: false,
            current_timer_e_interval: None,
            timer_f: false,
            timer_k: false,
        }
    }

    /// No timer running, as a value.
    pub open spec fn new_spec() -> Self {
        ClientNonInviteTimers {
            timer_e: false,
            current_timer_e_interval: None,
            timer_f: false,
            timer_k: false,
        }
    }

    /// The interval of Timer E is T1 or at most T2.
    pub open spec fn interval_ok(self, settings: TimerSettings) -> bool {
        self.current_timer_e_interval matches Some(x) ==> x == settings.t1 || x <= settings.t2
    }
}

/// The non-INVITE client transaction state machine (RFC 3261 Section
/// 17.1.2), one decision per function as for the INVITE client.
pub struct ClientNonInviteLogic {
    pub timer_config: TimerSettings,
}

impl ClientNonInviteLogic {
    /// The kind of transaction this logic drives.
    pub fn kind(&self) -> (k: TransactionKind)
        ensures
            k == TransactionKind::NonInviteClient,
    {
        TransactionKind::NonInviteClient
    }

    /// The state the transaction is created in.
    pub fn initial_state(&self) -> (s: TransactionState)
        ensures
            s == TransactionState::Initial,
    {
        TransactionState::Initial
    }

    /// The timer settings of the transaction.
    pub fn timer_settings(&self) -> (s: &TimerSettings)
        ensures
            *s == self.timer_config,
    {
        &self.timer_config
    }

    /// Starts Timer E with interval T1.
    pub fn start_timer_e(&self, timers: &mut ClientNonInviteTimers, actions: &mut Vec<Action>)
        ensures
            *final(timers) == (ClientNonInviteTimers {
                timer_e: true,
                current_timer_e_interval: Some(self.timer_config.t1),
                ..*old(timers)
            }),
            final(actions)@ == old(actions)@.push(
                Action::StartTimer { timer: TimerKind::E, interval_ms: self.timer_config.t1 },
            ),
    {
        timers.current_timer_e_interval = Some(self.timer_config.t1);
        actions.push(Action::StartTimer { timer: TimerKind::E, interval_ms: self.timer_config.t1 });
        timers.timer_e = true;
    }

    /// Starts Timer F, the transaction timeout.
    pub fn start_timer_f(&self, timers: &mut ClientNonInviteTimers, actions: &mut Vec<Action>)
        ensures
            *final(timers) == (ClientNonInviteTimers { timer_f: true, ..*old(timers) }),
            final(actions)@ == old(actions)@.push(
                Action::StartTimer {
                    timer: TimerKind::F,
                    interval_ms: self.timer_config.transaction_timeout,
                },
            ),
    {
        actions.push(
            Action::StartTimer {
                timer: TimerKind::F,
                interval_ms: self.timer_config.transaction_timeout,
            },
        );
        timers.timer_f = true;
    }

    /// Starts Timer K, which ends the transaction when it fires.
    pub fn start_timer_k(&self, timers: &mut ClientNonInviteTimers, actions: &mut Vec<Action>)
        ensures
            *final(timers) == (ClientNonInviteTimers { timer_k: true, ..*old(timers) }),
            final(actions)@ == old(actions)@.push(
                Action::StartTimerWithTransition {
                    timer: TimerKind::K,
                    interval_ms: self.timer_config.wait_time_k,
                    target: TransactionState::Terminated,
                },
            ),
    {
        actions.push(
            Action::StartTimerWithTransition {
                timer: TimerKind::K,
                interval_ms: self.timer_config.wait_time_k,
                target: TransactionState::Terminated,
            },
        );
        timers.timer_k = true;
    }

    /// On entering Trying, after the request was handed to the transport:
    /// when the send failed, reports a transport error and asks for
    /// Terminated; otherwise starts Timers E and F.
    pub fn handle_trying_state(
        &self,
        timers: &mut ClientNonInviteTimers,
        sent: bool,
        actions: &mut Vec<Action>,
    ) -> (r: Result<(), Error>)
        ensures
            !sent ==> r == Err::<(), Error>(Error::Transport) && *final(timers) == *old(timers)
                && final(actions)@ == old(actions)@ + seq![
                Action::Emit(TuEvent::TransportError),
                Action::CommandTransition(TransactionState::Terminated),
            ],
            sent ==> r is Ok && *final(timers) == (ClientNonInviteTimers {
                timer_e: true,
                current_timer_e_interval: Some(self.timer_config.t1),
                timer_f: true,
                ..*old(timers)
            }) && final(actions)@ == old(actions)@ + seq![
                Action::StartTimer { timer: TimerKind::E, interval_ms: self.timer_config.t1 },
                Action::StartTimer {
                    timer: TimerKind::F,
                    interval_ms: self.timer_config.transaction_timeout,
                },
            ],
    {
        if !sent {
            actions.push(Action::Emit(TuEvent::TransportError));
            actions.push(Action::CommandTransition(TransactionState::Terminated));
            return Err(Error::Transport);
        }
        self.start_timer_e(timers, actions);
        self.start_timer_f(timers, actions);
        Ok(())
    }

    /// Timer E fired. In Trying or Proceeding the request was retransmitted
    /// before this call: when that failed, reports a transport error and ends
    /// the transaction; otherwise doubles the interval (capped at T2) and
    /// starts Timer E again.
    pub fn handle_timer_e_trigger(
        &self,
        current_state: TransactionState,
        timers: &mut ClientNonInviteTimers,
        resent: bool,
        actions: &mut Vec<Action>,
    ) -> (r: Option<TransactionState>)
        requires
            self.timer_config.wf(),
            old(timers).interval_ok(self.timer_config),
        ensures
            final(timers).interval_ok(self.timer_config),
            !(current_state == TransactionState::Trying || current_state
                == TransactionState::Proceeding) ==> r is None && *final(timers) == *old(timers)
                && final(actions)@ == old(actions)@,
            (current_state == TransactionState::Trying || current_state
                == TransactionState::Proceeding) && !resent ==> r == Some(
                TransactionState::Terminated,
            ) && *final(timers) == *old(timers) && final(actions)@ == old(actions)@.push(
                Action::Emit(TuEvent::TransportError),
            ),
            (current_state == TransactionState::Trying || current_state
                == TransactionState::Proceeding) && resent ==> ({
                let cur = match old(timers).current_timer_e_interval {
                    Some(x) => x,
                    None => self.timer_config.t1,
                };
                let next = spec_backoff(cur, self.timer_config.t2) as u64;
                &&& r is None
                &&& *final(timers) == (ClientNonInviteTimers {
                    timer_e: true,
                    current_timer_e_interval: Some(next),
                    ..*old(timers)
                })
                &&& final(actions)@ == old(actions)@.push(
                    Action::StartTimer { timer: TimerKind::E, interval_ms: next },
                )
            }),
    {
        match current_state {
            TransactionState::Trying | TransactionState::Proceeding => {
                if !resent {
                    actions.push(Action::Emit(TuEvent::TransportError));
                    return Some(TransactionState::Terminated);
                }
                let current_interval = match timers.current_timer_e_interval {
                    Some(x) => x,
                    None => self.timer_config.t1,
                };
                let new_interval = calculate_backoff_interval(current_interval, &self.timer_config);
                timers.current_timer_e_interval = Some(new_interval);
                actions.push(Action::StartTimer { timer: TimerKind::E, interval_ms: new_interval });
                timers.timer_e = true;
                None
            },
            _ => None,
        }
    }

    /// Timer F fired: in Trying or Proceeding, reports the timeout and ends
    /// the transaction.
    pub fn handle_timer_f_trigger(
        &self,
        current_state: TransactionState,
        actions: &mut Vec<Action>,
    ) -> (r: Option<TransactionState>)
        ensures
            (current_state == TransactionState::Trying || current_state
                == TransactionState::Proceeding) ==> r == Some(TransactionState::Terminated)
                && final(actions)@ == old(actions)@.push(Action::Emit(TuEvent::TransactionTimeout)),
            !(current_state == TransactionState::Trying || current_state
                == TransactionState::Proceeding) ==> r is None && final(actions)@ == old(actions)@,
    {
        match current_state {
            TransactionState::Trying | TransactionState::Proceeding => {
                actions.push(Action::Emit(TuEvent::TransactionTimeout));
                Some(TransactionState::Terminated)
            },
            _ => None,
        }
    }

    /// Timer K fired: the transition to Terminated comes with the timer itself.
    pub fn handle_timer_k_trigger(&self, current_state: TransactionState) -> (r: Option<
        TransactionState,
    >)
        ensures
            r is None,
    {
        None
    }

    /// Whether the request must be retransmitted before handling a timer that fired.
    pub fn timer_needs_resend(&self, timer_name: &str, current_state: TransactionState) -> (r: bool)
        ensures
            r == (named(timer_name@, "E"@) && (current_state == TransactionState::Trying
                || current_state == TransactionState::Proceeding)),
    {
        str_eq(timer_name, "E") && (current_state == TransactionState::Trying || current_state
            == TransactionState::Proceeding)
    }

    /// A timer fired: Timer E's handle is cleared, the firing is reported,
    /// and the timer's own handler decides.
    pub fn handle_timer(
        &self,
        timer_name: &str,
        current_state: TransactionState,
        timers: &mut ClientNonInviteTimers,
        resent: bool,
        actions: &mut Vec<Action>,
    ) -> (r: Option<TransactionState>)
        requires
            self.timer_config.wf(),
            old(timers).interval_ok(self.timer_config),
        ensures
            final(timers).interval_ok(self.timer_config),
            final(actions)@.len() >= old(actions)@.len() + 1,
            final(actions)@[old(actions)@.len() as int] == Action::Emit(TuEvent::TimerTriggered),
            named(timer_name@, "F"@) ==> r == (if current_state == TransactionState::Trying
                || current_state == TransactionState::Proceeding {
                Some(TransactionState::Terminated)
            } else {
                None
            }),
            !named(timer_name@, "E"@) && !named(timer_name@, "F"@) ==> r is None
                && final(actions)@ == old(actions)@.push(Action::Emit(TuEvent::TimerTriggered))
                && *final(timers) == *old(timers),
            r matches Some(s) ==> spec_valid_transition(
                TransactionKind::NonInviteClient,
                current_state,
                s,
            ),
    {
        proof {
            reveal_strlit("E");
            reveal_strlit("F");
            assert("E"@[0] != "F"@[0]);
        }
        let is_e = str_eq(timer_name, "E");
        if is_e {
            timers.timer_e = false;
        }
        actions.push(Action::Emit(TuEvent::TimerTriggered));
        if is_e {
            self.handle_timer_e_trigger(current_state, timers, resent, actions)
        } else if str_eq(timer_name, "F") {
            self.handle_timer_f_trigger(current_state, actions)
        } else if str_eq(timer_name, "K") {
            self.handle_timer_k_trigger(current_state)
        } else {
            None
        }
    }

    /// Processes a response (RFC 3261 Section 17.1.2.2). A response that
    /// does not belong to the transaction changes nothing. In Trying or
    /// Proceeding a final response stops Timer E; then the response is
    /// handled by its status.
    pub fn process_response(
        &self,
        key: &TransactionKey,
        original_method: &Method,
        response: &ResponseInfo,
        current_state: TransactionState,
        timers: &mut ClientNonInviteTimers,
        actions: &mut Vec<Action>,
    ) -> (r: Option<TransactionState>)
        ensures
            ({
                let m = spec_response_matches(
                    response.via_branches@,
                    opt_cseq(response.cseq),
                    key.branch@,
                    original_method@,
                );
                let active = current_state == TransactionState::Trying || current_state
                    == TransactionState::Proceeding;
                let is_final = !is_provisional(response.status);
                let outcome = spec_response_by_status(
                    current_state,
                    response.status,
                    false,
                    key.method@ == MethodView::Invite,
                );
                let stop_e = m && active && is_final && old(timers).timer_e;
                &&& m ==> r == outcome.1
                &&& !m ==> r is None
                &&& final(actions)@ == old(actions)@ + (if stop_e {
                    seq![Action::AbortTimer(TimerKind::E)]
                } else {
                    Seq::empty()
                }) + (if m && outcome.0 is Some {
                    seq![Action::Emit(outcome.0.unwrap())]
                } else {
                    Seq::empty()
                })
                &&& *final(timers) == (if m && active && is_final {
                    ClientNonInviteTimers {
                        timer_e: false,
                        current_timer_e_interval: None,
                        ..*old(timers)
                    }
                } else {
                    *old(timers)
                })
            }),
            r matches Some(s) ==> current_state != TransactionState::Calling ==> spec_valid_transition(
                TransactionKind::NonInviteClient,
                current_state,
                s,
            ),
    {
        if !response_matches_transaction(response, key, original_method) {
            return None;
        }
        let is_final = !status_is_provisional(response.status);
        match current_state {
            TransactionState::Trying | TransactionState::Proceeding => {
                if is_final {
                    if timers.timer_e {
                        actions.push(Action::AbortTimer(TimerKind::E));
                    }
                    timers.timer_e = false;
                    timers.current_timer_e_interval = None;
                }
            },
            _ => {},
        }
        let (ev, next) = handle_response_by_status(
            response.status,
            current_state,
            false,
            key.method.is_invite(),
        );
        match ev {
            Some(e) => actions.push(Action::Emit(e)),
            None => {},
        }
        next
    }

    /// Processes a message routed to the transaction: requests are ignored.
    pub fn process_message(
        &self,
        key: &TransactionKey,
        original_method: &Method,
        message: &Message,
        current_state: TransactionState,
        timers: &mut ClientNonInviteTimers,
        actions: &mut Vec<Action>,
    ) -> (r: Option<TransactionState>)
        ensures
            message is Request ==> r is None && *final(timers) == *old(timers) && final(actions)@
                == old(actions)@,
            message matches Message::Response(response) ==> ({
                let m = spec_response_matches(
                    response.via_branches@,
                    opt_cseq(response.cseq),
                    key.branch@,
                    original_method@,
                );
                let active = current_state == TransactionState::Trying || current_state
                    == TransactionState::Proceeding;
                let is_final = !is_provisional(response.status);
                let outcome = spec_response_by_status(
                    current_state,
                    response.status,
                    false,
                    key.method@ == MethodView::Invite,
                );
                let stop_e = m && active && is_final && old(timers).timer_e;
                &&& m ==> r == outcome.1
                &&& !m ==> r is None
                &&& final(actions)@ == old(actions)@ + (if stop_e {
                    seq![Action::AbortTimer(TimerKind::E)]
                } else {
                    Seq::empty()
                }) + (if m && outcome.0 is Some {
                    seq![Action::Emit(outcome.0.unwrap())]
                } else {
                    Seq::empty()
                })
                &&& *final(timers) == (if m && active && is_final {
                    ClientNonInviteTimers {
                        timer_e: false,
                        current_timer_e_interval: None,
                        ..*old(timers)
                    }
                } else {
                    *old(timers)
                })
            }),
            r matches Some(s) ==> current_state != TransactionState::Calling ==> spec_valid_transition(
                TransactionKind::NonInviteClient,
                current_state,
                s,
            ),
    {
        match message {
            Message::Response(response) => self.process_response(
                key,
                original_method,
                response,
                current_state,
                timers,
                actions,
            ),
            Message::Request(_) => None,
        }
    }

    /// Actions on entering a state: Trying starts the transaction (see
    /// [`Self::handle_trying_state`]), Completed starts Timer K, Terminated
    /// leaves the timer manager; Proceeding keeps Timers E and F running.
    pub fn on_enter_state(
        &self,
        new_state: TransactionState,
        timers: &mut ClientNonInviteTimers,
        sent: bool,
        actions: &mut Vec<Action>,
    ) -> (r: Result<(), Error>)
        ensures
            new_state != TransactionState::Trying ==> r is Ok,
            new_state == TransactionState::Trying ==> (r is Ok <==> sent),
            new_state == TransactionState::Completed ==> final(timers).timer_k && final(actions)@
                == old(actions)@.push(
                Action::StartTimerWithTransition {
                    timer: TimerKind::K,
                    interval_ms: self.timer_config.wait_time_k,
                    target: TransactionState::Terminated,
                },
            ),
            new_state == TransactionState::Terminated ==> *final(timers) == *old(timers)
                && final(actions)@ == old(actions)@.push(Action::UnregisterTimers),
            new_state == TransactionState::Initial || new_state == TransactionState::Calling
                || new_state == TransactionState::Proceeding || new_state
                == TransactionState::Confirmed ==> *final(timers) == *old(timers)
                && final(actions)@ == old(actions)@,
    {
        match new_state {
            TransactionState::Trying => self.handle_trying_state(timers, sent, actions),
            TransactionState::Completed => {
                self.start_timer_k(timers, actions);
                Ok(())
            },
            TransactionState::Terminated => {
                actions.push(Action::UnregisterTimers);
                Ok(())
            },
            _ => Ok(()),
        }
    }

    /// Stops every running timer and forgets Timer E's interval.
    pub fn cancel_all_specific_timers(
        &self,
        timers: &mut ClientNonInviteTimers,
        actions: &mut Vec<Action>,
    )
        ensures
            *final(timers) == ClientNonInviteTimers::new_spec(),
            final(actions)@ == old(actions)@ + (if old(timers).timer_e {
                seq![Action::AbortTimer(TimerKind::E)]
            } else {
                Seq::empty()
            }) + (if old(timers).timer_f {
                seq![Action::AbortTimer(TimerKind::F)]
            } else {
                Seq::empty()
            }) + (if old(timers).timer_k {
                seq![Action::AbortTimer(TimerKind::K)]
            } else {
                Seq::empty()
            }),
    {
        let ghost a0 = actions@;
        if timers.timer_e {
            actions.push(Action::AbortTimer(TimerKind::E));
        }
        let ghost a1 = actions@;
        if timers.timer_f {
            actions.push(Action::AbortTimer(TimerKind::F));
        }
        let ghost a2 = actions@;
        if timers.timer_k {
            actions.push(Action::AbortTimer(TimerKind::K));
        }
        assert(actions@ == a0 + (a1.subrange(a0.len() as int, a1.len() as int)) + (a2.subrange(
            a1.len() as int,
            a2.len() as int,
        )) + (actions@.subrange(a2.len() as int, actions@.len() as int)));
        *timers = ClientNonInviteTimers::new();
    }
}

} // verus!
