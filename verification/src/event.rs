use vstd::prelude::*;
use crate::state::TransactionState;

verus! {

/// What a transaction reports to its Transaction User. The transaction key,
/// and the message that an event is about, travel beside it.
#[derive(Debug, Clone, Copy, PartialEq, Eq, Structural)]
pub enum TuEvent {
    /// A 1xx response arrived.
    ProvisionalResponse,
    /// A 2xx response arrived; `need_ack` when the transaction is an INVITE,
    /// whose 2xx the TU itself must acknowledge.
    SuccessResponse { need_ack: bool },
    /// A 3xx to 6xx response arrived.
    FailureResponse,
    /// The transport could not send a message of the transaction.
    TransportError,
    /// The transaction ran out of time waiting for a final response.
    TransactionTimeout,
    /// A timer of the transaction fired.
    TimerTriggered,
    /// The transaction moved from one state to another.
    StateChanged { previous: TransactionState, new: TransactionState },
    /// The transaction has ended.
    TransactionTerminated,
    /// An internal error, such as a refused state transition.
    Error,
}

/// The timers of RFC 3261 Section 17 that the transactions here start.
#[derive(Debug, Clone, Copy, PartialEq, Eq, Structural)]
pub enum TimerKind {
    /// INVITE request retransmission.
    A,
    /// INVITE transaction timeout.
    B,
    /// INVITE client wait in Completed.
    D,
    /// Non-INVITE request retransmission.
    E,
    /// Non-INVITE transaction timeout.
    F,
    /// Non-INVITE client wait in Completed.
    K,
    /// Non-INVITE server wait in Completed.
    J,
}

/// The name by which a timer reports itself when it fires.
pub open spec fn timer_label(t: TimerKind) -> Seq<char> {
    match t {
        TimerKind::A => "A"@,
        TimerKind::B => "B"@,
        TimerKind::D => "D"@,
        TimerKind::E => "E"@,
        TimerKind::F => "F"@,
        TimerKind::K => "K"@,
        TimerKind::J => "J"@,
    }
}

/// The name by which a timer reports itself when it fires.
pub fn timer_name(t: TimerKind) -> (s: &'static str)
    ensures
        s@ == timer_label(t),
{
    match t {
        TimerKind::A => "A",
        TimerKind::B => "B",
        TimerKind::D => "D",
        TimerKind::E => "E",
        TimerKind::F => "F",
        TimerKind::K => "K",
        TimerKind::J => "J",
    }
}

/// One thing a transaction asks its runner to do, in order.
#[derive(Debug, Clone, Copy, PartialEq, Eq, Structural)]
pub enum Action {
    /// Report an event to the Transaction User.
    Emit(TuEvent),
    /// Start a one-shot timer; it reports its name when it fires.
    StartTimer { timer: TimerKind, interval_ms: u64 },
    /// Start a timer that, when it fires, reports its name and then asks for
    /// a transition to `target`.
    StartTimerWithTransition { timer: TimerKind, interval_ms: u64, target: TransactionState },
    /// Stop a running timer.
    AbortTimer(TimerKind),
    /// Forget the transaction in the timer manager.
    UnregisterTimers,
    /// Ask the transaction's own loop for a transition.
    CommandTransition(TransactionState),
    /// Send the last response again.
    ResendLastResponse,
}

} // verus!
