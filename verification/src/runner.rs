use vstd::prelude::*;
use crate::state::{TransactionKind, TransactionState, TransactionLifecycle, InvalidTransition,
    spec_valid_transition, validate_transition, spec_active_state, active_state};
use crate::error::Error;

verus! {

/// Read access to a transaction's RFC state.
pub trait AsRefState {
    spec fn spec_state(&self) -> TransactionState;

    /// The current state.
    fn as_ref_state(&self) -> (s: TransactionState)
        ensures
            s == self.spec_state(),
    ;
}

/// Access to a transaction's lifecycle, which the runner uses to tear it down.
pub trait HasLifecycle {
    spec fn spec_lifecycle(&self) -> TransactionLifecycle;

    /// The current lifecycle.
    fn get_lifecycle(&self) -> (l: TransactionLifecycle)
        ensures
            l == self.spec_lifecycle(),
    ;

    /// Replaces the lifecycle.
    fn set_lifecycle(&mut self, new_lifecycle: TransactionLifecycle)
        ensures
            final(self).spec_lifecycle() == new_lifecycle,
    ;

    /// Whether events are still reported to the Transaction User.
    fn should_emit_events(&self) -> (r: bool)
        ensures
            r == spec_emits_events(self.spec_lifecycle()),
    ;
}

/// Events are reported while a transaction is active or in its grace period.
pub open spec fn spec_emits_events(l: TransactionLifecycle) -> bool {
    l == TransactionLifecycle::Active || l == TransactionLifecycle::Terminating
}

/// The order of the lifecycle stages.
pub open spec fn lifecycle_rank(l: TransactionLifecycle) -> nat {
    match l {
        TransactionLifecycle::Active => 0,
        TransactionLifecycle::Terminating => 1,
        TransactionLifecycle::Draining => 2,
        TransactionLifecycle::Destroyed => 3,
    }
}

/// The state that the runner of one transaction keeps: RFC state and lifecycle.
#[derive(Debug, Clone, Copy, PartialEq, Eq, Structural)]
pub struct TransactionCore {
    pub state: TransactionState,
    pub lifecycle: TransactionLifecycle,
}

impl TransactionCore {
    /// A transaction leaves the Active lifecycle only once it is Terminated.
    pub open spec fn wf(self) -> bool {
        self.state != TransactionState::Terminated ==> self.lifecycle == TransactionLifecycle::Active
    }

    /// A new transaction in `state`, active.
    pub fn new(state: TransactionState) -> (c: Self)
        ensures
            c.state == state,
            c.lifecycle == TransactionLifecycle::Active,
            c.wf(),
    {
        TransactionCore { state, lifecycle: TransactionLifecycle::Active }
    }
}

impl AsRefState for TransactionCore {
    open spec fn spec_state(&self) -> TransactionState {
        self.state
    }

    fn as_ref_state(&self) -> (s: TransactionState) {
        self.state
    }
}

impl HasLifecycle for TransactionCore {
    open spec fn spec_lifecycle(&self) -> TransactionLifecycle {
        self.lifecycle
    }

    fn get_lifecycle(&self) -> (l: TransactionLifecycle) {
        self.lifecycle
    }

    fn set_lifecycle(&mut self, new_lifecycle: TransactionLifecycle) {
        self.lifecycle = new_lifecycle;
    }

    fn should_emit_events(&self) -> (r: bool) {
        self.lifecycle == TransactionLifecycle::Active || self.lifecycle
            == TransactionLifecycle::Terminating
    }
}

/// What a requested state transition did.
#[derive(Debug, Clone, Copy, PartialEq, Eq, Structural)]
pub enum TransitionOutcome {
    /// The transaction was already in that state: nothing to do.
    AlreadyInState,
    /// The state machine does not allow it: report an error, nothing changes.
    Rejected(InvalidTransition),
    /// The state changed. The runner first stops the transaction's timers,
    /// reports the change when `emit_state_changed`, starts the grace period
    /// that leads to Destroyed when `start_grace_period`, and then runs the
    /// entry actions of the new state.
    Applied { previous: TransactionState, emit_state_changed: bool, start_grace_period: bool },
}

/// The runner's handling of `TransitionTo(requested)`.
pub open spec fn spec_apply_transition(
    core: TransactionCore,
    kind: TransactionKind,
    requested: TransactionState,
) -> (TransactionCore, TransitionOutcome) {
    if core.state == requested {
        (core, TransitionOutcome::AlreadyInState)
    } else if !spec_valid_transition(kind, core.state, requested) {
        (
            core,
            TransitionOutcome::Rejected(
                InvalidTransition { kind, from: core.state, to: requested },
            ),
        )
    } else {
        let lifecycle = if requested == TransactionState::Terminated {
            TransactionLifecycle::Terminating
        } else {
            core.lifecycle
        };
        (
            TransactionCore { state: requested, lifecycle },
            TransitionOutcome::Applied {
                previous: core.state,
                emit_state_changed: spec_emits_events(lifecycle),
                start_grace_period: requested == TransactionState::Terminated && lifecycle
                    == TransactionLifecycle::Terminating,
            },
        )
    }
}

/// Handles a `TransitionTo` command: an unchanged state is skipped, a
/// transition the state machine refuses is reported, and any other moves the
/// transaction; entering Terminated starts the teardown (lifecycle Terminating).
pub fn apply_transition(
    core: &mut TransactionCore,
    kind: TransactionKind,
    requested: TransactionState,
) -> (r: TransitionOutcome)
    ensures
        (*final(core), r) == spec_apply_transition(*old(core), kind, requested),
{
    if core.state == requested {
        return TransitionOutcome::AlreadyInState;
    }
    match validate_transition(kind, core.state, requested) {
        Err(e) => TransitionOutcome::Rejected(e),
        Ok(()) => {
            let previous = core.state;
            core.state = requested;
            if requested == TransactionState::Terminated {
                core.lifecycle = TransactionLifecycle::Terminating;
            }
            let emit = core.should_emit_events();
            TransitionOutcome::Applied {
                previous,
                emit_state_changed: emit,
                start_grace_period: requested == TransactionState::Terminated && core.lifecycle
                    == TransactionLifecycle::Terminating,
            }
        },
    }
}

/// The StateChanged event could not be delivered because the Transaction
/// User's channel is closed. Outside test mode, and unless the transaction
/// was entering Terminated anyway, the transaction shuts down: it is marked
/// Terminated and its loop stops (`true`).
pub fn on_state_event_channel_closed(
    core: &mut TransactionCore,
    requested: TransactionState,
    test_mode: bool,
) -> (stop: bool)
    ensures
        stop == (!test_mode && requested != TransactionState::Terminated),
        stop ==> final(core).state == TransactionState::Terminated && final(core).lifecycle == old(core).lifecycle,
        !stop ==> *final(core) == *old(core),
{
    if test_mode || requested == TransactionState::Terminated {
        false
    } else {
        core.state = TransactionState::Terminated;
        true
    }
}

/// An error could not be reported because the Transaction User's channel is
/// closed: outside test mode the transaction shuts down.
pub fn on_error_event_channel_closed(core: &mut TransactionCore, test_mode: bool) -> (stop: bool)
    ensures
        stop == !test_mode,
        stop ==> final(core).state == TransactionState::Terminated && final(core).lifecycle == old(core).lifecycle,
        !stop ==> *final(core) == *old(core),
{
    if test_mode {
        false
    } else {
        core.state = TransactionState::Terminated;
        true
    }
}

/// What follows a transport error.
#[derive(Debug, Clone, Copy, PartialEq, Eq, Structural)]
pub enum TransportErrorOutcome {
    /// The Transaction User cannot be told: the transaction shut down.
    Shutdown,
    /// Ask the loop for a transition to Terminated.
    RequestTermination,
}

/// Handles a `TransportError` command once the TransportError event was
/// offered to the Transaction User; `event_channel_closed` tells whether
/// its channel turned out closed.
pub fn on_transport_error(
    core: &mut TransactionCore,
    event_channel_closed: bool,
    test_mode: bool,
) -> (r: TransportErrorOutcome)
    ensures
        event_channel_closed && !test_mode ==> r == TransportErrorOutcome::Shutdown && final(core).state == TransactionState::Terminated && final(core).lifecycle == old(core).lifecycle,
        !(event_channel_closed && !test_mode) ==> r == TransportErrorOutcome::RequestTermination
            && *final(core) == *old(core),
{
    if event_channel_closed && !test_mode {
        core.state = TransactionState::Terminated;
        TransportErrorOutcome::Shutdown
    } else {
        TransportErrorOutcome::RequestTermination
    }
}

/// The loop could not send itself a command: outside test mode the
/// transaction is marked Terminated and its loop stops.
pub fn on_self_command_failed(core: &mut TransactionCore, test_mode: bool) -> (stop: bool)
    ensures
        stop == !test_mode,
        stop ==> final(core).state == TransactionState::Terminated && final(core).lifecycle == old(core).lifecycle,
        !stop ==> *final(core) == *old(core),
{
    on_error_event_channel_closed(core, test_mode)
}

/// Handles a `Terminate` command: the transaction is marked Terminated and its loop stops.
pub fn terminate(core: &mut TransactionCore) -> (stop: bool)
    ensures
        stop,
        final(core).state == TransactionState::Terminated,
        final(core).lifecycle == old(core).lifecycle,
{
    core.state = TransactionState::Terminated;
    true
}

/// After each command: the loop stops once the lifecycle is Destroyed.
pub fn loop_should_stop(core: &TransactionCore) -> (stop: bool)
    ensures
        stop == (core.lifecycle == TransactionLifecycle::Destroyed),
{
    core.get_lifecycle() == TransactionLifecycle::Destroyed
}

/// When the loop ends: a TransactionTerminated event is sent when the state is Terminated.
pub fn report_termination_on_exit(core: &TransactionCore) -> (r: bool)
    ensures
        r == (core.state == TransactionState::Terminated),
{
    core.as_ref_state() == TransactionState::Terminated
}

/// The grace period after Terminated is over: events are no longer reported.
pub fn grace_period_elapsed(core: &mut TransactionCore)
    ensures
        *final(core) == (TransactionCore { lifecycle: TransactionLifecycle::Draining, ..*old(core) }),
{
    core.lifecycle = TransactionLifecycle::Draining;
}

/// The draining period is over: the transaction can be removed.
pub fn draining_period_elapsed(core: &mut TransactionCore)
    ensures
        *final(core) == (TransactionCore {
            lifecycle: TransactionLifecycle::Destroyed,
            ..*old(core)
        }),
{
    core.lifecycle = TransactionLifecycle::Destroyed;
}

/// Starting a client transaction: it must still be in Initial, and then it
/// is asked to enter Calling (INVITE) or Trying (non-INVITE).
pub fn initiate(kind: TransactionKind, current_state: TransactionState) -> (r: Result<
    TransactionState,
    Error,
>)
    ensures
        current_state == TransactionState::Initial ==> r == Ok::<TransactionState, Error>(
            spec_active_state(kind),
        ),
        current_state != TransactionState::Initial ==> r == Err::<TransactionState, Error>(
            Error::InvalidStateTransition {
                kind,
                from: current_state,
                to: spec_active_state(kind),
            },
        ),
{
    let target = active_state(kind);
    if current_state != TransactionState::Initial {
        return Err(Error::InvalidStateTransition { kind, from: current_state, to: target });
    }
    Ok(target)
}

/// What the loop does with the result of a logic call (a processed message
/// or a fired timer).
#[derive(Debug, Clone, Copy, PartialEq, Eq, Structural)]
pub enum LogicFollowUp {
    /// No state change was asked for.
    Nothing,
    /// Send the loop itself a `TransitionTo` for this state.
    TransitionTo(TransactionState),
    /// Report this error to the Transaction User (see
    /// [`on_error_event_channel_closed`] when that fails).
    ReportError(Error),
}

/// The follow-up of a logic result: a next state becomes a `TransitionTo`
/// command, an error is reported, and no next state asks for nothing.
pub fn dispatch_logic_result(result: Result<Option<TransactionState>, Error>) -> (r: LogicFollowUp)
    ensures
        r == match result {
            Ok(Some(s)) => LogicFollowUp::TransitionTo(s),
            Ok(None) => LogicFollowUp::Nothing,
            Err(e) => LogicFollowUp::ReportError(e),
        },
{
    match result {
        Ok(Some(s)) => LogicFollowUp::TransitionTo(s),
        Ok(None) => LogicFollowUp::Nothing,
        Err(e) => LogicFollowUp::ReportError(e),
    }
}

/// A command of the loop, as far as it changes the transaction's state or
/// lifecycle.
#[derive(Debug, Clone, Copy, PartialEq, Eq, Structural)]
pub enum RunnerCommand {
    /// A `TransitionTo` command.
    TransitionTo(TransactionState),
    /// A shutdown: a `Terminate` command, or a channel found closed outside
    /// test mode.
    Shutdown,
    /// The grace period after Terminated elapsed.
    GracePeriodElapsed,
    /// The draining period elapsed.
    DrainingPeriodElapsed,
}

/// The transaction after the loop handles one command.
pub open spec fn spec_runner_step(core: TransactionCore, kind: TransactionKind, c: RunnerCommand) -> TransactionCore {
    match c {
        RunnerCommand::TransitionTo(s) => spec_apply_transition(core, kind, s).0,
        RunnerCommand::Shutdown => TransactionCore { state: TransactionState::Terminated, ..core },
        RunnerCommand::GracePeriodElapsed => TransactionCore { lifecycle: TransactionLifecycle::Draining, ..core },
        RunnerCommand::DrainingPeriodElapsed => TransactionCore {
            lifecycle: TransactionLifecycle::Destroyed,
            ..core
        },
    }
}

/// The transaction after the loop handles a sequence of commands in order.
pub open spec fn spec_run(core: TransactionCore, kind: TransactionKind, cs: Seq<RunnerCommand>) -> TransactionCore
    decreases cs.len(),
{
    if cs.len() == 0 {
        core
    } else {
        spec_runner_step(spec_run(core, kind, cs.drop_last()), kind, cs.last())
    }
}

/// Handles one command on the transaction, through the runner's own steps.
pub fn run_command(core: &mut TransactionCore, kind: TransactionKind, c: RunnerCommand)
    ensures
        *final(core) == spec_runner_step(*old(core), kind, c),
{
    match c {
        RunnerCommand::TransitionTo(s) => {
            apply_transition(core, kind, s);
        },
        RunnerCommand::Shutdown => {
            terminate(core);
        },
        RunnerCommand::GracePeriodElapsed => grace_period_elapsed(core),
        RunnerCommand::DrainingPeriodElapsed => draining_period_elapsed(core),
    }
}

/// One command changes the state only along an allowed transition or to
/// Terminated, and leaves a Terminated transaction Terminated.
proof fn lemma_step_changes_state_only_by_valid_moves(a: TransactionCore, kind: TransactionKind, c: RunnerCommand)
    ensures
        ({
            let b = spec_runner_step(a, kind, c);
            &&& b.state != a.state ==> spec_valid_transition(kind, a.state, b.state)
                || b.state == TransactionState::Terminated
            &&& a.state == TransactionState::Terminated ==> b.state == TransactionState::Terminated
        }),
{
}

/// Over any sequence of commands, each state change is a transition the
/// state machine allows or a move to Terminated, and a Terminated
/// transaction stays Terminated.
pub proof fn lemma_run_changes_state_only_by_valid_moves(
    core: TransactionCore,
    kind: TransactionKind,
    cs: Seq<RunnerCommand>,
)
    ensures
        forall|i: int|
            0 <= i < cs.len() ==> {
                let a = #[trigger] spec_run(core, kind, cs.take(i));
                let b = spec_run(core, kind, cs.take(i + 1));
                &&& b.state != a.state ==> spec_valid_transition(kind, a.state, b.state)
                    || b.state == TransactionState::Terminated
                &&& a.state == TransactionState::Terminated ==> b.state == TransactionState::Terminated
            },
        core.state == TransactionState::Terminated ==> spec_run(core, kind, cs).state
            == TransactionState::Terminated,
    decreases cs.len(),
{
    assert forall|i: int| 0 <= i < cs.len() implies {
        let a = #[trigger] spec_run(core, kind, cs.take(i));
        let b = spec_run(core, kind, cs.take(i + 1));
        &&& b.state != a.state ==> spec_valid_transition(kind, a.state, b.state) || b.state
            == TransactionState::Terminated
        &&& a.state == TransactionState::Terminated ==> b.state == TransactionState::Terminated
    } by {
        assert(cs.take(i + 1).drop_last() =~= cs.take(i));
        assert(cs.take(i + 1).last() == cs[i]);
        lemma_step_changes_state_only_by_valid_moves(spec_run(core, kind, cs.take(i)), kind, cs[i]);
    }
    if cs.len() > 0 {
        lemma_run_changes_state_only_by_valid_moves(core, kind, cs.drop_last());
        lemma_step_changes_state_only_by_valid_moves(spec_run(core, kind, cs.drop_last()), kind, cs.last());
    }
}

/// Every runner step keeps the transaction well formed, never moves its
/// lifecycle backwards, and changes its state only along a transition the
/// state machine allows or by shutting it down to Terminated.
pub proof fn lemma_apply_transition_keeps_invariant(
    core: TransactionCore,
    kind: TransactionKind,
    requested: TransactionState,
)
    requires
        core.wf(),
    ensures
        ({
            let (next, outcome) = spec_apply_transition(core, kind, requested);
            &&& next.wf()
            &&& lifecycle_rank(next.lifecycle) >= lifecycle_rank(core.lifecycle)
            &&& next.state != core.state ==> spec_valid_transition(kind, core.state, next.state)
            &&& outcome matches TransitionOutcome::Applied { previous, emit_state_changed, .. }
                ==> previous == core.state && emit_state_changed
        }),
{
}

/// The teardown only moves forward: Terminating, then Draining, then
/// Destroyed, all while the state stays Terminated.
pub proof fn lemma_teardown_moves_forward(core: TransactionCore)
    requires
        core.wf(),
        core.state == TransactionState::Terminated,
    ensures
        (TransactionCore { lifecycle: TransactionLifecycle::Draining, ..core }).wf(),
        (TransactionCore { lifecycle: TransactionLifecycle::Destroyed, ..core }).wf(),
        lifecycle_rank(TransactionLifecycle::Draining) > lifecycle_rank(TransactionLifecycle::Terminating),
        lifecycle_rank(TransactionLifecycle::Destroyed) > lifecycle_rank(TransactionLifecycle::Draining),
{
}

/// A `TransitionTo` does what it asks whenever the state machine allows it:
/// the requested state is taken and the previous one reported, entering
/// Terminated starts the teardown (Terminating) and the state change is
/// reported while events are still delivered. Asking for the current state
/// changes nothing, and a transition the state machine refuses is reported
/// as rejected and changes nothing.
pub proof fn lemma_apply_transition_follows_request(
    core: TransactionCore,
    kind: TransactionKind,
    requested: TransactionState,
)
    ensures
        ({
            let (next, outcome) = spec_apply_transition(core, kind, requested);
            &&& requested == core.state ==> next == core && outcome == TransitionOutcome::AlreadyInState
            &&& requested != core.state && !spec_valid_transition(kind, core.state, requested) ==> next == core
                && outcome == TransitionOutcome::Rejected(
                InvalidTransition { kind, from: core.state, to: requested },
            )
            &&& requested != core.state && spec_valid_transition(kind, core.state, requested) ==> {
                &&& next.state == requested
                &&& requested == TransactionState::Terminated ==> next.lifecycle == TransactionLifecycle::Terminating
                &&& requested != TransactionState::Terminated ==> next.lifecycle == core.lifecycle
                &&& outcome matches TransitionOutcome::Applied { previous, emit_state_changed, start_grace_period }
                    && previous == core.state && emit_state_changed == (next.lifecycle
                    == TransactionLifecycle::Active || next.lifecycle == TransactionLifecycle::Terminating)
                    && start_grace_period == (requested == TransactionState::Terminated)
            }
        }),
{
}

} // verus!
