use vstd::prelude::*;

verus! {

/// The four transaction state machines of RFC 3261 Section 17.
#[derive(Debug, Clone, Copy, PartialEq, Eq, Structural, Hash)]
pub enum TransactionKind {
    /// INVITE client transaction (RFC 3261 Section 17.1.1).
    InviteClient,
    /// Non-INVITE client transaction (RFC 3261 Section 17.1.2).
    NonInviteClient,
    /// INVITE server transaction (RFC 3261 Section 17.2.1).
    InviteServer,
    /// Non-INVITE server transaction (RFC 3261 Section 17.2.2).
    NonInviteServer,
}

/// The states a transaction moves through.
#[derive(Debug, Clone, Copy, PartialEq, Eq, Structural, Hash)]
pub enum TransactionState {
    Initial,
    Calling,
    Trying,
    Proceeding,
    Completed,
    Confirmed,
    Terminated,
}

/// Where a transaction stands in its teardown, beside its RFC state.
#[derive(Debug, Clone, Copy, PartialEq, Eq, Structural, Hash)]
pub enum TransactionLifecycle {
    /// Processing messages and reporting events.
    Active,
    /// Reached Terminated; events are still reported during a grace period.
    Terminating,
    /// Grace period over; events are no longer reported.
    Draining,
    /// Ready to be removed from the manager.
    Destroyed,
}

/// The state a transaction of this kind is created in.
pub open spec fn spec_start_state(kind: TransactionKind) -> TransactionState {
    match kind {
        TransactionKind::NonInviteServer => TransactionState::Trying,
        _ => TransactionState::Initial,
    }
}

/// The state a client transaction enters when its request is first sent,
/// or a server transaction once the manager has set it up.
pub open spec fn spec_active_state(kind: TransactionKind) -> TransactionState {
    match kind {
        TransactionKind::InviteClient => TransactionState::Calling,
        TransactionKind::NonInviteClient => TransactionState::Trying,
        TransactionKind::InviteServer => TransactionState::Proceeding,
        TransactionKind::NonInviteServer => TransactionState::Trying,
    }
}

/// The transitions that the state machine of each kind allows (RFC 3261
/// Figures 5 to 8). Any state but Terminated may move to Terminated, as a
/// transport error or a forced termination can end a transaction at any time.
pub open spec fn spec_valid_transition(
    kind: TransactionKind,
    from: TransactionState,
    to: TransactionState,
) -> bool {
    if from == TransactionState::Terminated {
        false
    } else if to == TransactionState::Terminated {
        true
    } else {
        match kind {
            TransactionKind::InviteClient => match (from, to) {
                (TransactionState::Initial, TransactionState::Calling) => true,
                (TransactionState::Calling, TransactionState::Proceeding) => true,
                (TransactionState::Calling, TransactionState::Completed) => true,
                (TransactionState::Proceeding, TransactionState::Completed) => true,
                _ => false,
            },
            TransactionKind::NonInviteClient => match (from, to) {
                (TransactionState::Initial, TransactionState::Trying) => true,
                (TransactionState::Trying, TransactionState::Proceeding) => true,
                (TransactionState::Trying, TransactionState::Completed) => true,
                (TransactionState::Proceeding, TransactionState::Completed) => true,
                _ => false,
            },
            TransactionKind::InviteServer => match (from, to) {
                (TransactionState::Initial, TransactionState::Proceeding) => true,
                (TransactionState::Proceeding, TransactionState::Completed) => true,
                (TransactionState::Completed, TransactionState::Confirmed) => true,
                _ => false,
            },
            TransactionKind::NonInviteServer => match (from, to) {
                (TransactionState::Initial, TransactionState::Trying) => true,
                (TransactionState::Trying, TransactionState::Proceeding) => true,
                (TransactionState::Trying, TransactionState::Completed) => true,
                (TransactionState::Proceeding, TransactionState::Completed) => true,
                _ => false,
            },
        }
    }
}

/// Why a requested state transition was refused.
#[derive(Debug, Clone, Copy, PartialEq, Eq, Structural)]
pub struct InvalidTransition {
    pub kind: TransactionKind,
    pub from: TransactionState,
    pub to: TransactionState,
}

/// Checks a transition against the state machine of `kind`.
pub fn validate_transition(
    kind: TransactionKind,
    from: TransactionState,
    to: TransactionState,
) -> (res: Result<(), InvalidTransition>)
    ensures
        res is Ok <==> spec_valid_transition(kind, from, to),
        res matches Err(e) ==> e == (InvalidTransition { kind, from, to }),
{
    let ok = if from == TransactionState::Terminated {
        false
    } else if to == TransactionState::Terminated {
        true
    } else {
        match kind {
            TransactionKind::InviteClient => match (from, to) {
                (TransactionState::Initial, TransactionState::Calling) => true,
                (TransactionState::Calling, TransactionState::Proceeding) => true,
                (TransactionState::Calling, TransactionState::Completed) => true,
                (TransactionState::Proceeding, TransactionState::Completed) => true,
                _ => false,
            },
            TransactionKind::NonInviteClient => match (from, to) {
                (TransactionState::Initial, TransactionState::Trying) => true,
                (TransactionState::Trying, TransactionState::Proceeding) => true,
                (TransactionState::Trying, TransactionState::Completed) => true,
                (TransactionState::Proceeding, TransactionState::Completed) => true,
                _ => false,
            },
            TransactionKind::InviteServer => match (from, to) {
                (TransactionState::Initial, TransactionState::Proceeding) => true,
                (TransactionState::Proceeding, TransactionState::Completed) => true,
                (TransactionState::Completed, TransactionState::Confirmed) => true,
                _ => false,
            },
            TransactionKind::NonInviteServer => match (from, to) {
                (TransactionState::Initial, TransactionState::Trying) => true,
                (TransactionState::Trying, TransactionState::Proceeding) => true,
                (TransactionState::Trying, TransactionState::Completed) => true,
                (TransactionState::Proceeding, TransactionState::Completed) => true,
                _ => false,
            },
        }
    };
    if ok {
        Ok(())
    } else {
        Err(InvalidTransition { kind, from, to })
    }
}

/// The state a transaction of `kind` is created in.
pub fn start_state(kind: TransactionKind) -> (s: TransactionState)
    ensures
        s == spec_start_state(kind),
{
    match kind {
        TransactionKind::NonInviteServer => TransactionState::Trying,
        _ => TransactionState::Initial,
    }
}

/// The state a transaction of `kind` enters when it starts its work.
pub fn active_state(kind: TransactionKind) -> (s: TransactionState)
    ensures
        s == spec_active_state(kind),
{
    match kind {
        TransactionKind::InviteClient => TransactionState::Calling,
        TransactionKind::NonInviteClient => TransactionState::Trying,
        TransactionKind::InviteServer => TransactionState::Proceeding,
        TransactionKind::NonInviteServer => TransactionState::Trying,
    }
}

/// The name of a kind, as it is displayed.
pub fn kind_name(kind: TransactionKind) -> (s: &'static str)
    ensures
        kind == TransactionKind::InviteClient ==> s@ == "InviteClient"@,
        kind == TransactionKind::NonInviteClient ==> s@ == "NonInviteClient"@,
        kind == TransactionKind::InviteServer ==> s@ == "InviteServer"@,
        kind == TransactionKind::NonInviteServer ==> s@ == "NonInviteServer"@,
{
    match kind {
        TransactionKind::InviteClient => "InviteClient",
        TransactionKind::NonInviteClient => "NonInviteClient",
        TransactionKind::InviteServer => "InviteServer",
        TransactionKind::NonInviteServer => "NonInviteServer",
    }
}

/// Terminated is a final state: no transition leaves it, in any kind.
pub proof fn lemma_terminated_is_final(kind: TransactionKind, to: TransactionState)
    ensures
        !spec_valid_transition(kind, TransactionState::Terminated, to),
{
}

/// Every state but Terminated can be ended, in every kind.
pub proof fn lemma_termination_always_allowed(kind: TransactionKind, from: TransactionState)
    requires
        from != TransactionState::Terminated,
    ensures
        spec_valid_transition(kind, from, TransactionState::Terminated),
{
}

/// Every transaction can leave its start state for its active state.
pub proof fn lemma_start_to_active(kind: TransactionKind)
    ensures
        kind != TransactionKind::NonInviteServer ==> spec_valid_transition(
            kind,
            spec_start_state(kind),
            spec_active_state(kind),
        ),
        kind == TransactionKind::NonInviteServer ==> spec_start_state(kind) == spec_active_state(kind),
{
}

/// The transitions of RFC 3261 Figures 5 to 8: nothing leaves Terminated,
/// every other state may end in Terminated, and the other moves are exactly:
/// INVITE client Initial to Calling, Calling to Proceeding or Completed,
/// Proceeding to Completed; non-INVITE client and non-INVITE server Initial
/// to Trying, Trying to Proceeding or Completed, Proceeding to Completed;
/// INVITE server Initial to Proceeding, Proceeding to Completed, Completed to
/// Confirmed.
pub proof fn lemma_transitions_follow_rfc(kind: TransactionKind, from: TransactionState, to: TransactionState)
    ensures
        from == TransactionState::Terminated ==> !spec_valid_transition(kind, from, to),
        from != TransactionState::Terminated && to == TransactionState::Terminated ==> spec_valid_transition(
            kind,
            from,
            to,
        ),
        to != TransactionState::Terminated ==> (spec_valid_transition(kind, from, to) <==> match kind {
            TransactionKind::InviteClient => (from == TransactionState::Initial && to == TransactionState::Calling)
                || (from == TransactionState::Calling && to == TransactionState::Proceeding)
                || (from == TransactionState::Calling && to == TransactionState::Completed)
                || (from == TransactionState::Proceeding && to == TransactionState::Completed),
            TransactionKind::InviteServer => (from == TransactionState::Initial && to
                == TransactionState::Proceeding) || (from == TransactionState::Proceeding && to
                == TransactionState::Completed) || (from == TransactionState::Completed && to
                == TransactionState::Confirmed),
            _ => (from == TransactionState::Initial && to == TransactionState::Trying)
                || (from == TransactionState::Trying && to == TransactionState::Proceeding)
                || (from == TransactionState::Trying && to == TransactionState::Completed)
                || (from == TransactionState::Proceeding && to == TransactionState::Completed),
        }),
{
}

/// The state a transaction starts in and the one it enters when it begins
/// its work: a client INVITE transaction sends in Calling, a non-INVITE
/// client and a non-INVITE server transaction work in Trying (the server one
/// is created there), and an INVITE server transaction starts in Proceeding.
pub proof fn lemma_start_states_follow_rfc(kind: TransactionKind)
    ensures
        kind == TransactionKind::InviteClient ==> spec_active_state(kind) == TransactionState::Calling
            && spec_start_state(kind) == TransactionState::Initial,
        kind == TransactionKind::NonInviteClient ==> spec_active_state(kind) == TransactionState::Trying
            && spec_start_state(kind) == TransactionState::Initial,
        kind == TransactionKind::InviteServer ==> spec_active_state(kind) == TransactionState::Proceeding
            && spec_start_state(kind) == TransactionState::Initial,
        kind == TransactionKind::NonInviteServer ==> spec_active_state(kind) == TransactionState::Trying
            && spec_start_state(kind) == TransactionState::Trying,
{
}

} // verus!
