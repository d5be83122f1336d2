use vstd::prelude::*;
use crate::state::{TransactionKind, TransactionState};

verus! {

/// The errors of the transaction layer.
#[derive(Debug, Clone, Copy, PartialEq, Eq, Structural)]
pub enum Error {
    /// The transport could not send a message.
    Transport,
    /// A state transition that the state machine of `kind` does not allow.
    InvalidStateTransition { kind: TransactionKind, from: TransactionState, to: TransactionState },
    /// No transaction has the key given.
    TransactionNotFound,
    /// A client operation was given a server transaction, or the reverse.
    UnexpectedKind { kind: TransactionKind },
    /// The request's method does not suit the transaction or operation.
    WrongMethod,
    /// The request lacks a header field that the operation needs.
    MissingHeader(HeaderField),
    /// The request has more Via header fields than the operation allows.
    TooManyVias,
    /// The To header field lacks a tag where one is needed.
    MissingToTag,
    /// The From header field lacks a tag where one is needed.
    MissingFromTag,
    /// The request's top Via carries no branch parameter.
    MissingBranch,
    /// A dialog request lacks one of To, From, Call-ID and CSeq.
    IncompleteDialogRequest,
    /// No destination is known for the transaction.
    DestinationNotFound,
}

/// Header fields the transaction layer checks for.
#[derive(Debug, Clone, Copy, PartialEq, Eq, Structural)]
pub enum HeaderField {
    CallId,
    From,
    To,
    CSeq,
    Via,
    MaxForwards,
}

} // verus!
