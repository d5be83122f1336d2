//! The SIP transaction layer of RFC 3261 Section 17: transaction identification,
//! the client and server transaction state machines, the decisions of the event
//! loop that drives them, CANCEL and ACK matching, and the bookkeeping of the
//! transaction manager. Every decision here is a function from plain values to
//! plain values; sending messages, sleeping and channels are left to the caller.

pub mod addressing;
pub mod branch;
pub mod cancel;
pub mod client_invite;
pub mod client_non_invite;
pub mod client_quick;
pub mod common_logic;
pub mod dialog;
pub mod drafts;
pub mod error;
pub mod event;
pub mod key;
pub mod manager;
pub mod message;
pub mod method;
pub mod request_builders;
pub mod response_builders;
pub mod routing;
pub mod runner;
pub mod server_non_invite;
pub mod server_quick;
pub mod sip_types;
pub mod state;
pub mod subscriptions;
pub mod table;
pub mod text_scan;
pub mod timer;
pub mod update;
pub mod validators;
