//! Peer discovery over a shared publish/subscribe bus.
//!
//! A node announces itself with a DISCOVER message and every peer that hears it
//! answers with an INFO message on a topic scoped to the announcing node. This
//! crate holds the protocol itself: topic naming, the wire format of the two
//! messages, the listeners' state machine and the supervisor's routing of
//! outbound publications. It performs no I/O: the runtime hands events in and
//! carries the returned actions out.

pub mod config;
pub mod channel;
