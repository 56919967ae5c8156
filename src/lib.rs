//! Decision core of a TCP relay that ends its own process once no connection
//! has shown activity for a configured period.
//!
//! Each long-running task of the relay is a state machine here: the runtime
//! hands it an event, and it answers with the next action to perform.
//! The runtime owns every socket, timer and channel; this crate owns the rules.

pub mod lifecycle;
pub mod session;
pub mod watchdog;
