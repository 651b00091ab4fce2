//! Topic administration for a broker cluster: validated invocations, the
//! session configuration handed to the client library, reconciliation of the
//! broker's per-topic results, and the state machine that drives one command.
pub mod config;
pub mod dispatch;
pub mod kafka;
pub mod numeral;
pub mod reconcile;
pub mod session;
