//! A message-broker logging agent: the connection-lifecycle and consumption
//! state machine of a long-running subscriber that appends each received
//! message as one line of an append-only log file.
//!
//! The library holds the verified core: the session state machine (connect,
//! subscribe, bounded reconnect, shutdown), the consumption-loop decisions,
//! and the log-record formatting. The surrounding process (broker transport,
//! file output, configuration parsing) drives the machine from outside and
//! performs the actions it decides.

pub mod config;
pub mod record;
pub mod session;
