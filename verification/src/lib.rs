//! A configurable, append-only log-line formatter.
//!
//! The crate centres on two verified components: a plain configuration
//! value ([`TheLoggerConfig`]) mutated through builder-style calls, and a
//! record formatter ([`render::compose_line`]) that turns one configuration
//! snapshot, a timestamp, a call site and a message into a single log line.
//! A shared store ([`store::TheLogger`]) guards one configuration behind a
//! reader/writer lock so that every rendered line reflects one consistent
//! snapshot.

pub mod clock;
pub mod config;
pub mod render;
pub mod store;

pub use clock::Timestamp;
pub use clock::current_timestamp;
pub use config::LogLevel;
pub use config::TheLoggerConfig;
pub use render::compose_line;
pub use store::TheLogger;
