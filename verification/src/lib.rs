//! Per-robot actor supervision model for a fleet of field robots.
//!
//! Each robot is reachable over up to two hardware links (a low-power radio
//! link and a companion-computer link). The modules here hold the verified
//! decision logic of the supervision tree: the bounded-retry health probe,
//! the battery mapping, the protocol-bridge state machines, the per-link
//! supervisors and the top-level robot actor. All I/O stays outside; these
//! types consume plain events and return the effects the caller must perform.

pub mod actor;
pub mod battery;
pub mod codec;
pub mod lua;
pub mod companion;
pub mod probe;
pub mod radio;
pub mod relay;
pub mod serial;
pub mod shell;
pub mod types;
