//! A verified session orchestrator for per-user, turn-based guessing games.
//!
//! Each user owns one independent session. The orchestrator interprets
//! inbound actions, coordinates with an external word-checking service
//! through correlated request/reply messages, and enforces a per-guess
//! deadline through self-scheduled timeout messages. The orchestrator is
//! pure state-machine logic: every entry operation maps the current session
//! table and an incoming event to the next table and an effect value that
//! the surrounding runtime performs (send, reply, wake, schedule).

pub mod laws;
pub mod messages;
pub mod session;
pub mod orchestrator;
pub mod table;
