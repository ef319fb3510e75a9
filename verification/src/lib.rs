//! Session orchestration for a multi-round word-guessing game, and a game of
//! pebbles.
//!
//! The orchestrator stands between users and a guessing service. It keeps one
//! session per user, matches each reply of the service with the request that
//! asked for it, parks the handling of a message until the reply arrives, and
//! ends a game that the service leaves unanswered for too long.
//!
//! Nothing in this crate sends or receives: every call takes what the host
//! received and hands back what the host is to send.
//!
//! - [`ids`]: identifiers of actors and messages.
//! - [`messages`]: what users, the orchestrator and the guessing service say to
//!   each other.
//! - [`word`]: the shape that a guess must have.
//! - [`session`]: the record of one user, and what each message does to it.
//! - [`store`]: the records of all users.
//! - [`directive`]: what a call asks the host to send.
//! - [`orchestrator`]: the sessions of all users behind one entry point per
//!   kind of message.
//! - [`laws`]: what holds of the orchestrator on every input.
//! - [`error`]: why a call is turned down.
//! - [`pebbles`]: the pebbles game.
pub mod directive;
pub mod error;
pub mod ids;
pub mod laws;
pub mod messages;
pub mod orchestrator;
pub mod pebbles;
pub mod session;
pub mod store;
pub mod word;
