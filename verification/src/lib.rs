//! Delegated, time-bounded sessions: an account owner lets a delegate key
//! perform a restricted set of actions on its behalf until a block height is
//! reached.
//!
//! A session is opened by the owner itself, or by the delegate with the
//! owner's signature over the request. An owner has at most one session at a
//! time. A session ends when its expiry block is reached, and is taken off
//! file by a cleanup that the program schedules for itself when it grants
//! the session, or earlier by the owner.
//!
//! The library decides and keeps the sessions on file. It does not read the
//! chain or send messages: a [`Storage`] is handed the sender and the
//! [`Clock`] with each request, says in a [`PendingCleanup`] what is to be
//! scheduled, and is told how that went.
//!
//! ```text
//! let pending = storage.create_session(&sender, &clock, request, signature)?;
//! let scheduled = /* send the delayed cleanup message */;
//! let event = storage.settle_cleanup(pending, scheduled)?;
//! let delivered = /* emit the event */;
//! settle_event(event, delivered)?;
//! ```
//!
//! - [`types`]: accounts, requests, sessions, events and errors.
//! - [`expiry`]: when a session ends.
//! - [`payload`]: the bytes an owner signs.
//! - [`signature`]: checking a signature over them.
//! - [`store`]: the table of sessions.
//! - [`rules`]: what each operation answers and leaves on file.
//! - [`service`]: the operations.
//! - [`laws`]: what holds of the operations whatever the requests are.
//! - [`actions`]: a set of actions for a turn-based game.

pub mod actions;
pub mod expiry;
pub mod laws;
pub mod payload;
pub mod rules;
pub mod service;
pub mod signature;
pub mod store;
pub mod types;

pub use actions::ActionsForSession;
pub use service::{settle_event, PendingCleanup, Storage};
pub use store::SessionMap;
pub use types::{
    AccountId, ActionTag, Clock, Config, SessionData, SessionError, SessionEvent, SignatureData,
};
