//! Unlocks a KeePassXC database over the session bus when its user logs in.
//!
//! This library holds the decisions of a login module: which path a user's
//! configuration names, where the user's bus is and how long to wait for it,
//! which calls are made on the bus and in which order, whether the peer that
//! answers is the KeePassXC that the service manager started, how a worker
//! is detached from the login, and what the host is told. It does none of
//! the work on the outside itself: each part is a step function that takes
//! in what has happened and says what to do next, and the module around it
//! asks the host, reads files, talks on the bus and forks.
//!
//! - [`config`]: the user, the configuration, and the paths they name.
//! - [`bus`]: the address of the user's bus, and the waiting for it.
//! - [`request`]: the calls on the bus.
//! - [`peer`]: the test of the peer.
//! - [`unlock`]: one attempt to unlock, from connecting to the call.
//! - [`detach`]: the double fork.
//! - [`handoff`]: the slot that carries the credential between two phases.
//! - [`check`]: the check of the login.
//! - [`session`]: the start of the session.
//! - [`text`]: character sequences.

pub mod bus;
pub mod check;
pub mod config;
pub mod detach;
pub mod handoff;
pub mod peer;
pub mod request;
pub mod session;
pub mod text;
pub mod unlock;
