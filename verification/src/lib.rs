//! A minimal process supervisor core: it keeps track of a fixed set of child
//! processes, relays termination signals to them and decides when the
//! supervisor itself is done.
//!
//! The crate holds the decisions and the channel plumbing; spawning children,
//! waiting on them and signalling them by pid is left to the program that
//! embeds it.

pub mod channel;
pub mod config;
pub mod coordinator;
pub mod error;
pub mod flag;
pub mod process;
pub mod signal;
pub mod supervisor;
