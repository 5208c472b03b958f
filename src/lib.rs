//! Decision core of a process watchdog: it parses a denylist of process
//! names, picks the running processes that must be terminated, classifies
//! the outcome of each kill request and drives the poll / recover cycle as a
//! state machine whose actions are carried out by the caller.

pub mod denylist;
pub mod enforce;
pub mod notice;
pub mod watchdog;
