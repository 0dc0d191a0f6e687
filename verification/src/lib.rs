//! A minimal runtime for terminal applications built as a
//! message-driven state loop (model, update, view).
//!
//! An application supplies a state type together with `init`, `update` and
//! `view` callbacks (the [`App`] trait). The runtime keeps the loop alive:
//! every processed message causes at most one `update` call followed by
//! exactly one render, deferred work units (commands) travel over a
//! dedicated queue, and two built-in control messages (quit and batch)
//! are interpreted by the dispatcher itself.

pub mod app;
pub mod counter;
pub mod dispatcher;
pub mod executor;
pub mod laws;
pub mod message;
pub mod queue;
