//! Verified core of a task-list application built on a
//! model / update / render architecture: the task-list model, the closed
//! set of messages that can change it, the pure transition function that
//! applies a message, and the pure projection function that renders the
//! model into a declarative view tree with event-to-message bindings.
//!
//! The runtime loop around the core (mounting the tree on a live UI,
//! diffing, executing focus commands) is an external collaborator and
//! lives outside this library.

pub mod model;
pub mod text;
pub mod view;
pub mod update;
pub mod laws;
