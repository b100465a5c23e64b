//! Turns repository issue comments into sandboxed automation jobs.
//!
//! The crate holds the three subsystems that carry the design: an
//! insertion-ordered job queue with long-poll watchers, a checkout
//! protocol that maps a job to a synchronized working copy, and a
//! capability-scoped script sandbox.  Filesystem, network and
//! interpreter effects go through narrow trusted wrappers; every
//! decision around them is verified.

pub mod gitops;
pub mod job;
pub mod queue;
pub mod sandbox;
pub mod webhook;
pub mod numfmt;

pub use numfmt::u64_to_string;
