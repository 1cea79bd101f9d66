//! Authentication and authorization core of a privilege-elevation tool.
//!
//! The crate has two halves:
//!
//! * [`converse`] — the message model and conversation bridge that carries
//!   authentication prompts and responses across a foreign synchronous
//!   callback interface, together with the converser capabilities that
//!   answer those prompts.
//! * [`pipeline`] — the orchestration pipeline that sequences policy
//!   evaluation, authentication, environment assembly and the hand-off to
//!   the command executor, enforcing its ordering invariants.

pub mod context;
pub mod converse;
pub mod error;
pub mod pipeline;
