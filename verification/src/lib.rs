//! A readiness-driven core for asynchronous byte streams over a named pipe.
//!
//! The crate holds the decisions of a non-blocking pipe adapter and none of its
//! system calls. A driver owns the operating-system handle and the reactor
//! registration; it asks the [`NamedPipe`] what to do next, performs at most one
//! non-blocking attempt, and hands back what the operating system reported.
//! Every decision is stated as a contract over [`PipeState`], the mathematical
//! view of a pipe, and the properties that relate several polls are proved in
//! [`laws`].

pub mod event;
pub mod laws;
pub mod outgoing;
pub mod pipe;
pub mod staging;

pub use event::{Async, Attempt, Direction, Ready, Step};
pub use outgoing::{Outgoing, OutgoingView};
pub use pipe::{NamedPipe, PipeState};
pub use staging::SCRATCH_SIZE;
