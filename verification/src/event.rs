//! The values that pass between the pipe core and its driver.

use vstd::prelude::*;

verus! {

/// One of the two directions of a pipe. Readiness is tracked for each alone.
#[derive(Clone, Copy, Debug, PartialEq, Eq, Structural)]
pub enum Direction {
    Read,
    Write,
}

/// A set of directions, as a reactor reports it in one readiness event.
#[derive(Clone, Copy, Debug, PartialEq, Eq, Structural)]
pub struct Ready {
    pub readable: bool,
    pub writable: bool,
}

impl Ready {
    /// Whether the set holds `direction`.
    pub open spec fn contains(self, direction: Direction) -> bool {
        match direction {
            Direction::Read => self.readable,
            Direction::Write => self.writable,
        }
    }

    /// The set that holds `direction` and nothing else.
    pub open spec fn only(direction: Direction) -> Ready {
        match direction {
            Direction::Read => Ready { readable: true, writable: false },
            Direction::Write => Ready { readable: false, writable: true },
        }
    }

    /// The set without a direction.
    pub fn empty() -> (ready: Ready)
        ensures
            ready == (Ready { readable: false, writable: false }),
    {
        Ready { readable: false, writable: false }
    }

    /// Read readiness alone.
    pub fn readable() -> (ready: Ready)
        ensures
            ready == Ready::only(Direction::Read),
    {
        Ready { readable: true, writable: false }
    }

    /// Write readiness alone.
    pub fn writable() -> (ready: Ready)
        ensures
            ready == Ready::only(Direction::Write),
    {
        Ready { readable: false, writable: true }
    }

    pub fn is_readable(&self) -> (b: bool)
        ensures
            b == self.contains(Direction::Read),
    {
        self.readable
    }

    pub fn is_writable(&self) -> (b: bool)
        ensures
            b == self.contains(Direction::Write),
    {
        self.writable
    }
}

/// The answer of a poll: a value now, or none yet.
#[derive(Debug, PartialEq, Eq)]
pub enum Async<T> {
    Ready(T),
    NotReady,
}

/// What the operating system reported for one non-blocking read or write.
///
/// The error type `E` is the driver's. The core never looks into an error: it
/// hands a `Failed` one on as it came.
#[derive(Debug, PartialEq, Eq)]
pub enum Attempt<E> {
    /// The call moved this many bytes.
    Transferred(usize),
    /// The call could not complete at once. This is a scheduling signal, no
    /// failure.
    WouldBlock,
    /// The call failed for any other reason.
    Failed(E),
}

impl<E> Attempt<E> {
    /// The report that stands for `outcome`, the result of a non-blocking
    /// call, where `would_block` says of an error that it is the operating
    /// system's "would block".
    pub open spec fn classified(outcome: Result<usize, E>, would_block: bool) -> Attempt<E> {
        match outcome {
            Ok(count) => Attempt::Transferred(count),
            Err(error) => if would_block {
                Attempt::WouldBlock
            } else {
                Attempt::Failed(error)
            },
        }
    }

    /// Sorts the result of a non-blocking call: bytes moved, the scheduling
    /// signal "would block", or a failure that keeps its error.
    pub fn classify(outcome: Result<usize, E>, would_block: bool) -> (attempt: Attempt<E>)
        ensures
            attempt == Attempt::classified(outcome, would_block),
    {
        match outcome {
            Ok(count) => Attempt::Transferred(count),
            Err(error) => if would_block {
                Attempt::WouldBlock
            } else {
                Attempt::Failed(error)
            },
        }
    }
}

/// What the driver has to do next for a poll.
#[derive(Clone, Copy, Debug, PartialEq, Eq, Structural)]
pub enum Step {
    /// Report "not ready" to the caller. The operating system is not consulted.
    Suspend,
    /// Report zero bytes transferred to the caller. The operating system is not
    /// consulted.
    Complete,
    /// Make one non-blocking call that moves at most `limit` bytes, and hand
    /// back what it reported.
    Attempt { limit: usize },
}

impl Step {
    /// The answer of a poll that ends at this step, where it ends there:
    /// "not ready" for a suspension, zero bytes for a completion. An attempt
    /// has no answer before the operating system reported.
    pub open spec fn immediate(self) -> Option<Async<usize>> {
        match self {
            Step::Suspend => Some(Async::NotReady),
            Step::Complete => Some(Async::Ready(0)),
            Step::Attempt { .. } => None,
        }
    }

    /// The answer of a poll that ends at this step without a system call, or
    /// `None` where an attempt has to be made first.
    pub fn answer(&self) -> (answer: Option<Async<usize>>)
        ensures
            answer == self.immediate(),
    {
        match self {
            Step::Suspend => Some(Async::NotReady),
            Step::Complete => Some(Async::Ready(0)),
            Step::Attempt { .. } => None,
        }
    }
}

} // verus!
