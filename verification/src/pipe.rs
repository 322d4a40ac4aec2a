//! The readiness-tracked handle and the poll decisions made on it.

use vstd::prelude::*;
use crate::event::{Async, Attempt, Direction, Ready, Step};
use crate::outgoing::Outgoing;
use crate::staging::{stage, SCRATCH_SIZE};

verus! {

/// The mathematical view of a [`NamedPipe`]: the handle it owns and one
/// readiness flag for each direction.
pub struct PipeState<T> {
    pub handle: T,
    pub read_ready: bool,
    pub write_ready: bool,
}

impl<T> PipeState<T> {
    /// The state of a pipe that was just taken over: no readiness event has
    /// been seen yet in either direction.
    pub open spec fn fresh(handle: T) -> PipeState<T> {
        PipeState { handle, read_ready: false, write_ready: false }
    }

    /// Whether `direction` is ready.
    pub open spec fn ready(self, direction: Direction) -> bool {
        match direction {
            Direction::Read => self.read_ready,
            Direction::Write => self.write_ready,
        }
    }

    /// The state with `direction` forced to not-ready.
    pub open spec fn cleared(self, direction: Direction) -> PipeState<T> {
        match direction {
            Direction::Read => PipeState { read_ready: false, ..self },
            Direction::Write => PipeState { write_ready: false, ..self },
        }
    }

    /// The state after the reactor delivered `event`: every direction in the
    /// event is ready, the other keeps its flag.
    pub open spec fn delivered(self, event: Ready) -> PipeState<T> {
        PipeState {
            read_ready: self.read_ready || event.readable,
            write_ready: self.write_ready || event.writable,
            ..self
        }
    }

    /// What a readiness query on `direction` answers.
    pub open spec fn query(self, direction: Direction) -> Async<Ready> {
        if self.ready(direction) {
            Async::Ready(Ready::only(direction))
        } else {
            Async::NotReady
        }
    }

    /// The next step of a read poll: suspend while reading is not ready, else
    /// one attempt into a scratch buffer.
    pub open spec fn read_step(self) -> Step {
        if self.read_ready {
            Step::Attempt { limit: SCRATCH_SIZE }
        } else {
            Step::Suspend
        }
    }

    /// The next step of a write poll with `pending` bytes to write: suspend
    /// while writing is not ready; else complete at once where nothing is to be
    /// written, and otherwise make one attempt to write the pending bytes.
    pub open spec fn write_step(self, pending: nat) -> Step {
        if !self.write_ready {
            Step::Suspend
        } else if pending == 0 {
            Step::Complete
        } else {
            Step::Attempt { limit: pending as usize }
        }
    }

    /// The next step of a poll in `direction`, with `pending` bytes to write
    /// where the direction is writing.
    pub open spec fn step(self, direction: Direction, pending: nat) -> Step {
        match direction {
            Direction::Read => self.read_step(),
            Direction::Write => self.write_step(pending),
        }
    }

    /// The state after an attempt in `direction` reported `attempt`: a
    /// would-block ends the readiness of that direction, anything else leaves
    /// the state as it was.
    pub open spec fn settled<E>(self, direction: Direction, attempt: Attempt<E>) -> PipeState<T> {
        match attempt {
            Attempt::WouldBlock => self.cleared(direction),
            _ => self,
        }
    }
}

/// What a poll answers once its attempt reported `attempt`.
pub open spec fn verdict<E>(attempt: Attempt<E>) -> Result<Async<usize>, E> {
    match attempt {
        Attempt::Transferred(count) => Ok(Async::Ready(count)),
        Attempt::WouldBlock => Ok(Async::NotReady),
        Attempt::Failed(error) => Err(error),
    }
}

/// The number of bytes that `attempt` moved.
pub open spec fn transferred<E>(attempt: Attempt<E>) -> nat {
    match attempt {
        Attempt::Transferred(count) => count as nat,
        _ => 0,
    }
}

/// The readiness-tracked handle of one named pipe.
///
/// It owns the handle `T` of its driver, which it never looks into, and
/// remembers for each direction whether the reactor has reported readiness
/// since the operating system last answered that it would block. The handle
/// is released once, when the pipe is dropped.
#[derive(Debug)]
pub struct NamedPipe<T> {
    handle: T,
    read_ready: bool,
    write_ready: bool,
}

impl<T> View for NamedPipe<T> {
    type V = PipeState<T>;

    closed spec fn view(&self) -> PipeState<T> {
        PipeState { handle: self.handle, read_ready: self.read_ready, write_ready: self.write_ready }
    }
}

impl<T> NamedPipe<T> {
    /// Takes over a pipe that exists already. No direction is ready until
    /// the reactor says so.
    pub fn from_pipe(handle: T) -> (pipe: NamedPipe<T>)
        ensures
            pipe@ == PipeState::fresh(handle),
    {
        NamedPipe { handle, read_ready: false, write_ready: false }
    }

    /// Takes over the pipe that the driver tried to create: the pipe around
    /// the new handle, or the error of the creation as it came.
    pub fn new<E>(created: Result<T, E>) -> (pipe: Result<NamedPipe<T>, E>)
        ensures
            match created {
                Ok(handle) => pipe is Ok && pipe->Ok_0@ == PipeState::fresh(handle),
                Err(error) => pipe == Err::<NamedPipe<T>, E>(error),
            },
    {
        match created {
            Ok(handle) => Ok(NamedPipe::from_pipe(handle)),
            Err(error) => Err(error),
        }
    }

    /// Hands on the result of the system call that connects the pipe. The
    /// call is not gated by readiness: its result is the answer as it came,
    /// and the pipe is as before.
    pub fn connect<E>(&self, outcome: Result<(), E>) -> (answer: Result<(), E>)
        ensures
            answer == outcome,
    {
        outcome
    }

    /// Hands on the result of the system call that disconnects the pipe, as
    /// it came, whether or not a connection was made before. The pipe is as
    /// before.
    pub fn disconnect<E>(&self, outcome: Result<(), E>) -> (answer: Result<(), E>)
        ensures
            answer == outcome,
    {
        outcome
    }

    /// Hands on the result of a blocking read. No readiness is asked for or
    /// changed, and a would-block is an error like any other.
    pub fn read<E>(&self, outcome: Result<usize, E>) -> (answer: Result<usize, E>)
        ensures
            answer == outcome,
    {
        outcome
    }

    /// Hands on the result of a blocking write. No readiness is asked for or
    /// changed, and a would-block is an error like any other.
    pub fn write<E>(&self, outcome: Result<usize, E>) -> (answer: Result<usize, E>)
        ensures
            answer == outcome,
    {
        outcome
    }

    /// The handle of this pipe, for use with other interfaces of the
    /// operating system. Its ownership stays with the pipe.
    pub fn as_raw_handle(&self) -> (handle: &T)
        ensures
            *handle == self@.handle,
    {
        &self.handle
    }

    /// The handle of this pipe, for the system calls of the driver. Whatever
    /// the driver does through it, the readiness flags stay as they are.
    pub fn io_mut(&mut self) -> (handle: &mut T)
        ensures
            *handle == old(self)@.handle,
            final(self)@ == (PipeState { handle: *final(handle), ..old(self)@ }),
    {
        &mut self.handle
    }

    /// Whether reading is ready. Nothing is changed and no system call is
    /// asked for.
    pub fn poll_read_ready_readable(&self) -> (ready: Async<Ready>)
        ensures
            ready == self@.query(Direction::Read),
    {
        if self.read_ready {
            Async::Ready(Ready::readable())
        } else {
            Async::NotReady
        }
    }

    /// Whether writing is ready. Nothing is changed and no system call is
    /// asked for.
    pub fn poll_write_ready(&self) -> (ready: Async<Ready>)
        ensures
            ready == self@.query(Direction::Write),
    {
        if self.write_ready {
            Async::Ready(Ready::writable())
        } else {
            Async::NotReady
        }
    }

    /// Forces reading to not-ready. Only an event of the reactor makes it
    /// ready again.
    pub fn clear_read_ready(&mut self)
        ensures
            final(self)@ == old(self)@.cleared(Direction::Read),
    {
        self.read_ready = false;
    }

    /// Forces writing to not-ready. Only an event of the reactor makes it
    /// ready again.
    pub fn clear_write_ready(&mut self)
        ensures
            final(self)@ == old(self)@.cleared(Direction::Write),
    {
        self.write_ready = false;
    }

    /// Records a readiness event of the reactor: each direction in `event` is
    /// ready from now on.
    pub fn deliver(&mut self, event: Ready)
        ensures
            final(self)@ == old(self)@.delivered(event),
    {
        if event.is_readable() {
            self.read_ready = true;
        }
        if event.is_writable() {
            self.write_ready = true;
        }
    }

    /// The next step of a read poll. While reading is not ready the driver
    /// suspends without a system call; else it makes one read attempt of at
    /// most [`SCRATCH_SIZE`] bytes and hands the report to
    /// [`NamedPipe::read_buf`].
    pub fn read_step(&self) -> (step: Step)
        ensures
            step == self@.read_step(),
    {
        if self.read_ready {
            Step::Attempt { limit: SCRATCH_SIZE }
        } else {
            Step::Suspend
        }
    }

    /// Finishes a read poll whose attempt reported `attempt`, with the bytes
    /// it received at the head of `scratch`.
    ///
    /// Bytes that were read are copied behind the bytes of `buf`, in order,
    /// and their number is the answer. A would-block ends read readiness and
    /// answers "not ready". Any other failure is handed on as it came, and
    /// touches neither the readiness nor `buf`.
    pub fn read_buf<E>(
        &mut self,
        attempt: Attempt<E>,
        scratch: &[u8],
        buf: &mut Vec<u8>,
    ) -> (answer: Result<Async<usize>, E>)
        requires
            transferred(attempt) <= scratch@.len(),
            old(buf)@.len() + transferred(attempt) <= usize::MAX,
        ensures
            answer == verdict(attempt),
            final(self)@ == old(self)@.settled(Direction::Read, attempt),
            final(buf)@ == old(buf)@ + scratch@.take(transferred(attempt) as int),
    {
        match attempt {
            Attempt::Transferred(count) => {
                stage(scratch, count, buf);
                Ok(Async::Ready(count))
            },
            Attempt::WouldBlock => {
                self.clear_read_ready();
                assert(buf@ == old(buf)@ + scratch@.take(0));
                Ok(Async::NotReady)
            },
            Attempt::Failed(error) => {
                assert(buf@ == old(buf)@ + scratch@.take(0));
                Err(error)
            },
        }
    }

    /// The next step of a write poll for the bytes of `buf`. While writing is
    /// not ready the driver suspends; with nothing to write the poll completes
    /// with zero bytes; in neither case is a system call made. Else the driver
    /// makes one attempt to write the remaining bytes and hands the report to
    /// [`NamedPipe::write_buf`].
    pub fn write_step(&self, buf: &Outgoing) -> (step: Step)
        ensures
            step == self@.write_step(buf@.remaining.len()),
    {
        let pending: usize = buf.remaining();
        if !self.write_ready {
            Step::Suspend
        } else if pending == 0 {
            Step::Complete
        } else {
            Step::Attempt { limit: pending }
        }
    }

    /// Finishes a write poll whose attempt on the remaining bytes of `buf`
    /// reported `attempt`.
    ///
    /// The cursor of `buf` moves past the bytes that were written, and their
    /// number is the answer. A would-block ends write readiness and answers
    /// "not ready". Any other failure is handed on as it came, and touches
    /// neither the readiness nor `buf`.
    pub fn write_buf<E>(&mut self, attempt: Attempt<E>, buf: &mut Outgoing) -> (answer: Result<Async<usize>, E>)
        requires
            transferred(attempt) <= old(buf)@.remaining.len(),
        ensures
            answer == verdict(attempt),
            final(self)@ == old(self)@.settled(Direction::Write, attempt),
            final(buf)@ == old(buf)@.advanced(transferred(attempt)),
    {
        match attempt {
            Attempt::Transferred(count) => {
                buf.advance(count);
                Ok(Async::Ready(count))
            },
            Attempt::WouldBlock => {
                self.clear_write_ready();
                assert(buf@.remaining == old(buf)@.remaining.skip(0));
                Ok(Async::NotReady)
            },
            Attempt::Failed(error) => {
                assert(buf@.remaining == old(buf)@.remaining.skip(0));
                Err(error)
            },
        }
    }

    /// Asks for the write side to be closed. A named pipe has no half-close:
    /// nothing is done, and the answer is always that it is complete.
    pub fn shutdown(&mut self) -> (done: Async<()>)
        ensures
            done == Async::Ready(()),
            final(self)@ == old(self)@,
    {
        Async::Ready(())
    }
}

} // verus!
