//! Whole polls, and what holds of them.
//!
//! A poll is a step, at most one attempt on the operating system, and the
//! answer. The functions here put these together as the driver does, so that
//! properties of one poll and of rows of polls can be stated and proved.

use vstd::prelude::*;
use crate::event::{Async, Attempt, Direction, Ready, Step};
use crate::outgoing::OutgoingView;
use crate::pipe::{transferred, verdict, PipeState};

verus! {

/// What one whole read poll leaves behind.
pub struct ReadPoll<T, E> {
    /// The state of the pipe after the poll.
    pub state: PipeState<T>,
    /// The caller's output buffer after the poll.
    pub buf: Seq<u8>,
    /// What the poll answered.
    pub answer: Result<Async<usize>, E>,
    /// Whether the operating system was asked.
    pub consulted: bool,
}

/// What one whole write poll leaves behind.
pub struct WritePoll<T, E> {
    /// The state of the pipe after the poll.
    pub state: PipeState<T>,
    /// The caller's input buffer after the poll.
    pub buf: OutgoingView,
    /// What the poll answered.
    pub answer: Result<Async<usize>, E>,
    /// Whether the operating system was asked.
    pub consulted: bool,
}

/// One whole read poll on `state` with the output buffer `buf`, where the
/// operating system, if it is asked, reports `attempt` and leaves what it read
/// at the head of `scratch`.
pub open spec fn read_poll<T, E>(
    state: PipeState<T>,
    buf: Seq<u8>,
    attempt: Attempt<E>,
    scratch: Seq<u8>,
) -> ReadPoll<T, E> {
    match state.read_step().immediate() {
        Some(answer) => ReadPoll { state, buf, answer: Ok(answer), consulted: false },
        None => ReadPoll {
            state: state.settled(Direction::Read, attempt),
            buf: buf + scratch.take(transferred(attempt) as int),
            answer: verdict(attempt),
            consulted: true,
        },
    }
}

/// One whole write poll on `state` with the input buffer `buf`, where the
/// operating system, if it is asked, reports `attempt`.
pub open spec fn write_poll<T, E>(
    state: PipeState<T>,
    buf: OutgoingView,
    attempt: Attempt<E>,
) -> WritePoll<T, E> {
    match state.write_step(buf.remaining.len()).immediate() {
        Some(answer) => WritePoll { state, buf, answer: Ok(answer), consulted: false },
        None => WritePoll {
            state: state.settled(Direction::Write, attempt),
            buf: buf.advanced(transferred(attempt)),
            answer: verdict(attempt),
            consulted: true,
        },
    }
}

/// What a row of read polls leaves behind.
pub struct ReadRun<T> {
    /// The state of the pipe after the last poll.
    pub state: PipeState<T>,
    /// The caller's output buffer after the last poll.
    pub buf: Seq<u8>,
    /// How often the operating system was asked.
    pub consultations: nat,
}

/// A row of read polls, one after the other, with no event of the reactor in
/// between. `reports` holds for each poll what the operating system reports if
/// that poll asks it, and the scratch buffer it then leaves.
pub open spec fn read_polls<T, E>(
    state: PipeState<T>,
    buf: Seq<u8>,
    reports: Seq<(Attempt<E>, Seq<u8>)>,
) -> ReadRun<T>
    decreases reports.len(),
{
    if reports.len() == 0 {
        ReadRun { state, buf, consultations: 0 }
    } else {
        let before = read_polls(state, buf, reports.drop_last());
        let poll = read_poll(before.state, before.buf, reports.last().0, reports.last().1);
        ReadRun {
            state: poll.state,
            buf: poll.buf,
            consultations: before.consultations + if poll.consulted {
                1nat
            } else {
                0nat
            },
        }
    }
}

/// Whether the operating system has no data for any poll of the row: asked,
/// it reports each time that the read would block.
pub open spec fn starved<E>(reports: Seq<(Attempt<E>, Seq<u8>)>) -> bool {
    forall|i: int| 0 <= i < reports.len() ==> (#[trigger] reports[i]).0 is WouldBlock
}

/// A row of read polls without data leaves the output buffer, the handle and
/// the write readiness as they were. Read readiness is not ready after the
/// first poll, and the operating system is asked once where reading was ready
/// at the start, and never where it was not.
pub proof fn lemma_starved_reads_settle<T, E>(
    state: PipeState<T>,
    buf: Seq<u8>,
    reports: Seq<(Attempt<E>, Seq<u8>)>,
)
    requires
        starved(reports),
    ensures
        read_polls(state, buf, reports).buf == buf,
        read_polls(state, buf, reports).state == if reports.len() == 0 {
            state
        } else {
            state.cleared(Direction::Read)
        },
        read_polls(state, buf, reports).consultations == if reports.len() > 0 && state.read_ready {
            1nat
        } else {
            0nat
        },
    decreases reports.len(),
{
    if reports.len() > 0 {
        let earlier = reports.drop_last();
        assert forall|i: int| 0 <= i < earlier.len() implies (#[trigger] earlier[i]).0 is WouldBlock by {
            assert(earlier[i] == reports[i]);
        }
        lemma_starved_reads_settle(state, buf, earlier);
        let before = read_polls(state, buf, earlier);
        assert(reports.last() == reports[reports.len() - 1]);
        assert(before.buf + reports.last().1.take(0) =~= before.buf);
    }
}

/// Each poll of a row of read polls without data answers "not ready", and only
/// the first can ask the operating system: it does where reading was ready at
/// the start.
pub proof fn lemma_starved_reads_answer<T, E>(
    state: PipeState<T>,
    buf: Seq<u8>,
    reports: Seq<(Attempt<E>, Seq<u8>)>,
    index: int,
)
    requires
        starved(reports),
        0 <= index < reports.len(),
    ensures
        ({
            let before = read_polls(state, buf, reports.take(index));
            let poll = read_poll(before.state, before.buf, reports[index].0, reports[index].1);
            &&& poll.answer == Ok::<Async<usize>, E>(Async::NotReady)
            &&& poll.buf == buf
            &&& poll.state == state.cleared(Direction::Read)
            &&& poll.consulted == (index == 0 && state.read_ready)
        }),
{
    let earlier = reports.take(index);
    assert forall|i: int| 0 <= i < earlier.len() implies (#[trigger] earlier[i]).0 is WouldBlock by {
        assert(earlier[i] == reports[i]);
    }
    lemma_starved_reads_settle(state, buf, earlier);
    let before = read_polls(state, buf, earlier);
    assert(before.buf + reports[index].1.take(0) =~= before.buf);
}

/// After the operating system reported that `direction` would block, that
/// direction is not ready and the other is as before. The next poll in that
/// direction then suspends without an attempt, whatever is pending, and no
/// report of an attempt brings the readiness back: only an event of the
/// reactor that holds the direction does.
pub proof fn lemma_would_block_ends_readiness<T, E>(
    state: PipeState<T>,
    direction: Direction,
    pending: nat,
    later: Attempt<E>,
    later_direction: Direction,
    event: Ready,
)
    ensures
        ({
            let blocked = state.settled::<E>(direction, Attempt::WouldBlock);
            &&& !blocked.ready(direction)
            &&& blocked == state.cleared(direction)
            &&& blocked.step(direction, pending) == Step::Suspend
            &&& !blocked.settled(later_direction, later).ready(direction)
            &&& blocked.delivered(event).ready(direction) == event.contains(direction)
        }),
{
}

/// A read poll that follows a would-block on reading, with no event of the
/// reactor in between, answers "not ready" and changes nothing; the operating
/// system is not asked a second time.
pub proof fn lemma_read_poll_after_would_block<T, E>(
    state: PipeState<T>,
    buf: Seq<u8>,
    attempt: Attempt<E>,
    scratch: Seq<u8>,
)
    ensures
        ({
            let blocked = state.settled::<E>(Direction::Read, Attempt::WouldBlock);
            read_poll(blocked, buf, attempt, scratch) == (ReadPoll {
                state: blocked,
                buf,
                answer: Ok::<Async<usize>, E>(Async::NotReady),
                consulted: false,
            })
        }),
{
}

/// A write poll that follows a would-block on writing, with no event of the
/// reactor in between, answers "not ready" and changes nothing; the operating
/// system is not asked a second time.
pub proof fn lemma_write_poll_after_would_block<T, E>(
    state: PipeState<T>,
    buf: OutgoingView,
    attempt: Attempt<E>,
)
    ensures
        ({
            let blocked = state.settled::<E>(Direction::Write, Attempt::WouldBlock);
            write_poll(blocked, buf, attempt) == (WritePoll {
                state: blocked,
                buf,
                answer: Ok::<Async<usize>, E>(Async::NotReady),
                consulted: false,
            })
        }),
{
}

/// A read poll on a ready pipe to which the operating system hands `count`
/// bytes answers `count` and leaves exactly those bytes behind the earlier
/// ones in the output buffer: each once, in order, and nothing else.
pub proof fn lemma_read_delivers_exactly<T, E>(
    state: PipeState<T>,
    buf: Seq<u8>,
    count: usize,
    scratch: Seq<u8>,
)
    requires
        state.read_ready,
        count <= scratch.len(),
    ensures
        ({
            let poll = read_poll::<T, E>(state, buf, Attempt::Transferred(count), scratch);
            &&& poll.answer == Ok::<Async<usize>, E>(Async::Ready(count))
            &&& poll.consulted
            &&& poll.state == state
            &&& poll.buf.len() == buf.len() + count
            &&& forall|i: int| 0 <= i < buf.len() ==> poll.buf[i] == buf[i]
            &&& forall|i: int| 0 <= i < count ==> poll.buf[buf.len() + i] == scratch[i]
        }),
{
}

/// A write poll on a pipe that is ready for writing, with nothing to write,
/// answers zero bytes without asking the operating system, and changes
/// nothing.
pub proof fn lemma_empty_write_completes<T, E>(
    state: PipeState<T>,
    buf: OutgoingView,
    attempt: Attempt<E>,
)
    requires
        state.write_ready,
        buf.remaining.len() == 0,
    ensures
        write_poll(state, buf, attempt) == (WritePoll {
            state,
            buf,
            answer: Ok::<Async<usize>, E>(Async::Ready(0)),
            consulted: false,
        }),
{
}

} // verus!
