//! The input of a write: bytes with a cursor that moves past what was written.

use vstd::prelude::*;

verus! {

/// The mathematical view of an [`Outgoing`] buffer.
pub struct OutgoingView {
    /// How many bytes the cursor has moved past.
    pub consumed: nat,
    /// The bytes from the cursor to the end, which are still to be written.
    pub remaining: Seq<u8>,
}

impl OutgoingView {
    /// The view after the cursor moved `count` bytes on.
    pub open spec fn advanced(self, count: nat) -> OutgoingView {
        OutgoingView {
            consumed: self.consumed + count,
            remaining: self.remaining.skip(count as int),
        }
    }
}

/// Bytes that wait to be written, with a cursor at the first of them.
pub struct Outgoing<'a> {
    data: &'a [u8],
    position: usize,
}

impl<'a> View for Outgoing<'a> {
    type V = OutgoingView;

    closed spec fn view(&self) -> OutgoingView {
        OutgoingView {
            consumed: self.position as nat,
            remaining: self.data@.skip(self.position as int),
        }
    }
}

impl<'a> Outgoing<'a> {
    #[verifier::type_invariant]
    spec fn in_bounds(self) -> bool {
        self.position <= self.data@.len()
    }

    /// A buffer over `data` with the cursor at its start.
    pub fn new(data: &'a [u8]) -> (buf: Outgoing<'a>)
        ensures
            buf@ == (OutgoingView { consumed: 0, remaining: data@ }),
    {
        let buf = Outgoing { data, position: 0 };
        assert(buf@.remaining =~= data@);
        buf
    }

    /// The number of bytes that the cursor has moved past.
    pub fn position(&self) -> (position: usize)
        ensures
            position == self@.consumed,
    {
        self.position
    }

    /// The number of bytes that are still to be written.
    pub fn remaining(&self) -> (count: usize)
        ensures
            count == self@.remaining.len(),
    {
        proof {
            use_type_invariant(self);
        }
        self.data.len() - self.position
    }

    /// The bytes that are still to be written.
    pub fn bytes(&self) -> (bytes: &[u8])
        ensures
            bytes@ == self@.remaining,
    {
        proof {
            use_type_invariant(self);
        }
        vstd::slice::slice_subrange(self.data, self.position, self.data.len())
    }

    /// Moves the cursor `count` bytes on.
    pub fn advance(&mut self, count: usize)
        requires
            count <= old(self)@.remaining.len(),
        ensures
            final(self)@ == old(self)@.advanced(count as nat),
    {
        proof {
            use_type_invariant(&*self);
        }
        let end: usize = self.data.len();
        assert(self@.remaining.len() == end - self.position);
        self.position = self.position + count;
        assert(self.data@.skip(self.position as int) == old(self).data@.skip(
            old(self).position as int,
        ).skip(count as int));
    }
}

} // verus!
