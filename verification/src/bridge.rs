//! The byte-stream read bridge.
//!
//! The HTTP/2 engine reads through a structured buffer handle: the callee
//! fills the buffer's uninitialized tail and then advances the handle by
//! the number of bytes actually written. The scheduler's streams instead
//! fill a caller-provided slice and return the count. The bridge adapts
//! the two: it hands the handle's tail to the inner stream, and on a
//! successful read advances the handle by exactly the count the inner
//! stream reported — once, and never more. Errors keep their identity,
//! pending stays pending (the inner stream registers the very waker the
//! caller supplied), and a zero-byte read is forwarded as a successful
//! zero advance.

use vstd::prelude::*;

verus! {

/// What one poll of the inner byte stream produced: a count of bytes
/// written into the supplied slice, an error, or not ready yet.
#[derive(Clone, Copy, Debug, PartialEq, Eq)]
pub enum InnerReadPoll<E> {
    /// `n` bytes were written into the tail slice (`n == 0` signals either
    /// "no bytes now" or end of stream, depending on the stream type).
    Bytes(usize),
    /// The read failed; the error is handed on unchanged.
    Failed(E),
    /// The stream is not ready; the caller's waker is registered.
    Pending,
}

/// What the bridged read reports to the engine.
#[derive(Clone, Copy, Debug, PartialEq, Eq)]
pub enum BridgedReadPoll<E> {
    /// The buffer handle was advanced by the bytes read; the engine reads
    /// the count off the handle.
    Completed,
    /// The inner read failed; the error kind is preserved.
    Failed(E),
    /// Not ready; the engine's waker will fire when the inner stream does.
    Pending,
}

/// The caller-visible state of the engine's buffer handle: how many bytes
/// of its capacity are filled. The bytes themselves belong to the engine;
/// the bridge only ever moves the fill line.
pub struct ReadWindow {
    filled: usize,
    capacity: usize,
}

impl ReadWindow {
    /// The total capacity of the buffer behind the handle.
    pub closed spec fn capacity(&self) -> nat {
        self.capacity as nat
    }

    /// How many bytes of the buffer are filled.
    pub closed spec fn filled_bytes(&self) -> nat {
        self.filled as nat
    }

    /// The fill line never passes the buffer's end.
    pub open spec fn wf(&self) -> bool {
        self.filled_bytes() <= self.capacity()
    }

    /// How much room the uninitialized tail has.
    pub open spec fn spec_remaining(&self) -> int {
        self.capacity() - self.filled_bytes()
    }

    /// A handle over an empty buffer of the given capacity.
    pub fn new(capacity: usize) -> (w: ReadWindow)
        ensures
            w.wf(),
            w.capacity() == capacity,
            w.filled_bytes() == 0,
    {
        ReadWindow { filled: 0, capacity }
    }

    /// How many bytes the uninitialized tail can take.
    pub fn remaining(&self) -> (n: usize)
        requires
            self.wf(),
        ensures
            n == self.spec_remaining(),
    {
        self.capacity - self.filled
    }

    /// How many bytes of the buffer are filled.
    pub fn filled(&self) -> (n: usize)
        ensures
            n == self.filled_bytes(),
    {
        self.filled
    }

    /// Move the fill line forward by `n` bytes just written to the tail.
    pub fn advance(&mut self, n: usize)
        requires
            old(self).wf(),
            n <= old(self).spec_remaining(),
        ensures
            final(self).wf(),
            final(self).capacity() == old(self).capacity(),
            final(self).filled_bytes() == old(self).filled_bytes() + n,
    {
        self.filled = self.filled + n;
    }
}

/// Adapt one poll of the inner stream to the engine's contract.
///
/// On a successful inner read of `n` bytes the window advances by exactly
/// `n` — in particular a zero-byte read is a successful zero advance. On
/// an error or on pending the window is untouched, and the error value is
/// passed through unchanged.
pub fn bridge_read<E>(window: &mut ReadWindow, inner: InnerReadPoll<E>) -> (out: BridgedReadPoll<
    E,
>)
    requires
        old(window).wf(),
        inner matches InnerReadPoll::Bytes(n) ==> n <= old(window).spec_remaining(),
    ensures
        final(window).wf(),
        final(window).capacity() == old(window).capacity(),
        inner matches InnerReadPoll::Bytes(n) ==> final(window).filled_bytes() == old(
            window,
        ).filled_bytes() + n && out is Completed,
        inner matches InnerReadPoll::Failed(e) ==> *final(window) == *old(window) && out
            == BridgedReadPoll::Failed(e),
        inner is Pending ==> *final(window) == *old(window) && out is Pending,
{
    match inner {
        InnerReadPoll::Bytes(n) => {
            window.advance(n);
            BridgedReadPoll::Completed
        },
        InnerReadPoll::Failed(e) => BridgedReadPoll::Failed(e),
        InnerReadPoll::Pending => BridgedReadPoll::Pending,
    }
}

} // verus!
