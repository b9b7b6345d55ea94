//! The buffer-refill / cursor-advance state machine.

use vstd::prelude::*;

use crate::source::ByteSource;
use crate::source::IoError;
use crate::source::MemSource;

verus! {

/// Exact replay, for any capacity: pulling every byte of an in-memory
/// source through a buffer of any positive size — however the chunk
/// boundaries fall — reproduces the source's bytes exactly, in order: none
/// dropped, duplicated, reordered, or invented.  Only the empty source is
/// refused, under the strict construction policy.
pub fn replay(data: Vec<u8>, capacity: usize) -> (r: Result<Vec<u8>, IoError>)
    requires
        1 <= capacity,
    ensures
        match r {
            Ok(v) => v@ == data@ && data@.len() > 0,
            Err(e) => data@.len() == 0 && e == IoError::EmptySource,
        },
{
    let source = MemSource::new(data);
    match BufBytes::with_capacity(source, capacity) {
        Ok(mut bytes) => Ok(bytes.read_to_end()),
        Err(e) => Err(e),
    }
}

/// A buffered byte-at-a-time iterator over a byte source.
///
/// The structure owns the source and a fixed-capacity buffer, reused in
/// place across refills.  A cursor marks the next unread byte; a boundary
/// marks how much of the buffer holds real data from the most recent fill.
/// When the cursor reaches the boundary, the next request refills the buffer
/// from the source.  A fill that yields zero bytes or a failure terminates
/// the iteration permanently; the failure, if any, is recorded in a sticky
/// field that `get_err` and `try_block` expose.
///
/// Construction follows the strict empty-source policy: a source whose very
/// first fill yields zero bytes is rejected with `IoError::EmptySource`
/// rather than turned into an iterator that ends immediately.
#[derive(Debug)]
pub struct BufBytes<B: ByteSource> {
    base: B,
    buf: Vec<u8>,
    cursor: usize,
    valid: usize,
    finished: bool,
    error: Option<IoError>,
}

impl<B: ByteSource> BufBytes<B> {
    /// Well-formedness: the cursor never passes the valid-data boundary, the
    /// boundary never passes the capacity, a recorded failure implies the
    /// terminal state, and the terminal state leaves nothing buffered —
    /// nothing pending at all when it was reached by plain exhaustion.
    pub closed spec fn wf(&self) -> bool {
        &&& self.cursor <= self.valid <= self.buf@.len()
        &&& 1 <= self.buf@.len()
        &&& (self.error is Some ==> self.finished)
        &&& (self.finished ==> self.cursor == self.valid)
        &&& (self.finished && self.error is None ==> self.base.remaining().len() == 0)
    }

    /// The unread bytes of the buffer: from the cursor up to the boundary.
    pub closed spec fn buffered(&self) -> Seq<u8> {
        self.buf@.subrange(self.cursor as int, self.valid as int)
    }

    /// The bytes still to be yielded, absent failures: the unread part of
    /// the buffer, then whatever the source has left.
    pub closed spec fn pending(&self) -> Seq<u8> {
        self.buffered() + self.base.remaining()
    }

    /// The sticky error: the failure recorded by the most recent fill.
    pub closed spec fn last_error(&self) -> Option<IoError> {
        self.error
    }

    /// Whether iteration has reached a terminal state (exhausted or failed).
    pub closed spec fn terminated(&self) -> bool {
        self.finished
    }

    /// The buffer's capacity, fixed at construction.
    pub closed spec fn capacity(&self) -> nat {
        self.buf@.len()
    }

    /// Whether the owned source is one that never reports a failure.
    pub closed spec fn source_infallible(&self) -> bool {
        self.base.infallible()
    }

    /// Create an iterator over `base` with the default capacity of 8192
    /// bytes.  The very first fill happens here; a failure, or a source that
    /// is empty on that fill, is a construction error.
    pub fn new(base: B) -> (r: Result<Self, IoError>)
        ensures
            match r {
                Ok(bb) => {
                    &&& bb.wf()
                    &&& bb.pending() == base.remaining()
                    &&& bb.last_error() is None
                    &&& !bb.terminated()
                    &&& bb.capacity() == 8192
                    &&& bb.source_infallible() == base.infallible()
                    &&& base.remaining().len() > 0
                }
                Err(e) => base.infallible() ==> {
                    &&& base.remaining().len() == 0
                    &&& e == IoError::EmptySource
                }
            },
            base.remaining().len() == 0 ==> r is Err,
    {
        Self::with_capacity(base, 8192)
    }

    /// Create an iterator over `base` with a buffer of exactly `size`
    /// bytes.  The very first fill happens here; a failure, or a source that
    /// is empty on that fill, is a construction error.
    pub fn with_capacity(base: B, size: usize) -> (r: Result<Self, IoError>)
        requires
            1 <= size,
        ensures
            match r {
                Ok(bb) => {
                    &&& bb.wf()
                    &&& bb.pending() == base.remaining()
                    &&& bb.last_error() is None
                    &&& !bb.terminated()
                    &&& bb.capacity() == size
                    &&& bb.source_infallible() == base.infallible()
                    &&& base.remaining().len() > 0
                }
                Err(e) => base.infallible() ==> {
                    &&& base.remaining().len() == 0
                    &&& e == IoError::EmptySource
                }
            },
            base.remaining().len() == 0 ==> r is Err,
    {
        let ghost rem0 = base.remaining();
        let mut source = base;
        let mut buf: Vec<u8> = vec![0u8; size];
        match source.read(&mut buf) {
            Err(e) => Err(e),
            Ok(0) => Err(IoError::EmptySource),
            Ok(n) => {
                let bb = BufBytes {
                    base: source,
                    buf,
                    cursor: 0,
                    valid: n,
                    finished: false,
                    error: None,
                };
                proof {
                    assert(bb.pending() =~= rem0);
                }
                Ok(bb)
            }
        }
    }

    /// Refill the buffer from the source, overwriting it from offset 0.
    /// Returns true when fresh bytes arrived; on a zero-byte fill or a
    /// failure the iterator enters its terminal state, and the failure, if
    /// any, is recorded.
    fn refill_buffer(&mut self) -> (ok: bool)
        requires
            old(self).wf(),
            !old(self).terminated(),
            old(self).buffered().len() == 0,
        ensures
            final(self).wf(),
            final(self).capacity() == old(self).capacity(),
            final(self).source_infallible() == old(self).source_infallible(),
            ok ==> {
                &&& !final(self).terminated()
                &&& final(self).last_error() is None
                &&& final(self).buffered().len() > 0
                &&& final(self).pending() == old(self).pending()
            },
            !ok ==> {
                &&& final(self).terminated()
                &&& (final(self).last_error() is None ==> old(self).pending().len() == 0)
                &&& (old(self).source_infallible() ==> final(self).last_error() is None)
            },
    {
        match self.base.read(&mut self.buf) {
            Err(e) => {
                self.cursor = 0;
                self.valid = 0;
                self.error = Some(e);
                self.finished = true;
                false
            }
            Ok(0) => {
                self.cursor = 0;
                self.valid = 0;
                self.finished = true;
                false
            }
            Ok(n) => {
                self.cursor = 0;
                self.valid = n;
                proof {
                    assert(self.pending() =~= old(self).pending());
                }
                true
            }
        }
    }

    /// Yield the byte under the cursor, refilling the buffer first when
    /// every buffered byte has been consumed.  Returns nothing once the
    /// source is exhausted or a fill has failed, and from then on returns
    /// nothing forever; the two terminal states are told apart by
    /// `get_err`, not by the yielded item.
    pub fn next_byte(&mut self) -> (r: Option<u8>)
        requires
            old(self).wf(),
        ensures
            final(self).wf(),
            final(self).capacity() == old(self).capacity(),
            final(self).source_infallible() == old(self).source_infallible(),
            r is None <==> final(self).terminated(),
            old(self).terminated() ==> *final(self) == *old(self),
            old(self).last_error() is Some ==> final(self).last_error() == old(self).last_error(),
            old(self).source_infallible() ==> final(self).last_error() == old(self).last_error(),
            match r {
                Some(b) => {
                    &&& old(self).pending().len() > 0
                    &&& b == old(self).pending()[0]
                    &&& final(self).pending() == old(self).pending().skip(1)
                    &&& final(self).last_error() is None
                }
                None => {
                    &&& (!old(self).terminated() ==> old(self).buffered().len() == 0)
                    &&& (final(self).last_error() is None ==> old(self).pending().len() == 0
                        && final(self).pending().len() == 0)
                }
            },
    {
        if self.finished {
            return None;
        }
        if self.cursor == self.valid {
            if !self.refill_buffer() {
                return None;
            }
        }
        let ghost mid = *self;
        let b: u8 = self.buf[self.cursor];
        self.cursor = self.cursor + 1;
        proof {
            assert(mid.pending() == old(self).pending());
            assert(b == mid.pending()[0]);
            assert(self.buffered() =~= mid.buffered().skip(1));
            assert(self.pending() =~= mid.pending().skip(1));
        }
        Some(b)
    }

    /// Consume the iterator to a terminal state, collecting every yielded
    /// byte in order.
    ///
    /// Absent a failure the result is exactly the pending stream — the
    /// source's bytes replayed unchanged, whatever capacity the buffer was
    /// given.  When a fill fails partway, the pass ends early with the
    /// clean prefix yielded before the failure: no byte is dropped,
    /// duplicated, reordered, or invented.
    pub fn read_to_end(&mut self) -> (r: Vec<u8>)
        requires
            old(self).wf(),
        ensures
            final(self).wf(),
            final(self).terminated(),
            final(self).capacity() == old(self).capacity(),
            final(self).source_infallible() == old(self).source_infallible(),
            r@.len() <= old(self).pending().len(),
            r@ == old(self).pending().take(r@.len() as int),
            final(self).last_error() is None ==> r@ == old(self).pending(),
            old(self).last_error() is Some ==> r@.len() == 0 && final(self).last_error()
                == old(self).last_error(),
            old(self).source_infallible() ==> final(self).last_error() == old(self).last_error(),
            old(self).terminated() ==> r@.len() == 0,
    {
        let mut out: Vec<u8> = Vec::new();
        let mut done: bool = false;
        while !done
            invariant
                self.wf(),
                self.capacity() == old(self).capacity(),
                self.source_infallible() == old(self).source_infallible(),
                self.last_error() is None ==> out@ + self.pending() == old(self).pending(),
                out@.len() <= old(self).pending().len(),
                out@ == old(self).pending().take(out@.len() as int),
                old(self).last_error() is Some ==> out@.len() == 0 && self.last_error()
                    == old(self).last_error(),
                old(self).source_infallible() ==> self.last_error() == old(self).last_error(),
                old(self).terminated() ==> out@.len() == 0 && self.terminated(),
                done ==> self.terminated(),
            decreases
                (if done { 0int } else { 1int }),
                (if self.terminated() { 0int } else { 1int }),
                self.pending().len(),
        {
            let ghost head = *self;
            match self.next_byte() {
                Some(b) => {
                    out.push(b);
                    proof {
                        assert(head.pending() =~= old(self).pending().skip(
                            (out@.len() - 1) as int,
                        ));
                        assert(out@ + self.pending() =~= old(self).pending());
                        assert(out@ =~= old(self).pending().take(out@.len() as int));
                    }
                }
                None => {
                    done = true;
                }
            }
        }
        out
    }

    /// Run a whole consumption pass, then surface the sticky error.
    ///
    /// The closure drives the iterator as it pleases and computes a result;
    /// afterwards, if any fill during the pass (or an earlier one) failed,
    /// that failure is returned and the result discarded — so a caller
    /// learns atomically whether an entire pass was clean, instead of
    /// checking for an error at every step.
    pub fn try_block<T, F: Fn(&mut Self) -> T>(&mut self, f: F) -> (r: Result<T, &IoError>)
        requires
            forall|m: &mut Self| mut_ref_current(m) == *old(self) ==> call_requires(f, (m,)),
        ensures
            r matches Err(e) ==> final(self).last_error() == Some(*e),
            r is Ok ==> final(self).last_error() is None,
            exists|m: &mut Self, t: T|
                {
                    &&& #[trigger] call_ensures(f, (m,), t)
                    &&& mut_ref_current(m) == *old(self)
                    &&& mut_ref_future(m) == *final(self)
                    &&& (r matches Ok(v) ==> v == t)
                },
    {
        let t = f(self);
        match &self.error {
            Some(err) => Err(err),
            None => Ok(t),
        }
    }

    /// Read-only access to the sticky error recorded by a failed fill.
    pub fn get_err(&self) -> (r: &Option<IoError>)
        ensures
            *r == self.last_error(),
    {
        &self.error
    }
}

} // verus!
