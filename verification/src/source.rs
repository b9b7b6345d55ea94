//! The collaborator contract: a pull-based byte source, and two concrete
//! sources of the library's own.

use vstd::prelude::*;

verus! {

/// An I/O failure reported while filling the buffer, or — under the strict
/// construction policy — the failure reserved for a source that is empty on
/// the very first fill.
#[derive(Clone, Copy, Debug, PartialEq, Eq, Structural)]
pub enum IoError {
    /// The very first fill returned zero bytes.
    EmptySource,
    /// A fill reported a read failure.
    ReadFailed,
}

/// A pull-based byte source: fills a caller-supplied buffer on demand.
///
/// The abstract state of a source is `remaining()`, the stream of bytes it
/// has yet to deliver.  A successful fill writes some prefix of that stream
/// into the front of the buffer, consumes it, and never changes the buffer's
/// length; into a non-empty buffer it reports zero bytes only once the
/// stream is empty, and zero bytes with no error means permanent end of
/// data.  A source for which `infallible()` holds never reports a read
/// failure.  Nothing is assumed of `remaining()` after a failure: the
/// consumer must not fill again.
pub trait ByteSource {
    /// The bytes this source has yet to deliver.
    ///
    /// Sources verified against this trait give the stream a concrete
    /// definition.  An implementation outside the verifier's view inherits
    /// this default — an unspecified stream — and is trusted to behave as
    /// the contract on `read` says it does.
    open spec fn remaining(&self) -> Seq<u8> {
        vstd::pervasive::arbitrary()
    }

    /// Whether every fill on this source is guaranteed to succeed.  By
    /// default a source makes no such promise.
    open spec fn infallible(&self) -> bool {
        false
    }

    /// Write up to `buf.len()` bytes into the front of `buf`; report how
    /// many were written, or a read failure.
    fn read(&mut self, buf: &mut Vec<u8>) -> (r: Result<usize, IoError>)
        ensures
            final(buf)@.len() == old(buf)@.len(),
            final(self).infallible() == old(self).infallible(),
            old(self).infallible() ==> r is Ok,
            match r {
                Ok(n) => {
                    &&& n <= old(buf)@.len()
                    &&& n <= old(self).remaining().len()
                    &&& final(buf)@.subrange(0, n as int) == old(self).remaining().subrange(
                        0,
                        n as int,
                    )
                    &&& final(self).remaining() == old(self).remaining().skip(n as int)
                    &&& (n == 0 && old(buf)@.len() > 0 ==> old(self).remaining().len() == 0)
                }
                Err(_) => true,
            },
    ;
}

/// An in-memory byte source: delivers the bytes of a vector in order and
/// never fails.
#[derive(Debug)]
pub struct MemSource {
    data: Vec<u8>,
    pos: usize,
}

impl MemSource {
    /// The source that will deliver exactly the bytes of `data`, in order.
    pub fn new(data: Vec<u8>) -> (s: Self)
        ensures
            s.remaining() == data@,
            s.infallible(),
    {
        MemSource { data, pos: 0 }
    }
}

impl ByteSource for MemSource {
    closed spec fn remaining(&self) -> Seq<u8> {
        if self.pos <= self.data@.len() {
            self.data@.skip(self.pos as int)
        } else {
            Seq::empty()
        }
    }

    closed spec fn infallible(&self) -> bool {
        true
    }

    fn read(&mut self, buf: &mut Vec<u8>) -> (r: Result<usize, IoError>) {
        if self.pos >= self.data.len() || buf.len() == 0 {
            proof {
                assert(self.remaining() =~= old(self).remaining().skip(0));
            }
            return Ok(0usize);
        }
        let avail: usize = self.data.len() - self.pos;
        let n: usize = if buf.len() < avail {
            buf.len()
        } else {
            avail
        };
        let mut i: usize = 0;
        while i < n
            invariant
                i <= n,
                n >= 1,
                self == old(self),
                self.pos + n <= self.data@.len(),
                self.pos + n <= usize::MAX,
                n <= buf@.len(),
                buf@.len() == old(buf)@.len(),
                forall|j: int| 0 <= j < i ==> buf@[j] == self.data@[self.pos + j],
            decreases n - i,
        {
            let b: u8 = self.data[self.pos + i];
            buf[i] = b;
            i += 1;
        }
        self.pos = self.pos + n;
        proof {
            assert(buf@.subrange(0, n as int) =~= old(self).remaining().subrange(0, n as int));
            assert(self.remaining() =~= old(self).remaining().skip(n as int));
        }
        Ok(n)
    }
}

} // verus!
