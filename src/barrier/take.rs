//! A bounded view of a byte source: reads stop after a declared number of
//! bytes, so that parsing one packet cannot run into the next.
use vstd::prelude::*;

use super::{PacketError, PacketReader};

verus! {

/// A reader over `inner` that yields at most `limit` bytes.
pub struct Take<'a> {
    inner: &'a [u8],
    limit: u64,
}

impl<'a> Take<'a> {
    #[verifier::type_invariant]
    closed spec fn inv(self) -> bool {
        self.limit <= self.inner@.len()
    }

    /// A sub-stream of the first `limit` bytes of `inner`.
    pub fn new(inner: &'a [u8], limit: u64) -> (r: Take<'a>)
        requires
            limit <= inner@.len(),
        ensures
            r.unread() == inner@.take(limit as int),
    {
        Take { inner, limit }
    }

    /// The number of bytes that remain before the limit.
    pub fn limit(&self) -> (r: u64)
        ensures
            r == self.unread().len(),
    {
        proof {
            use_type_invariant(self);
        }
        self.limit
    }

    /// Reads up to `buf.len()` bytes into the front of `buf`, never past the
    /// limit, and returns how many were read: 0 once the limit is reached.
    pub fn read(&mut self, buf: &mut [u8]) -> (n: usize)
        ensures
            n as int == if old(buf)@.len() < old(self).unread().len() {
                old(buf)@.len() as int
            } else {
                old(self).unread().len() as int
            },
            final(buf)@.len() == old(buf)@.len(),
            final(buf)@.take(n as int) == old(self).unread().take(n as int),
            final(self).unread() == old(self).unread().skip(n as int),
    {
        proof {
            use_type_invariant(&*self);
        }
        // Don't touch the inner reader at all at the end
        if self.limit == 0 {
            assert(buf@.take(0) =~= self.unread().take(0));
            assert(self.unread().skip(0) =~= self.unread());
            return 0;
        }
        let n: usize = if (buf.len() as u64) < self.limit {
            buf.len()
        } else {
            self.limit as usize
        };
        let mut i: usize = 0;
        while i < n
            invariant
                i <= n,
                n <= buf@.len(),
                n <= self.limit,
                self.limit <= self.inner@.len(),
                buf@.len() == old(buf)@.len(),
                *self == *old(self),
                forall|j: int| 0 <= j < i ==> buf@[j] == self.inner@[j],
            decreases n - i,
        {
            buf[i] = self.inner[i];
            i = i + 1;
        }
        let ghost before = self.unread();
        let len = self.inner.len();
        *self = Take { inner: &self.inner[n..len], limit: self.limit - n as u64 };
        assert(buf@.take(n as int) =~= before.take(n as int));
        assert(self.unread() =~= before.skip(n as int));
        n
    }

    /// Reads and drops everything up to the limit.
    pub fn discard_all(&mut self) -> (r: Result<(), PacketError>)
        ensures
            r is Ok,
            final(self).unread() == Seq::<u8>::empty(),
    {
        let mut buf = [0u8; 64];
        while self.limit() > 0
            invariant
                buf@.len() == 64,
            decreases self.unread().len(),
        {
            let n = self.read(&mut buf);
        }
        assert(self.unread() =~= Seq::<u8>::empty());
        Ok(())
    }
}

impl<'a> PacketReader for Take<'a> {
    closed spec fn unread(&self) -> Seq<u8> {
        self.inner@.take(self.limit as int)
    }

    fn read_exact(&mut self, buf: &mut [u8]) -> (r: Result<(), PacketError>) {
        let n = self.read(buf);
        if n < buf.len() {
            Err(PacketError::IoError)
        } else {
            assert(buf@.take(n as int) =~= buf@);
            Ok(())
        }
    }
}

} // verus!
