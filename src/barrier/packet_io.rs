//! Big-endian primitives and length-prefixed strings on byte readers and
//! writers.
use vstd::prelude::*;

use vstd::string::StringSliceAdditionalSpecFns;

use super::PacketError;

verus! {

/// The 16-bit big-endian value of the first two bytes of `s`.
pub open spec fn be_u16(s: Seq<u8>) -> u16 {
    (s[0] as int * 256 + s[1] as int) as u16
}

/// The 32-bit big-endian value of the first four bytes of `s`.
pub open spec fn be_u32(s: Seq<u8>) -> u32 {
    (s[0] as int * 0x100_0000 + s[1] as int * 0x1_0000 + s[2] as int * 0x100 + s[3] as int) as u32
}

/// The big-endian bytes of a 16-bit value.
pub open spec fn u16_bytes(v: u16) -> Seq<u8> {
    seq![(v / 256) as u8, (v % 256) as u8]
}

/// The big-endian bytes of a 32-bit value.
pub open spec fn u32_bytes(v: u32) -> Seq<u8> {
    seq![
        (v / 0x100_0000) as u8,
        (v / 0x1_0000 % 256) as u8,
        (v / 0x100 % 256) as u8,
        (v % 256) as u8,
    ]
}

/// A length-prefixed string: its byte length as a 32-bit big-endian value,
/// then its bytes.
pub open spec fn str_bytes(s: Seq<u8>) -> Seq<u8> {
    u32_bytes(s.len() as u32) + s
}

/// The outcome of reading `n` bytes from a reader holding `unread`.
pub open spec fn read_outcome<T>(
    unread: Seq<u8>,
    n: nat,
    r: Result<T, PacketError>,
    after: Seq<u8>,
    value: spec_fn(Seq<u8>) -> T,
) -> bool {
    if unread.len() >= n {
        r == Ok::<T, PacketError>(value(unread.take(n as int))) && after == unread.skip(n as int)
    } else {
        r == Err::<T, PacketError>(PacketError::IoError)
    }
}

/// A source of bytes. A read of `n` bytes succeeds when `n` bytes remain and
/// fails with `IoError` otherwise.
pub trait PacketReader {
    /// The bytes that remain to be read.
    spec fn unread(&self) -> Seq<u8>;

    /// Fills `buf` with the next `buf.len()` bytes.
    fn read_exact(&mut self, buf: &mut [u8]) -> (r: Result<(), PacketError>)
        ensures
            final(buf)@.len() == old(buf)@.len(),
            old(self).unread().len() >= old(buf)@.len() ==> r is Ok && final(buf)@ == old(
                self,
            ).unread().take(old(buf)@.len() as int) && final(self).unread() == old(self).unread().skip(
                old(buf)@.len() as int,
            ),
            old(self).unread().len() < old(buf)@.len() ==> r == Err::<(), PacketError>(
                PacketError::IoError,
            ),
    ;

    /// Skips the next `len` bytes.
    fn consume_bytes(&mut self, len: usize) -> (r: Result<(), PacketError>)
        ensures
            old(self).unread().len() >= len ==> r is Ok && final(self).unread() == old(
                self,
            ).unread().skip(len as int),
            old(self).unread().len() < len ==> r == Err::<(), PacketError>(PacketError::IoError),
    {
        self.discard_exact(len)
    }

    /// Skips the next `len` bytes, sixteen at a time.
    fn discard_exact(&mut self, len: usize) -> (r: Result<(), PacketError>)
        ensures
            old(self).unread().len() >= len ==> r is Ok && final(self).unread() == old(
                self,
            ).unread().skip(len as int),
            old(self).unread().len() < len ==> r == Err::<(), PacketError>(PacketError::IoError),
    {
        let mut left = len;
        while left > 0
            invariant
                left <= len,
                old(self).unread().len() >= len ==> self.unread() == old(self).unread().skip(
                    (len - left) as int,
                ),
                old(self).unread().len() < len ==> self.unread().len() < left,
            decreases left,
        {
            let to_read: usize = if left < 16 { left } else { 16 };
            let ghost before = self.unread();
            let mut chunk: Vec<u8> = vec![0u8; to_read];
            let r = self.read_exact(chunk.as_mut_slice());
            if r.is_err() {
                return Err(PacketError::IoError);
            }
            proof {
                if old(self).unread().len() >= len {
                    assert(self.unread() =~= old(self).unread().skip((len - left + to_read) as int));
                }
            }
            left = left - to_read;
        }
        Ok(())
    }

    /// Reads `lit` and fails with `FormatError` if other bytes come.
    fn read_str_lit(&mut self, lit: &str) -> (r: Result<(), PacketError>)
        ensures
            ({
                let n = lit.spec_bytes().len();
                let u = old(self).unread();
                &&& u.len() < n ==> r == Err::<(), PacketError>(PacketError::IoError)
                &&& u.len() >= n && u.take(n as int) == lit.spec_bytes() ==> r is Ok
                    && final(self).unread() == u.skip(n as int)
                &&& u.len() >= n && u.take(n as int) != lit.spec_bytes() ==> r == Err::<
                    (),
                    PacketError,
                >(PacketError::FormatError)
            }),
    {
        let bytes = lit.as_bytes();
        let n = bytes.len();
        let mut buf: Vec<u8> = vec![0u8; n];
        let r = self.read_exact(buf.as_mut_slice());
        if r.is_err() {
            return Err(PacketError::IoError);
        }
        let ghost got = old(self).unread().take(n as int);
        assert(buf@ == got);
        let mut i: usize = 0;
        while i < n
            invariant
                i <= n,
                n == bytes@.len(),
                bytes@ == lit.spec_bytes(),
                buf@ == got,
                got == old(self).unread().take(n as int),
                got.len() == n,
                old(self).unread().len() >= n,
                self.unread() == old(self).unread().skip(n as int),
                forall|j: int| 0 <= j < i ==> buf@[j] == bytes@[j],
            decreases n - i,
        {
            if buf[i] != bytes[i] {
                assert(got[i as int] != lit.spec_bytes()[i as int]);
                return Err(PacketError::FormatError);
            }
            i = i + 1;
        }
        assert(got =~= lit.spec_bytes());
        Ok(())
    }

    /// Reads the 32-bit length that starts a packet.
    fn read_packet_size(&mut self) -> (r: Result<u32, PacketError>)
        ensures
            read_outcome(old(self).unread(), 4, r, final(self).unread(), |s: Seq<u8>| be_u32(s)),
    {
        self.read_u32()
    }

    /// Reads the next `N` bytes.
    fn read_bytes_fixed<const N: usize>(&mut self) -> (r: Result<[u8; N], PacketError>)
        ensures
            old(self).unread().len() >= N ==> r is Ok && r->Ok_0@ == old(self).unread().take(
                N as int,
            ) && final(self).unread() == old(self).unread().skip(N as int),
            old(self).unread().len() < N ==> r == Err::<[u8; N], PacketError>(PacketError::IoError),
    {
        let mut res = [0u8; N];
        self.read_exact(&mut res)?;
        Ok(res)
    }

    /// Reads a signed byte.
    fn read_i8(&mut self) -> (r: Result<i8, PacketError>)
        ensures
            read_outcome(old(self).unread(), 1, r, final(self).unread(), |s: Seq<u8>| s[0] as i8),
    {
        let mut buf = [0u8; 1];
        self.read_exact(&mut buf)?;
        Ok(buf[0] as i8)
    }

    /// Reads a byte.
    fn read_u8(&mut self) -> (r: Result<u8, PacketError>)
        ensures
            read_outcome(old(self).unread(), 1, r, final(self).unread(), |s: Seq<u8>| s[0]),
    {
        let mut buf = [0u8; 1];
        self.read_exact(&mut buf)?;
        Ok(buf[0])
    }

    /// Reads a signed 16-bit big-endian value.
    fn read_i16(&mut self) -> (r: Result<i16, PacketError>)
        ensures
            read_outcome(
                old(self).unread(),
                2,
                r,
                final(self).unread(),
                |s: Seq<u8>| be_u16(s) as i16,
            ),
    {
        let v = self.read_u16()?;
        Ok(v as i16)
    }

    /// Reads a 16-bit big-endian value.
    fn read_u16(&mut self) -> (r: Result<u16, PacketError>)
        ensures
            read_outcome(old(self).unread(), 2, r, final(self).unread(), |s: Seq<u8>| be_u16(s)),
    {
        let mut buf = [0u8; 2];
        self.read_exact(&mut buf)?;
        Ok((buf[0] as u16) * 256 + buf[1] as u16)
    }

    /// Reads a 32-bit big-endian value.
    fn read_u32(&mut self) -> (r: Result<u32, PacketError>)
        ensures
            read_outcome(old(self).unread(), 4, r, final(self).unread(), |s: Seq<u8>| be_u32(s)),
    {
        let mut buf = [0u8; 4];
        self.read_exact(&mut buf)?;
        Ok((buf[0] as u32) * 0x100_0000 + (buf[1] as u32) * 0x1_0000 + (buf[2] as u32) * 0x100
            + buf[3] as u32)
    }
}

/// A sink of bytes that keeps everything written to it.
pub trait PacketWriter {
    /// The bytes written so far.
    spec fn written(&self) -> Seq<u8>;

    /// Appends `data`.
    fn write_all(&mut self, data: &[u8])
        ensures
            final(self).written() == old(self).written() + data@,
    ;

    /// Appends `data` as a length-prefixed string.
    fn write_str(&mut self, data: &str)
        requires
            data.spec_bytes().len() <= u32::MAX,
        ensures
            final(self).written() == old(self).written() + str_bytes(data.spec_bytes()),
    {
        self.write_u32(data.len() as u32);
        self.write_all(data.as_bytes());
        assert(self.written() =~= old(self).written() + str_bytes(data.spec_bytes()));
    }

    /// Appends a 16-bit big-endian value.
    fn write_u16(&mut self, data: u16)
        ensures
            final(self).written() == old(self).written() + u16_bytes(data),
    {
        let bytes = [(data / 256) as u8, (data % 256) as u8];
        self.write_all(&bytes);
        assert(bytes@ =~= u16_bytes(data));
    }

    /// Appends a 32-bit big-endian value.
    fn write_u32(&mut self, data: u32)
        ensures
            final(self).written() == old(self).written() + u32_bytes(data),
    {
        let bytes = [
            (data / 0x100_0000) as u8,
            (data / 0x1_0000 % 256) as u8,
            (data / 0x100 % 256) as u8,
            (data % 256) as u8,
        ];
        self.write_all(&bytes);
        assert(bytes@ =~= u32_bytes(data));
    }
}

impl PacketWriter for Vec<u8> {
    open spec fn written(&self) -> Seq<u8> {
        self@
    }

    fn write_all(&mut self, data: &[u8]) {
        let mut i: usize = 0;
        while i < data.len()
            invariant
                i <= data@.len(),
                self@ == old(self)@ + data@.take(i as int),
            decreases data@.len() - i,
        {
            self.push(data[i]);
            i = i + 1;
            assert(self@ =~= old(self)@ + data@.take(i as int));
        }
        assert(data@.take(data@.len() as int) =~= data@);
    }
}

} // verus!
