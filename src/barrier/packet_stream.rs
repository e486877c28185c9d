//! Splits the byte stream from the server into packets. Bytes are handed in as
//! they arrive; memory stays bounded because the payload of an oversized
//! packet is dropped rather than kept.
use vstd::prelude::*;

use super::packet::decode_payload;
use super::packet_io::be_u32;
use super::{Packet, PacketError, PacketWriter, Take};

verus! {

/// Packets declaring more bytes than this are skipped and reported as
/// `Packet::Unknown`.
pub const MAX_PACKET_SIZE: u32 = 2048;

/// The four tag bytes of a frame.
pub open spec fn frame_tag(s: Seq<u8>) -> [u8; 4] {
    [s[4], s[5], s[6], s[7]]
}

/// What the stream yields once it has received `s` since the last packet
/// ended: nothing while the frame is incomplete; `PacketTooSmall` as soon as
/// a length below 4 is read; otherwise, once all the declared bytes are in,
/// the decoded packet, or `Unknown` for a frame above `MAX_PACKET_SIZE`.
pub open spec fn frame_outcome(s: Seq<u8>) -> Option<Result<Packet, PacketError>> {
    if s.len() < 4 {
        None
    } else {
        let size = be_u32(s);
        if size < 4 {
            if s.len() == 4 {
                Some(Err(PacketError::PacketTooSmall))
            } else {
                None
            }
        } else if s.len() == 4 + size {
            if size > MAX_PACKET_SIZE {
                Some(Ok(Packet::Unknown(frame_tag(s))))
            } else {
                Some(decode_payload(frame_tag(s), s.skip(8)))
            }
        } else {
            None
        }
    }
}

/// `s` is the start of a frame that is not complete yet.
pub open spec fn partial_frame(s: Seq<u8>) -> bool {
    s.len() < 4 || (be_u32(s) >= 4 && s.len() < 4 + be_u32(s))
}

/// An outcome comes exactly when a frame ends: the stream never yields twice
/// within one frame, and a packet comes only once every byte that its length
/// declares has been consumed. Any other outcome is a defined error.
pub proof fn lemma_outcome_ends_frame(s: Seq<u8>)
    requires
        frame_outcome(s) is Some,
    ensures
        forall|n: int| 0 <= n < s.len() ==> (#[trigger] frame_outcome(s.take(n))) is None,
        frame_outcome(s) matches Some(Ok(_)) ==> be_u32(s) >= 4 && s.len() == 4 + be_u32(s),
        frame_outcome(s) matches Some(Err(e)) ==> (e == PacketError::PacketTooSmall && s.len() == 4)
            || (e == PacketError::IoError && s.len() == 4 + be_u32(s)),
{
    assert forall|n: int| 0 <= n < s.len() implies (#[trigger] frame_outcome(s.take(n))) is None by {
        let t = s.take(n);
        if t.len() >= 4 {
            assert(be_u32(t) == be_u32(s));
        }
    }
}

/// The decoder state between two packets of the stream.
pub struct PacketStream {
    /// The length and tag bytes received so far, at most eight.
    header: Vec<u8>,
    /// The payload bytes received so far, for a packet of at most
    /// `MAX_PACKET_SIZE` bytes.
    payload: Vec<u8>,
    /// The declared length, once the first four bytes are in.
    size: u32,
    /// The number of bytes of the current frame received so far.
    received: u64,
    /// The bytes of the current frame received so far.
    seen: Ghost<Seq<u8>>,
}

impl PacketStream {
    /// The bytes received since the last packet ended.
    pub closed spec fn pending(&self) -> Seq<u8> {
        self.seen@
    }

    pub closed spec fn wf(&self) -> bool {
        let s = self.seen@;
        &&& partial_frame(s)
        &&& self.received == s.len()
        &&& self.header@ == s.take(if s.len() < 8 { s.len() as int } else { 8 })
        &&& s.len() >= 4 ==> self.size == be_u32(s)
        &&& if s.len() >= 8 && self.size <= MAX_PACKET_SIZE {
            self.payload@ == s.skip(8)
        } else {
            self.payload@.len() == 0
        }
    }

    /// A decoder at the start of the stream.
    pub fn new() -> (r: Self)
        ensures
            r.wf(),
            r.pending() == Seq::<u8>::empty(),
            partial_frame(r.pending()),
    {
        let r = PacketStream {
            header: Vec::new(),
            payload: Vec::new(),
            size: 0,
            received: 0,
            seen: Ghost(Seq::empty()),
        };
        assert(r.header@ =~= Seq::<u8>::empty().take(0));
        r
    }

    /// What a well-formed decoder holds is the start of an incomplete frame.
    pub proof fn lemma_pending_partial(&self)
        requires
            self.wf(),
        ensures
            partial_frame(self.pending()),
    {
    }

    /// Takes the next byte of the stream, and returns what the frame yields if
    /// this byte completes it.
    pub fn push(&mut self, byte: u8) -> (r: Option<Result<Packet, PacketError>>)
        requires
            old(self).wf(),
        ensures
            final(self).wf(),
            r == frame_outcome(old(self).pending().push(byte)),
            r is Some ==> final(self).pending() == Seq::<u8>::empty(),
            r is None ==> final(self).pending() == old(self).pending().push(byte),
            partial_frame(final(self).pending()),
    {
        let ghost s = self.seen@.push(byte);
        if self.received < 4 {
            self.header.push(byte);
            self.received = self.received + 1;
            self.seen = Ghost(s);
            if self.received == 4 {
                let h = &self.header;
                self.size = (h[0] as u32) * 0x100_0000 + (h[1] as u32) * 0x1_0000 + (h[2] as u32)
                    * 0x100 + h[3] as u32;
                assert(self.header@ =~= s.take(4));
                if self.size < 4 {
                    *self = PacketStream::new();
                    return Some(Err(PacketError::PacketTooSmall));
                }
            }
            assert(self.header@ =~= s.take(s.len() as int));
            return None;
        }
        if self.received < 8 {
            self.header.push(byte);
            assert(self.header@ =~= s.take(if s.len() < 8 { s.len() as int } else { 8 }));
        } else if self.size <= MAX_PACKET_SIZE {
            self.payload.push(byte);
            assert(self.payload@ =~= s.skip(8));
        }
        self.received = self.received + 1;
        self.seen = Ghost(s);
        assert(self.header@ =~= s.take(if s.len() < 8 { s.len() as int } else { 8 }));
        if self.received >= 8 && self.size <= MAX_PACKET_SIZE {
            assert(self.payload@ =~= s.skip(8));
        }
        if self.received == 4 + self.size as u64 {
            let code: [u8; 4] = [self.header[4], self.header[5], self.header[6], self.header[7]];
            assert(code@ =~= frame_tag(s)@);
            assert(code == frame_tag(s));
            let outcome = if self.size > MAX_PACKET_SIZE {
                Ok(Packet::Unknown(code))
            } else {
                let mut chunk = Take::new(self.payload.as_slice(), self.payload.len() as u64);
                assert(self.payload@.take(self.payload@.len() as int) =~= self.payload@);
                Packet::read_payload(code, &mut chunk)
            };
            *self = PacketStream::new();
            return Some(outcome);
        }
        None
    }

    /// Writes a packet the client sends, length first, to `out`.
    pub fn write(&self, packet: Packet, out: &mut Vec<u8>)
        requires
            packet.writable(),
        ensures
            final(out)@ == old(out)@ + packet.wire(),
    {
        packet.write_wire(out);
    }

    /// Takes bytes from the front of `data` up to the end of the first frame
    /// they complete. Returns how many bytes were taken and what that frame
    /// yields; with no frame completed, every byte is taken.
    pub fn read(&mut self, data: &[u8]) -> (r: (usize, Option<Result<Packet, PacketError>>))
        requires
            old(self).wf(),
        ensures
            final(self).wf(),
            r.0 <= data@.len(),
            r.1 is None ==> r.0 == data@.len() && final(self).pending() == old(self).pending()
                + data@,
            partial_frame(final(self).pending()),
            r.1 is Some ==> r.0 >= 1 && r.1 == frame_outcome(
                old(self).pending() + data@.take(r.0 as int),
            ) && final(self).pending() == Seq::<u8>::empty(),
    {
        let mut i: usize = 0;
        while i < data.len()
            invariant
                i <= data@.len(),
                self.wf(),
                self.pending() == old(self).pending() + data@.take(i as int),
            decreases data@.len() - i,
        {
            let r = self.push(data[i]);
            assert(data@.take(i + 1) =~= data@.take(i as int).push(data@[i as int]));
            i = i + 1;
            if r.is_some() {
                return (i, r);
            }
        }
        assert(data@.take(data@.len() as int) =~= data@);
        (i, None)
    }
}

} // verus!
