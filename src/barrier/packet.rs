//! The Barrier packets and their encoding: a 32-bit big-endian length, then
//! a four-letter ASCII tag and the payload.
use vstd::prelude::*;

use super::packet_io::{be_u16, be_u32, u16_bytes, u32_bytes};
use super::{PacketError, PacketReader, PacketWriter, Take};

verus! {

pub const TAG_QUERY_INFO: u32 = 0x51494E46;  // QINF

pub const TAG_DEVICE_INFO: u32 = 0x44494E46;  // DINF

pub const TAG_INFO_ACK: u32 = 0x4349414B;  // CIAK

pub const TAG_KEEP_ALIVE: u32 = 0x43414C56;  // CALV

pub const TAG_RESET_OPTIONS: u32 = 0x43524F50;  // CROP

pub const TAG_CLIENT_NO_OP: u32 = 0x434E4F50;  // CNOP

pub const TAG_ERROR_UNKNOWN_DEVICE: u32 = 0x45554E4B;  // EUNK

pub const TAG_CURSOR_ENTER: u32 = 0x43494E4E;  // CINN

pub const TAG_CURSOR_LEAVE: u32 = 0x434F5554;  // COUT

pub const TAG_MOUSE_UP: u32 = 0x444D5550;  // DMUP

pub const TAG_MOUSE_DOWN: u32 = 0x444D444E;  // DMDN

pub const TAG_KEY_UP: u32 = 0x444B5550;  // DKUP

pub const TAG_KEY_DOWN: u32 = 0x444B444E;  // DKDN

pub const TAG_KEY_REPEAT: u32 = 0x444B5250;  // DKRP

pub const TAG_MOUSE_WHEEL: u32 = 0x444D574D;  // DMWM

pub const TAG_MOUSE_MOVE_ABS: u32 = 0x444D4D56;  // DMMV

pub const TAG_MOUSE_MOVE: u32 = 0x444D524D;  // DMRM

/// A Barrier packet.
#[derive(Debug, Clone, Copy, PartialEq, Eq)]
#[allow(inconsistent_fields)]
pub enum Packet {
    QueryInfo,
    DeviceInfo {
        x: u16,
        y: u16,
        w: u16,
        h: u16,
        _dummy: u16,
        mx: u16,  // x position of the mouse on the secondary screen
        my: u16,  // y position of the mouse on the secondary screen
    },
    InfoAck,
    KeepAlive,
    ResetOptions,
    ClientNoOp,
    ErrorUnknownDevice,
    CursorEnter { x: u16, y: u16, seq_num: u32, mask: u16 },
    MouseUp { id: i8 },
    MouseDown { id: i8 },
    KeyUp { id: u16, mask: u16, button: u16 },
    KeyDown { id: u16, mask: u16, button: u16 },
    KeyRepeat { id: u16, mask: u16, button: u16, count: u16 },
    MouseWheel { x_delta: i16, y_delta: i16 },
    CursorLeave,
    MouseMoveAbs { x: u16, y: u16 },
    MouseMove { x: i16, y: i16 },
    /// A packet with a tag the client does not know, or one too large to read.
    Unknown([u8; 4]),
}

/// The 16-bit big-endian value at offset `i` of `p`.
pub open spec fn u16_at(p: Seq<u8>, i: int) -> u16 {
    be_u16(p.skip(i))
}

/// The packet a payload `p` of the packet tagged `code` decodes to. A payload
/// too short for its fields fails with `IoError`, as the bounded sub-stream
/// ends before them; bytes after the fields are ignored.
pub open spec fn decode_payload(code: [u8; 4], p: Seq<u8>) -> Result<Packet, PacketError> {
    let tag = be_u32(code@);
    let short = Err::<Packet, PacketError>(PacketError::IoError);
    if tag == TAG_QUERY_INFO {
        Ok(Packet::QueryInfo)
    } else if tag == TAG_DEVICE_INFO {
        if p.len() < 14 {
            short
        } else {
            Ok(
                Packet::DeviceInfo {
                    x: u16_at(p, 0),
                    y: u16_at(p, 2),
                    w: u16_at(p, 4),
                    h: u16_at(p, 6),
                    _dummy: u16_at(p, 8),
                    mx: u16_at(p, 10),
                    my: u16_at(p, 12),
                },
            )
        }
    } else if tag == TAG_INFO_ACK {
        Ok(Packet::InfoAck)
    } else if tag == TAG_KEEP_ALIVE {
        Ok(Packet::KeepAlive)
    } else if tag == TAG_RESET_OPTIONS {
        Ok(Packet::ResetOptions)
    } else if tag == TAG_CLIENT_NO_OP {
        Ok(Packet::ClientNoOp)
    } else if tag == TAG_ERROR_UNKNOWN_DEVICE {
        Ok(Packet::ErrorUnknownDevice)
    } else if tag == TAG_MOUSE_MOVE_ABS {
        if p.len() < 4 {
            short
        } else {
            Ok(Packet::MouseMoveAbs { x: u16_at(p, 0), y: u16_at(p, 2) })
        }
    } else if tag == TAG_MOUSE_MOVE {
        if p.len() < 4 {
            short
        } else {
            Ok(Packet::MouseMove { x: u16_at(p, 0) as i16, y: u16_at(p, 2) as i16 })
        }
    } else if tag == TAG_CURSOR_ENTER {
        if p.len() < 10 {
            short
        } else {
            Ok(
                Packet::CursorEnter {
                    x: u16_at(p, 0),
                    y: u16_at(p, 2),
                    seq_num: be_u32(p.skip(4)),
                    mask: u16_at(p, 8),
                },
            )
        }
    } else if tag == TAG_CURSOR_LEAVE {
        Ok(Packet::CursorLeave)
    } else if tag == TAG_MOUSE_UP {
        if p.len() < 1 {
            short
        } else {
            Ok(Packet::MouseUp { id: p[0] as i8 })
        }
    } else if tag == TAG_MOUSE_DOWN {
        if p.len() < 1 {
            short
        } else {
            Ok(Packet::MouseDown { id: p[0] as i8 })
        }
    } else if tag == TAG_KEY_UP {
        if p.len() < 6 {
            short
        } else {
            Ok(Packet::KeyUp { id: u16_at(p, 0), mask: u16_at(p, 2), button: u16_at(p, 4) })
        }
    } else if tag == TAG_KEY_DOWN {
        if p.len() < 6 {
            short
        } else {
            Ok(Packet::KeyDown { id: u16_at(p, 0), mask: u16_at(p, 2), button: u16_at(p, 4) })
        }
    } else if tag == TAG_KEY_REPEAT {
        if p.len() < 8 {
            short
        } else {
            Ok(
                Packet::KeyRepeat {
                    id: u16_at(p, 0),
                    mask: u16_at(p, 2),
                    count: u16_at(p, 4),
                    button: u16_at(p, 6),
                },
            )
        }
    } else if tag == TAG_MOUSE_WHEEL {
        if p.len() < 4 {
            short
        } else {
            Ok(Packet::MouseWheel { x_delta: u16_at(p, 0) as i16, y_delta: u16_at(p, 2) as i16 })
        }
    } else {
        Ok(Packet::Unknown(code))
    }
}

/// A packet that is its tag alone.
pub open spec fn tag_only(tag: u32) -> Seq<u8> {
    u32_bytes(4) + u32_bytes(tag)
}

impl Packet {
    /// The packets the client can write.
    pub open spec fn writable(self) -> bool {
        ||| self is QueryInfo
        ||| self is DeviceInfo
        ||| self is InfoAck
        ||| self is KeepAlive
        ||| self is ResetOptions
        ||| self is ClientNoOp
        ||| self is ErrorUnknownDevice
        ||| self is MouseMoveAbs
    }

    /// The bytes of a writable packet on the wire, length first.
    pub open spec fn wire(self) -> Seq<u8> {
        match self {
            Packet::QueryInfo => tag_only(TAG_QUERY_INFO),
            Packet::DeviceInfo { x, y, w, h, mx, my, .. } => u32_bytes(18) + u32_bytes(
                TAG_DEVICE_INFO,
            ) + u16_bytes(x) + u16_bytes(y) + u16_bytes(w) + u16_bytes(h) + u16_bytes(0)
                + u16_bytes(mx) + u16_bytes(my),
            Packet::InfoAck => tag_only(TAG_INFO_ACK),
            Packet::KeepAlive => tag_only(TAG_KEEP_ALIVE),
            Packet::ResetOptions => tag_only(TAG_RESET_OPTIONS),
            Packet::ClientNoOp => tag_only(TAG_CLIENT_NO_OP),
            Packet::ErrorUnknownDevice => tag_only(TAG_ERROR_UNKNOWN_DEVICE),
            Packet::MouseMoveAbs { x, y } => u32_bytes(8) + u32_bytes(TAG_MOUSE_MOVE_ABS)
                + u16_bytes(x) + u16_bytes(y),
            _ => Seq::empty(),
        }
    }

    /// Reads the payload of a packet tagged `code` from `chunk`, the rest of
    /// the packet. On success whatever the fields left of the packet is
    /// drained, so the sub-stream ends at its limit.
    pub fn read_payload(code: [u8; 4], chunk: &mut Take) -> (r: Result<Packet, PacketError>)
        ensures
            r == decode_payload(code, old(chunk).unread()),
            r is Ok ==> final(chunk).unread().len() == 0,
    {
        let ghost p = chunk.unread();
        let tag = (code[0] as u32) * 0x100_0000 + (code[1] as u32) * 0x1_0000 + (code[2] as u32)
            * 0x100 + code[3] as u32;
        assert(tag == be_u32(code@));
        let packet = if tag == TAG_QUERY_INFO {
            Packet::QueryInfo
        } else if tag == TAG_DEVICE_INFO {
            let x = chunk.read_u16()?;
            let y = chunk.read_u16()?;
            let w = chunk.read_u16()?;
            let h = chunk.read_u16()?;
            let _dummy = chunk.read_u16()?;
            let mx = chunk.read_u16()?;
            let my = chunk.read_u16()?;
            Packet::DeviceInfo { x, y, w, h, _dummy, mx, my }
        } else if tag == TAG_INFO_ACK {
            Packet::InfoAck
        } else if tag == TAG_KEEP_ALIVE {
            Packet::KeepAlive
        } else if tag == TAG_RESET_OPTIONS {
            Packet::ResetOptions
        } else if tag == TAG_CLIENT_NO_OP {
            Packet::ClientNoOp
        } else if tag == TAG_ERROR_UNKNOWN_DEVICE {
            Packet::ErrorUnknownDevice
        } else if tag == TAG_MOUSE_MOVE_ABS {
            let x = chunk.read_u16()?;
            let y = chunk.read_u16()?;
            Packet::MouseMoveAbs { x, y }
        } else if tag == TAG_MOUSE_MOVE {
            let x = chunk.read_i16()?;
            let y = chunk.read_i16()?;
            Packet::MouseMove { x, y }
        } else if tag == TAG_CURSOR_ENTER {
            let x = chunk.read_u16()?;
            let y = chunk.read_u16()?;
            let seq_num = chunk.read_u32()?;
            let mask = chunk.read_u16()?;
            Packet::CursorEnter { x, y, seq_num, mask }
        } else if tag == TAG_CURSOR_LEAVE {
            Packet::CursorLeave
        } else if tag == TAG_MOUSE_UP {
            let id = chunk.read_i8()?;
            Packet::MouseUp { id }
        } else if tag == TAG_MOUSE_DOWN {
            let id = chunk.read_i8()?;
            Packet::MouseDown { id }
        } else if tag == TAG_KEY_UP {
            let id = chunk.read_u16()?;
            let mask = chunk.read_u16()?;
            let button = chunk.read_u16()?;
            Packet::KeyUp { id, mask, button }
        } else if tag == TAG_KEY_DOWN {
            let id = chunk.read_u16()?;
            let mask = chunk.read_u16()?;
            let button = chunk.read_u16()?;
            Packet::KeyDown { id, mask, button }
        } else if tag == TAG_KEY_REPEAT {
            let id = chunk.read_u16()?;
            let mask = chunk.read_u16()?;
            let count = chunk.read_u16()?;
            let button = chunk.read_u16()?;
            Packet::KeyRepeat { id, mask, button, count }
        } else if tag == TAG_MOUSE_WHEEL {
            let x_delta = chunk.read_i16()?;
            let y_delta = chunk.read_i16()?;
            Packet::MouseWheel { x_delta, y_delta }
        } else {
            Packet::Unknown(code)
        };
        // Discard the rest of the packet
        chunk.discard_all()?;
        Ok(packet)
    }

    /// Writes the packet, length first, to `out`.
    pub fn write_wire<W: PacketWriter>(&self, out: &mut W)
        requires
            self.writable(),
        ensures
            final(out).written() == old(out).written() + self.wire(),
    {
        match self {
            Packet::DeviceInfo { x, y, w, h, _dummy, mx, my } => {
                out.write_u32(2 * 7 + 4);
                out.write_u32(TAG_DEVICE_INFO);
                out.write_u16(*x);
                out.write_u16(*y);
                out.write_u16(*w);
                out.write_u16(*h);
                out.write_u16(0);
                out.write_u16(*mx);
                out.write_u16(*my);
            },
            Packet::MouseMoveAbs { x, y } => {
                out.write_u32(4 + 2 + 2);
                out.write_u32(TAG_MOUSE_MOVE_ABS);
                out.write_u16(*x);
                out.write_u16(*y);
            },
            _ => {
                let tag = match self {
                    Packet::QueryInfo => TAG_QUERY_INFO,
                    Packet::InfoAck => TAG_INFO_ACK,
                    Packet::KeepAlive => TAG_KEEP_ALIVE,
                    Packet::ResetOptions => TAG_RESET_OPTIONS,
                    Packet::ClientNoOp => TAG_CLIENT_NO_OP,
                    _ => TAG_ERROR_UNKNOWN_DEVICE,
                };
                out.write_u32(4);
                out.write_u32(tag);
            },
        }
        assert(out.written() =~= old(out).written() + self.wire());
    }
}

} // verus!
