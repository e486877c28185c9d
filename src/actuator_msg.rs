//! The actuator operations as values, and their encoding on a serial link:
//! a one-byte opcode followed by little-endian fields.
use vstd::prelude::*;

verus! {

/// One operation on an actuator.
#[derive(Debug, Clone, Copy, PartialEq, Eq, Structural)]
pub enum ActuatorMsg {
    Unknown,
    Connected,
    Disconnected,
    GetScreenSize,
    GetCursorPosition,
    SetCursorPosition(u16, u16),
    MouseDown(i8),
    MouseUp(i8),
    MouseWheel(i16, i16),
    KeyDown(u16, u16, u16),
    KeyRepeat(u16, u16, u16, u16),
    KeyUp(u16, u16, u16),
    ResetOptions,
    Enter,
    Leave,
}

/// The 16-bit little-endian value at offset `i` of `s`.
pub open spec fn le_u16_at(s: Seq<u8>, i: int) -> u16 {
    (s[i] as int + s[i + 1] as int * 256) as u16
}

/// The number of field bytes that follow an opcode.
pub open spec fn msg_body_len(op: u8) -> nat {
    match op {
        0x05 => 4,
        0x06 => 1,
        0x07 => 1,
        0x08 => 4,
        0x09 => 6,
        0x0a => 8,
        0x0b => 6,
        _ => 0,
    }
}

/// The message an opcode and its field bytes `b` stand for.
pub open spec fn decode_msg(op: u8, b: Seq<u8>) -> ActuatorMsg {
    match op {
        0x01 => ActuatorMsg::Connected,
        0x02 => ActuatorMsg::Disconnected,
        0x05 => ActuatorMsg::SetCursorPosition(le_u16_at(b, 0), le_u16_at(b, 2)),
        0x06 => ActuatorMsg::MouseDown(b[0] as i8),
        0x07 => ActuatorMsg::MouseUp(b[0] as i8),
        0x08 => ActuatorMsg::MouseWheel(le_u16_at(b, 0) as i16, le_u16_at(b, 2) as i16),
        0x09 => ActuatorMsg::KeyDown(le_u16_at(b, 0), le_u16_at(b, 2), le_u16_at(b, 4)),
        0x0a => ActuatorMsg::KeyRepeat(
            le_u16_at(b, 0),
            le_u16_at(b, 2),
            le_u16_at(b, 4),
            le_u16_at(b, 6),
        ),
        0x0b => ActuatorMsg::KeyUp(le_u16_at(b, 0), le_u16_at(b, 2), le_u16_at(b, 4)),
        0x0c => ActuatorMsg::ResetOptions,
        0x0d => ActuatorMsg::Enter,
        0x0e => ActuatorMsg::Leave,
        _ => ActuatorMsg::Unknown,
    }
}

fn le_u16(buf: &[u8], i: usize) -> (r: u16)
    requires
        i + 1 < buf@.len(),
    ensures
        r == le_u16_at(buf@, i as int),
{
    buf[i] as u16 + (buf[i + 1] as u16) * 256
}

impl ActuatorMsg {
    /// Reads one message from the front of `buf`. Returns the message and the
    /// number of bytes it takes, or `None` while `buf` holds only part of it.
    /// Opcodes without a meaning read as `Unknown`.
    pub fn read_msg(buf: &[u8]) -> (r: Option<(ActuatorMsg, usize)>)
        ensures
            buf@.len() == 0 ==> r is None,
            buf@.len() > 0 ==> {
                let n = 1 + msg_body_len(buf@[0]);
                if buf@.len() < n {
                    r is None
                } else {
                    r == Some((decode_msg(buf@[0], buf@.subrange(1, n as int)), n as usize))
                }
            },
    {
        if buf.len() == 0 {
            return None;
        }
        let op = buf[0];
        let n: usize = match op {
            0x05 => 5,
            0x06 => 2,
            0x07 => 2,
            0x08 => 5,
            0x09 => 7,
            0x0a => 9,
            0x0b => 7,
            _ => 1,
        };
        if buf.len() < n {
            return None;
        }
        let ghost b = buf@.subrange(1, n as int);
        let msg = match op {
            0x01 => ActuatorMsg::Connected,
            0x02 => ActuatorMsg::Disconnected,
            0x05 => ActuatorMsg::SetCursorPosition(le_u16(buf, 1), le_u16(buf, 3)),
            0x06 => ActuatorMsg::MouseDown(buf[1] as i8),
            0x07 => ActuatorMsg::MouseUp(buf[1] as i8),
            0x08 => ActuatorMsg::MouseWheel(le_u16(buf, 1) as i16, le_u16(buf, 3) as i16),
            0x09 => ActuatorMsg::KeyDown(le_u16(buf, 1), le_u16(buf, 3), le_u16(buf, 5)),
            0x0a => ActuatorMsg::KeyRepeat(
                le_u16(buf, 1),
                le_u16(buf, 3),
                le_u16(buf, 5),
                le_u16(buf, 7),
            ),
            0x0b => ActuatorMsg::KeyUp(le_u16(buf, 1), le_u16(buf, 3), le_u16(buf, 5)),
            0x0c => ActuatorMsg::ResetOptions,
            0x0d => ActuatorMsg::Enter,
            0x0e => ActuatorMsg::Leave,
            _ => ActuatorMsg::Unknown,
        };
        Some((msg, n))
    }
}

} // verus!
