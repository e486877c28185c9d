//! The protocol driver: the hello handshake, then one decision per packet.
//! The caller owns the connection: it reads the server's bytes, writes the
//! replies, feeds the watchdog, and reports failures back.
use vstd::prelude::*;

use super::actuator::{moved, Actuator};
use super::packet::{u16_at, Packet};
use super::packet_io::{str_bytes, u16_bytes, u32_bytes};
use super::{ConnectionError, PacketError, PacketReader, PacketWriter, Take};
use crate::actuator_msg::ActuatorMsg;
use vstd::string::StringSliceAdditionalSpecFns;

verus! {

/// Protocol version the client speaks.
pub const PROTOCOL_MAJOR: u16 = 1;

pub const PROTOCOL_MINOR: u16 = 6;

/// Bytes of the server's hello: length, "Barrier", major and minor version.
pub const HELLO_LEN: usize = 15;

/// The bytes of "Barrier".
pub open spec fn barrier_lit() -> Seq<u8> {
    seq![0x42u8, 0x61u8, 0x72u8, 0x72u8, 0x69u8, 0x65u8, 0x72u8]
}

/// The server version that a hello `h` announces. Its length field is read
/// but not checked.
pub open spec fn hello_outcome(h: Seq<u8>) -> Result<(u16, u16), PacketError> {
    if h.len() < 11 {
        Err(PacketError::IoError)
    } else if h.subrange(4, 11) != barrier_lit() {
        Err(PacketError::FormatError)
    } else if h.len() < 15 {
        Err(PacketError::IoError)
    } else {
        Ok((u16_at(h, 11), u16_at(h, 13)))
    }
}

/// The client's answer to the hello: "Barrier", its version, and its name.
pub open spec fn hello_back(name: Seq<u8>) -> Seq<u8> {
    u32_bytes((7 + 2 + 2 + 4 + name.len()) as u32) + barrier_lit() + u16_bytes(PROTOCOL_MAJOR)
        + u16_bytes(PROTOCOL_MINOR) + str_bytes(name)
}

/// The actuator operations a packet asks for, given the cursor position.
pub open spec fn packet_calls(p: Packet, cursor: (u16, u16)) -> Seq<ActuatorMsg> {
    match p {
        Packet::MouseMoveAbs { x, y } => seq![ActuatorMsg::SetCursorPosition(x, y)],
        Packet::MouseMove { x, y } => seq![
            ActuatorMsg::SetCursorPosition(moved(cursor, x, y).0, moved(cursor, x, y).1),
        ],
        Packet::KeyUp { id, mask, button } => seq![ActuatorMsg::KeyUp(id, mask, button)],
        Packet::KeyDown { id, mask, button } => seq![ActuatorMsg::KeyDown(id, mask, button)],
        Packet::KeyRepeat { id, mask, button, count } => seq![
            ActuatorMsg::KeyRepeat(id, mask, button, count),
        ],
        Packet::MouseDown { id } => seq![ActuatorMsg::MouseDown(id)],
        Packet::MouseUp { id } => seq![ActuatorMsg::MouseUp(id)],
        Packet::MouseWheel { x_delta, y_delta } => seq![ActuatorMsg::MouseWheel(x_delta, y_delta)],
        Packet::ResetOptions => seq![ActuatorMsg::ResetOptions],
        Packet::CursorEnter { .. } => seq![ActuatorMsg::Enter],
        Packet::CursorLeave => seq![ActuatorMsg::Leave],
        _ => Seq::empty(),
    }
}

/// The reply a packet asks for, and whether the watchdog is fed once it is
/// written: screen information for a query, an echo for a keep-alive.
pub open spec fn packet_reply(p: Packet, cursor: (u16, u16), screen: (u16, u16)) -> Option<
    (Seq<u8>, bool),
> {
    match p {
        Packet::QueryInfo => Some(
            (
                Packet::DeviceInfo {
                    x: cursor.0,
                    y: cursor.1,
                    w: screen.0,
                    h: screen.1,
                    _dummy: 0,
                    mx: 0,
                    my: 0,
                }.wire(),
                false,
            ),
        ),
        Packet::KeepAlive => Some((Packet::KeepAlive.wire(), true)),
        _ => None,
    }
}

/// Bytes to write back to the server.
#[derive(Debug)]
pub struct Reply {
    pub bytes: Vec<u8>,
    /// Feed the watchdog once the bytes are written.
    pub feed_watchdog: bool,
}

/// A session with the server, after the handshake.
pub struct Client {
    /// The screen size, captured when the session started.
    screen_size: (u16, u16),
}

impl Client {
    /// The screen size the session reports.
    pub closed spec fn screen(&self) -> (u16, u16) {
        self.screen_size
    }

    /// Reads the server's hello and builds the answer naming the device. The
    /// session reports the actuator's current screen size throughout.
    pub fn hello<A: Actuator>(actor: &A, hello: &[u8], device_name: &str) -> (r: Result<
        (Client, Vec<u8>),
        ConnectionError,
    >)
        requires
            device_name.spec_bytes().len() <= u32::MAX - 15,
        ensures
            match hello_outcome(hello@) {
                Err(e) => r == Err::<(Client, Vec<u8>), ConnectionError>(
                    ConnectionError::ProtocolError(e),
                ),
                Ok(_) => r is Ok && r->Ok_0.0.screen() == actor.screen_size() && r->Ok_0.1@
                    == hello_back(device_name.spec_bytes()),
            },
    {
        let screen_size = actor.get_screen_size();
        let mut stream = Take::new(hello, hello.len() as u64);
        assert(hello@.take(hello@.len() as int) =~= hello@);
        proof {
            reveal_strlit("Barrier");
            vstd::string::is_ascii_spec_bytes("Barrier");
            assert("Barrier".spec_bytes() =~= barrier_lit());
        }
        match stream.read_packet_size() {
            Ok(_size) => {},
            Err(e) => {
                return Err(ConnectionError::ProtocolError(e));
            },
        }
        let ghost rest = stream.unread();
        assert(rest =~= hello@.skip(4));
        match stream.read_str_lit("Barrier") {
            Ok(()) => {},
            Err(e) => {
                assert(hello@.len() >= 11 ==> rest.take(7) =~= hello@.subrange(4, 11));
                return Err(ConnectionError::ProtocolError(e));
            },
        }
        assert(rest.take(7) =~= hello@.subrange(4, 11));
        let major = stream.read_u16();
        let minor = stream.read_u16();
        if major.is_err() || minor.is_err() {
            return Err(ConnectionError::ProtocolError(PacketError::IoError));
        }
        let name_len = device_name.len() as u32;
        let mut out: Vec<u8> = Vec::new();
        out.write_u32(7 + 2 + 2 + 4 + name_len);
        out.write_all(&[0x42u8, 0x61, 0x72, 0x72, 0x69, 0x65, 0x72]);
        out.write_u16(PROTOCOL_MAJOR);
        out.write_u16(PROTOCOL_MINOR);
        out.write_str(device_name);
        assert(out@ =~= hello_back(device_name.spec_bytes()));
        Ok((Client { screen_size }, out))
    }

    /// The answer to the hello has been written.
    pub fn connect<A: Actuator>(&self, actor: &mut A)
        requires
            old(actor).wf(),
        ensures
            final(actor).wf(),
            final(actor).calls() == old(actor).calls().push(ActuatorMsg::Connected),
    {
        actor.connected();
    }

    /// Acts on one packet from the server: forwards it to the actuator, and
    /// returns the reply to write, if any.
    pub fn handle<A: Actuator>(&self, actor: &mut A, packet: Packet) -> (r: Option<Reply>)
        requires
            old(actor).wf(),
        ensures
            final(actor).wf(),
            final(actor).calls() == old(actor).calls() + packet_calls(packet, old(actor).cursor()),
            match packet_reply(packet, old(actor).cursor(), self.screen()) {
                None => r is None,
                Some((bytes, feed)) => r is Some && r->Some_0.bytes@ == bytes
                    && r->Some_0.feed_watchdog == feed,
            },
    {
        let ghost calls = actor.calls();
        let r = match packet {
            Packet::QueryInfo => {
                let (x, y) = actor.get_cursor_position();
                let mut bytes: Vec<u8> = Vec::new();
                let info = Packet::DeviceInfo {
                    x,
                    y,
                    w: self.screen_size.0,
                    h: self.screen_size.1,
                    _dummy: 0,
                    mx: 0,
                    my: 0,
                };
                info.write_wire(&mut bytes);
                Some(Reply { bytes, feed_watchdog: false })
            },
            Packet::KeepAlive => {
                let mut bytes: Vec<u8> = Vec::new();
                Packet::KeepAlive.write_wire(&mut bytes);
                Some(Reply { bytes, feed_watchdog: true })
            },
            Packet::MouseMoveAbs { x, y } => {
                actor.set_cursor_position(x, y);
                None
            },
            Packet::MouseMove { x, y } => {
                actor.move_cursor(x, y);
                None
            },
            Packet::KeyUp { id, mask, button } => {
                actor.key_up(id, mask, button);
                None
            },
            Packet::KeyDown { id, mask, button } => {
                actor.key_down(id, mask, button);
                None
            },
            Packet::KeyRepeat { id, mask, button, count } => {
                actor.key_repeat(id, mask, button, count);
                None
            },
            Packet::MouseDown { id } => {
                actor.mouse_down(id);
                None
            },
            Packet::MouseUp { id } => {
                actor.mouse_up(id);
                None
            },
            Packet::MouseWheel { x_delta, y_delta } => {
                actor.mouse_wheel(x_delta, y_delta);
                None
            },
            Packet::InfoAck => None,
            Packet::ResetOptions => {
                actor.reset_options();
                None
            },
            Packet::CursorEnter { .. } => {
                actor.enter();
                None
            },
            Packet::CursorLeave => {
                actor.leave();
                None
            },
            // Server only packets
            Packet::DeviceInfo { .. } | Packet::ErrorUnknownDevice | Packet::ClientNoOp => None,
            Packet::Unknown(_) => None,
        };
        assert(actor.calls() =~= calls + packet_calls(packet, old(actor).cursor()));
        r
    }

    /// Reading from the server failed: the session ends.
    pub fn read_failed<A: Actuator>(&self, actor: &mut A, e: PacketError) -> (r: ConnectionError)
        requires
            old(actor).wf(),
        ensures
            final(actor).wf(),
            final(actor).calls() == old(actor).calls().push(ActuatorMsg::Disconnected),
            r == ConnectionError::ProtocolError(e),
    {
        actor.disconnected();
        ConnectionError::ProtocolError(e)
    }

    /// Writing a reply failed: the session ends.
    pub fn write_failed<A: Actuator>(&self, actor: &mut A) -> (r: ConnectionError)
        requires
            old(actor).wf(),
        ensures
            final(actor).wf(),
            final(actor).calls() == old(actor).calls().push(ActuatorMsg::Disconnected),
            r == ConnectionError::ProtocolError(PacketError::IoError),
    {
        actor.disconnected();
        ConnectionError::ProtocolError(PacketError::IoError)
    }
}

} // verus!
