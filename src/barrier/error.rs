//! Errors of the packet codec and of a connection.
use vstd::prelude::*;

verus! {

/// Why a packet could not be read.
#[derive(Debug, Clone, Copy, PartialEq, Eq, Structural)]
pub enum PacketError {
    /// The underlying stream failed or ended too early.
    IoError,
    /// An expected literal did not match.
    FormatError,
    /// The declared packet length is below 4.
    PacketTooSmall,
}

/// Why a connection to the server ended.
#[derive(Debug, Clone, Copy, PartialEq, Eq, Structural)]
pub enum ConnectionError {
    /// The TCP connection failed.
    TcpError,
    /// The server sent data the client could not read, or a write failed.
    ProtocolError(PacketError),
}

impl From<PacketError> for ConnectionError {
    fn from(e: PacketError) -> (r: Self) {
        ConnectionError::ProtocolError(e)
    }
}

impl vstd::std_specs::convert::FromSpecImpl<PacketError> for ConnectionError {
    open spec fn obeys_from_spec() -> bool {
        true
    }

    open spec fn from_spec(e: PacketError) -> ConnectionError {
        ConnectionError::ProtocolError(e)
    }
}

} // verus!
