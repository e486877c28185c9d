//! The Barrier protocol client: packet codec and protocol driver.
use vstd::prelude::*;

pub mod actuator;
pub mod client;
pub mod error;
pub mod packet;
pub mod packet_io;
pub mod packet_stream;
pub mod take;

pub use actuator::Actuator;
pub use client::{Client, Reply};
pub use error::{ConnectionError, PacketError};
pub use packet::Packet;
pub use packet_io::{PacketReader, PacketWriter};
pub use packet_stream::PacketStream;
pub use take::Take;

verus! {

} // verus!
