//! Barrier protocol client and HID translator for a network-attached KVM device.
use vstd::prelude::*;

pub mod actuator_msg;
pub mod barrier;
pub mod bridge;
pub mod indicator;
pub mod usb_actuator;
pub mod synergy_hid;

pub use actuator_msg::ActuatorMsg;
pub use barrier::{
    Actuator, Client, ConnectionError, Packet, PacketError, PacketReader, PacketStream, PacketWriter,
    Reply, Take,
};
pub use indicator::IndicatorStatus;
pub use usb_actuator::{Output, UsbActuator};
pub use synergy_hid::{AbsMouseReport, ConsumerReport, KeyboardReport, ReportType, SynergyHid};

verus! {

} // verus!
