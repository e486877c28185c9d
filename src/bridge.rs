//! The serial bridge: a host-side agent sends ready-made reports and
//! indicator states over USB serial, in frames of nine bytes: a kind byte,
//! then the data.
use vstd::prelude::*;

use crate::indicator::IndicatorStatus;
use crate::synergy_hid::ReportType;
use crate::usb_actuator::{Effect, Output};

verus! {

/// Bytes of one bridge frame.
pub const BRIDGE_FRAME_LEN: usize = 9;

/// The indicator state a status code stands for; unknown codes read as
/// `PowerOn`.
pub open spec fn status_of_code(code: u8) -> IndicatorStatus {
    match code {
        0 => IndicatorStatus::WifiConnecting,
        1 => IndicatorStatus::WifiConnected,
        2 => IndicatorStatus::ServerConnecting,
        3 => IndicatorStatus::ServerConnected,
        4 => IndicatorStatus::EnterScreen,
        5 => IndicatorStatus::LeaveScreen,
        6 => IndicatorStatus::ServerDisconnected,
        _ => IndicatorStatus::PowerOn,
    }
}

/// The indicator state of a status code.
pub fn status_from_code(code: u8) -> (r: IndicatorStatus)
    ensures
        r == status_of_code(code),
{
    match code {
        0 => IndicatorStatus::WifiConnecting,
        1 => IndicatorStatus::WifiConnected,
        2 => IndicatorStatus::ServerConnecting,
        3 => IndicatorStatus::ServerConnected,
        4 => IndicatorStatus::EnterScreen,
        5 => IndicatorStatus::LeaveScreen,
        6 => IndicatorStatus::ServerDisconnected,
        _ => IndicatorStatus::PowerOn,
    }
}

/// What a bridge frame asks for: kind 0 an indicator state, kinds 1, 2 and 3
/// a keyboard (8 bytes), mouse (7 bytes) or consumer (2 bytes) report taken
/// from the start of the data; other kinds nothing.
pub open spec fn bridge_effect(frame: Seq<u8>) -> Option<Effect> {
    match frame[0] {
        0 => Some(Effect::Status(status_of_code(frame[1]))),
        1 => Some(Effect::Report(ReportType::Keyboard, frame.subrange(1, 9))),
        2 => Some(Effect::Report(ReportType::Mouse, frame.subrange(1, 8))),
        3 => Some(Effect::Report(ReportType::Consumer, frame.subrange(1, 3))),
        _ => None,
    }
}

fn copy_range(frame: &[u8], start: usize, end: usize) -> (r: Vec<u8>)
    requires
        start <= end <= frame@.len(),
    ensures
        r@ == frame@.subrange(start as int, end as int),
{
    let mut out: Vec<u8> = Vec::new();
    let mut i = start;
    while i < end
        invariant
            start <= i <= end,
            end <= frame@.len(),
            out@ == frame@.subrange(start as int, i as int),
        decreases end - i,
    {
        out.push(frame[i]);
        i = i + 1;
        assert(out@ =~= frame@.subrange(start as int, i as int));
    }
    out
}

/// Decodes one bridge frame.
pub fn bridge_output(frame: &[u8]) -> (r: Option<Output>)
    requires
        frame@.len() == BRIDGE_FRAME_LEN,
    ensures
        match bridge_effect(frame@) {
            None => r is None,
            Some(e) => r is Some && r->Some_0@ == e,
        },
{
    match frame[0] {
        0 => Some(Output::Status(status_from_code(frame[1]))),
        1 => Some(Output::Report(ReportType::Keyboard, copy_range(frame, 1, 9))),
        2 => Some(Output::Report(ReportType::Mouse, copy_range(frame, 1, 8))),
        3 => Some(Output::Report(ReportType::Consumer, copy_range(frame, 1, 3))),
        _ => None,
    }
}

} // verus!
