//! The status indicator: eight device states, each shown as an LED blink
//! pattern.
use vstd::prelude::*;

verus! {

/// The device states the indicator shows.
#[derive(Debug, Clone, Copy, PartialEq, Eq, Structural)]
pub enum IndicatorStatus {
    PowerOn,
    WifiConnecting,
    WifiConnected,
    ServerConnecting,
    ServerConnected,
    EnterScreen,
    LeaveScreen,
    ServerDisconnected,
}

/// The (on, off) times in milliseconds of a state's blink pattern. An off
/// time of 0 means a steady light.
pub open spec fn duty_cycle(status: IndicatorStatus) -> (u64, u64) {
    match status {
        IndicatorStatus::PowerOn => (50, 50),
        IndicatorStatus::WifiConnecting => (50, 50),
        IndicatorStatus::WifiConnected => (100, 100),
        IndicatorStatus::ServerConnecting => (100, 100),
        IndicatorStatus::ServerConnected => (500, 500),
        IndicatorStatus::EnterScreen => (1000, 0),
        IndicatorStatus::LeaveScreen => (500, 500),
        IndicatorStatus::ServerDisconnected => (100, 100),
    }
}

/// The blink pattern of `status`.
pub fn get_duty_cycle(status: IndicatorStatus) -> (r: (u64, u64))
    ensures
        r == duty_cycle(status),
        r.0 > 0,
{
    match status {
        IndicatorStatus::PowerOn => (50, 50),
        IndicatorStatus::WifiConnecting => (50, 50),
        IndicatorStatus::WifiConnected => (100, 100),
        IndicatorStatus::ServerConnecting => (100, 100),
        IndicatorStatus::ServerConnected => (500, 500),
        IndicatorStatus::EnterScreen => (1000, 0),
        IndicatorStatus::LeaveScreen => (500, 500),
        IndicatorStatus::ServerDisconnected => (100, 100),
    }
}

/// The indicator's blinking: the state shown and whether the LED is in the
/// on part of its cycle. The driver of the LED asks for the next phase, waits
/// that long for a new state, and reports either the new state or that the
/// time ran out.
pub struct Indicator {
    pub status: IndicatorStatus,
    pub led_on: bool,
}

impl Indicator {
    /// Power on, LED in its on phase.
    pub fn new() -> (r: Self)
        ensures
            r.status == IndicatorStatus::PowerOn,
            r.led_on,
    {
        Indicator { status: IndicatorStatus::PowerOn, led_on: true }
    }

    /// The phase to show now: whether the LED is lit and for how many
    /// milliseconds. A phase of zero length is skipped.
    pub fn phase(&mut self) -> (r: (bool, u64))
        ensures
            final(self).status == old(self).status,
            r.0 == final(self).led_on,
            r.1 > 0,
            ({
                let (on, off) = duty_cycle(old(self).status);
                let skip = if old(self).led_on { on == 0 } else { off == 0 };
                &&& final(self).led_on == (old(self).led_on != skip)
                &&& r.1 == if final(self).led_on { on } else { off }
            }),
    {
        let (on, off) = get_duty_cycle(self.status);
        let period = if self.led_on { on } else { off };
        if period == 0 {
            self.led_on = !self.led_on;
        }
        (self.led_on, if self.led_on { on } else { off })
    }

    /// The phase ran out with no new state: the LED toggles.
    pub fn timeout(&mut self)
        ensures
            final(self).status == old(self).status,
            final(self).led_on == !old(self).led_on,
    {
        self.led_on = !self.led_on;
    }

    /// A new state arrived; the LED keeps its phase.
    pub fn receive(&mut self, status: IndicatorStatus)
        ensures
            final(self).status == status,
            final(self).led_on == old(self).led_on,
    {
        self.status = status;
    }
}

} // verus!
