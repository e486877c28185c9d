//! The actuator that drives the three USB HID interfaces: it translates each
//! operation into reports and status changes and queues them, in order, for
//! the USB and indicator tasks to send.
use vstd::prelude::*;

use crate::actuator_msg::ActuatorMsg;
use crate::barrier::actuator::Actuator;
use crate::indicator::IndicatorStatus;
use crate::synergy_hid::hid::{consumer_bytes, keyboard_bytes, mouse_bytes, KeyboardState, MouseState};
use crate::synergy_hid::{HidState, ReportType, SynergyHid, SERVER_BUTTONS};
use vstd::arithmetic::div_mod::lemma_div_is_ordered;

verus! {

/// Largest value of the absolute pointer axes.
pub const HID_AXIS_MAX: u16 = 0x7FFF;

/// Something the actuator asks to be sent.
#[derive(Debug, PartialEq, Eq)]
pub enum Output {
    /// Bytes for the HID interface of a report type.
    Report(ReportType, Vec<u8>),
    /// A new state for the status indicator.
    Status(IndicatorStatus),
}

/// An `Output` as a value.
pub enum Effect {
    Report(ReportType, Seq<u8>),
    Status(IndicatorStatus),
}

impl View for Output {
    type V = Effect;

    open spec fn view(&self) -> Effect {
        match self {
            Output::Report(t, bytes) => Effect::Report(*t, bytes@),
            Output::Status(s) => Effect::Status(*s),
        }
    }
}

/// A screen coordinate `v` on an axis of `extent` pixels, in HID axis units:
/// `v * 0x7FFF / extent`, at most `0x7FFF`, and 0 on an axis of no pixels.
pub open spec fn scale(v: u16, extent: u16) -> u16 {
    if extent == 0 {
        0
    } else if v as int * 0x7FFF / extent as int > 0x7FFF {
        0x7FFF
    } else {
        (v as int * 0x7FFF / extent as int) as u16
    }
}

/// Scaling to HID units keeps the order of positions, sends 0 to 0 and the
/// screen's extent to the axis maximum.
pub proof fn lemma_scale_monotonic(a: u16, b: u16, extent: u16)
    requires
        a <= b,
    ensures
        scale(a, extent) <= scale(b, extent),
        scale(0, extent) == 0,
        extent > 0 ==> scale(extent, extent) == HID_AXIS_MAX,
{
    if extent > 0 {
        assert(a as int * 0x7FFF <= b as int * 0x7FFF) by (nonlinear_arith)
            requires a <= b;
        lemma_div_is_ordered(a as int * 0x7FFF, b as int * 0x7FFF, extent as int);
        assert(extent as int * 0x7FFF / extent as int == 0x7FFF) by (nonlinear_arith)
            requires extent > 0;
    }
}

/// The actuator's state as a value.
pub struct UsbState {
    pub width: u16,
    pub height: u16,
    /// The cursor in screen coordinates.
    pub x: u16,
    pub y: u16,
    pub hid: HidState,
    /// What waits to be sent, oldest first.
    pub effects: Seq<Effect>,
}

/// Translates actuator operations into HID reports for a screen of
/// `width` x `height` pixels.
pub struct UsbActuator {
    width: u16,
    height: u16,
    x: u16,
    y: u16,
    hid: SynergyHid,
    outbox: Vec<Output>,
    log: Ghost<Seq<ActuatorMsg>>,
}

impl View for UsbActuator {
    type V = UsbState;

    closed spec fn view(&self) -> UsbState {
        UsbState {
            width: self.width,
            height: self.height,
            x: self.x,
            y: self.y,
            hid: self.hid@,
            effects: self.outbox@.map_values(|o: Output| o@),
        }
    }
}

/// The effect of a report.
pub open spec fn report_effect(r: (ReportType, Seq<u8>)) -> Effect {
    Effect::Report(r.0, r.1)
}

impl UsbActuator {
    /// An actuator for a screen of `width` x `height` pixels, with every
    /// report released and nothing to send.
    pub fn new(width: u16, height: u16, flip_mouse_wheel: bool) -> (r: Self)
        ensures
            r.wf(),
            r.calls() == Seq::<ActuatorMsg>::empty(),
            r.screen_size() == (width, height),
            r.cursor() == (0u16, 0u16),
            r@.width == width,
            r@.height == height,
            r@.x == 0 && r@.y == 0,
            r@.hid.flip_mouse_wheel == flip_mouse_wheel,
            r@.hid.server_buttons == Seq::new(512, |i: int| 0u16),
            r@.hid.keyboard == KeyboardState::empty(),
            r@.hid.mouse == (MouseState { buttons: 0, x: 0, y: 0 }),
            r@.hid.consumer == 0,
            r@.effects == Seq::<Effect>::empty(),
    {
        let r = UsbActuator {
            width,
            height,
            x: 0,
            y: 0,
            hid: SynergyHid::new(flip_mouse_wheel),
            outbox: Vec::new(),
            log: Ghost(Seq::empty()),
        };
        assert(r@.effects =~= Seq::<Effect>::empty());
        r
    }

    /// Hands out what waits to be sent, oldest first, and forgets it.
    pub fn take_outputs(&mut self) -> (r: Vec<Output>)
        requires
            old(self).wf(),
        ensures
            final(self).wf(),
            r@.map_values(|o: Output| o@) == old(self)@.effects,
            final(self)@ == (UsbState { effects: Seq::empty(), ..old(self)@ }),
            final(self).calls() == old(self).calls(),
    {
        let mut out: Vec<Output> = Vec::new();
        std::mem::swap(&mut out, &mut self.outbox);
        assert(self@.effects =~= Seq::<Effect>::empty());
        out
    }

    /// The screen position (x, y) in HID axis units.
    pub fn scale_position(&self, x: u16, y: u16) -> (r: (u16, u16))
        ensures
            r == (scale(x, self@.width), scale(y, self@.height)),
    {
        (scale_axis(x, self.width), scale_axis(y, self.height))
    }

    /// Queues a report that the translator produced.
    fn send_report(&mut self, report: (ReportType, &[u8]))
        ensures
            final(self)@ == (UsbState {
                effects: old(self)@.effects.push(Effect::Report(report.0, report.1@)),
                ..old(self)@
            }),
            final(self).hid == old(self).hid,
            final(self).log == old(self).log,
    {
        let bytes = vstd::slice::slice_to_vec(report.1);
        self.outbox.push(Output::Report(report.0, bytes));
        assert(self@.effects =~= old(self)@.effects.push(Effect::Report(report.0, report.1@)));
    }

    /// Queues a status for the indicator.
    fn send_status(&mut self, status: IndicatorStatus)
        ensures
            final(self)@ == (UsbState {
                effects: old(self)@.effects.push(Effect::Status(status)),
                ..old(self)@
            }),
            final(self).hid == old(self).hid,
            final(self).log == old(self).log,
    {
        self.outbox.push(Output::Status(status));
        assert(self@.effects =~= old(self)@.effects.push(Effect::Status(status)));
    }

    fn record(&mut self, msg: ActuatorMsg)
        ensures
            final(self)@ == old(self)@,
            final(self).hid == old(self).hid,
            final(self).log@ == old(self).log@.push(msg),
    {
        self.log = Ghost(self.log@.push(msg));
    }
}

/// `v` in HID axis units, as `scale` states.
fn scale_axis(v: u16, extent: u16) -> (r: u16)
    ensures
        r == scale(v, extent),
{
    if extent == 0 {
        return 0;
    }
    assert(v as int * 0x7FFF <= 0xFFFF * 0x7FFF) by (nonlinear_arith)
        requires v <= 0xFFFF;
    let q: u32 = (v as u32) * (HID_AXIS_MAX as u32) / (extent as u32);
    if q > HID_AXIS_MAX as u32 {
        HID_AXIS_MAX
    } else {
        q as u16
    }
}

impl Actuator for UsbActuator {
    closed spec fn wf(&self) -> bool {
        self.hid.wf()
    }

    closed spec fn calls(&self) -> Seq<ActuatorMsg> {
        self.log@
    }

    open spec fn screen_size(&self) -> (u16, u16) {
        (self@.width, self@.height)
    }

    open spec fn cursor(&self) -> (u16, u16) {
        (self@.x, self@.y)
    }

    fn connected(&mut self)
        ensures
            final(self)@ == (UsbState {
                effects: old(self)@.effects.push(Effect::Status(IndicatorStatus::ServerConnected)),
                ..old(self)@
            }),
    {
        self.record(ActuatorMsg::Connected);
        self.send_status(IndicatorStatus::ServerConnected);
    }

    fn disconnected(&mut self)
        ensures
            final(self)@ == (UsbState {
                effects: old(self)@.effects.push(Effect::Status(IndicatorStatus::ServerDisconnected)),
                ..old(self)@
            }),
    {
        self.record(ActuatorMsg::Disconnected);
        self.send_status(IndicatorStatus::ServerDisconnected);
    }

    fn get_screen_size(&self) -> (r: (u16, u16)) {
        (self.width, self.height)
    }

    fn get_cursor_position(&self) -> (r: (u16, u16)) {
        (self.x, self.y)
    }

    /// Stores the position, then moves the HID pointer to it, scaled to the
    /// HID axes.
    fn set_cursor_position(&mut self, x: u16, y: u16)
        ensures
            ({
                let hx = scale(x, old(self)@.width);
                let hy = scale(y, old(self)@.height);
                let mouse = MouseState { x: hx, y: hy, ..old(self)@.hid.mouse };
                final(self)@ == UsbState {
                    x,
                    y,
                    hid: HidState { x: hx, y: hy, mouse, ..old(self)@.hid },
                    effects: old(self)@.effects.push(
                        Effect::Report(ReportType::Mouse, mouse_bytes(mouse, 0, 0)),
                    ),
                    ..old(self)@
                }
            }),
    {
        self.record(ActuatorMsg::SetCursorPosition(x, y));
        self.x = x;
        self.y = y;
        let (phy_x, phy_y) = self.scale_position(x, y);
        let mut report = [0u8; 9];
        let ret = self.hid.set_cursor_position(phy_x, phy_y, &mut report);
        self.send_report(ret);
    }

    fn mouse_down(&mut self, button: i8)
        ensures
            final(self)@ == (UsbState {
                hid: HidState {
                    mouse: MouseState {
                        buttons: old(self)@.hid.mouse.buttons | crate::synergy_hid::keycodes::mouse_button_bit(button),
                        ..old(self)@.hid.mouse
                    },
                    ..old(self)@.hid
                },
                effects: old(self)@.effects.push(
                    Effect::Report(ReportType::Mouse, mouse_bytes(final(self)@.hid.mouse, 0, 0)),
                ),
                ..old(self)@
            }),
    {
        self.record(ActuatorMsg::MouseDown(button));
        let mut report = [0u8; 9];
        let ret = self.hid.mouse_down(button, &mut report);
        self.send_report(ret);
    }

    fn mouse_up(&mut self, button: i8)
        ensures
            final(self)@ == (UsbState {
                hid: HidState {
                    mouse: MouseState {
                        buttons: old(self)@.hid.mouse.buttons & !crate::synergy_hid::keycodes::mouse_button_bit(button),
                        ..old(self)@.hid.mouse
                    },
                    ..old(self)@.hid
                },
                effects: old(self)@.effects.push(
                    Effect::Report(ReportType::Mouse, mouse_bytes(final(self)@.hid.mouse, 0, 0)),
                ),
                ..old(self)@
            }),
    {
        self.record(ActuatorMsg::MouseUp(button));
        let mut report = [0u8; 9];
        let ret = self.hid.mouse_up(button, &mut report);
        self.send_report(ret);
    }

    fn mouse_wheel(&mut self, x: i16, y: i16)
        ensures
            final(self)@ == (UsbState {
                effects: old(self)@.effects.push(
                    Effect::Report(
                        ReportType::Mouse,
                        mouse_bytes(
                            old(self)@.hid.mouse,
                            crate::synergy_hid::wheel_value(y, old(self)@.hid.flip_mouse_wheel),
                            crate::synergy_hid::wheel_value(x, old(self)@.hid.flip_mouse_wheel),
                        ),
                    ),
                ),
                ..old(self)@
            }),
    {
        self.record(ActuatorMsg::MouseWheel(x, y));
        let mut report = [0u8; 9];
        let ret = self.hid.mouse_scroll(x, y, &mut report);
        self.send_report(ret);
    }

    /// Presses the key; a button beyond the remembered range is ignored.
    fn key_down(&mut self, key: u16, mask: u16, button: u16)
        ensures
            button < SERVER_BUTTONS ==> final(self)@ == (UsbState {
                hid: old(self)@.hid.key_down_state(key, button),
                effects: old(self)@.effects.push(report_effect(old(self)@.hid.key_down_report(key))),
                ..old(self)@
            }),
            button >= SERVER_BUTTONS ==> final(self)@ == old(self)@,
    {
        self.record(ActuatorMsg::KeyDown(key, mask, button));
        if (button as usize) < SERVER_BUTTONS {
            let mut report = [0u8; 9];
            let ret = self.hid.key_down(key, mask, button, &mut report);
            self.send_report(ret);
        }
    }

    /// Host auto-repeat does the repeating: nothing is sent.
    fn key_repeat(&mut self, key: u16, mask: u16, button: u16, count: u16)
        ensures
            final(self)@ == old(self)@,
    {
        self.record(ActuatorMsg::KeyRepeat(key, mask, button, count));
    }

    /// Releases the key that `button` pressed; a button beyond the
    /// remembered range is ignored.
    fn key_up(&mut self, key: u16, mask: u16, button: u16)
        ensures
            button < SERVER_BUTTONS ==> final(self)@ == (UsbState {
                hid: old(self)@.hid.key_up_state(button),
                effects: old(self)@.effects.push(report_effect(old(self)@.hid.key_up_report(button))),
                ..old(self)@
            }),
            button >= SERVER_BUTTONS ==> final(self)@ == old(self)@,
    {
        self.record(ActuatorMsg::KeyUp(key, mask, button));
        if (button as usize) < SERVER_BUTTONS {
            let mut report = [0u8; 9];
            let ret = self.hid.key_up(key, mask, button, &mut report);
            self.send_report(ret);
        }
    }

    fn reset_options(&mut self)
        ensures
            final(self)@ == old(self)@,
    {
        self.record(ActuatorMsg::ResetOptions);
    }

    fn enter(&mut self)
        ensures
            final(self)@ == (UsbState {
                effects: old(self)@.effects.push(Effect::Status(IndicatorStatus::EnterScreen)),
                ..old(self)@
            }),
    {
        self.record(ActuatorMsg::Enter);
        self.send_status(IndicatorStatus::EnterScreen);
    }

    /// Releases everything, keyboard first, then mouse buttons, then the
    /// consumer usage, and reports leaving the screen; no key or button stays
    /// held while the cursor is on another screen.
    fn leave(&mut self)
        ensures
            ({
                let mouse = MouseState { buttons: 0, ..old(self)@.hid.mouse };
                final(self)@ == UsbState {
                    hid: HidState {
                        keyboard: KeyboardState::empty(),
                        mouse,
                        consumer: 0,
                        ..old(self)@.hid
                    },
                    effects: old(self)@.effects + seq![
                        Effect::Report(ReportType::Keyboard, keyboard_bytes(KeyboardState::empty())),
                        Effect::Report(ReportType::Mouse, mouse_bytes(mouse, 0, 0)),
                        Effect::Report(ReportType::Consumer, consumer_bytes(0)),
                        Effect::Status(IndicatorStatus::LeaveScreen),
                    ],
                    ..old(self)@
                }
            }),
    {
        self.record(ActuatorMsg::Leave);
        let mut report = [0u8; 9];
        let ret = self.hid.clear(ReportType::Keyboard, &mut report);
        self.send_report(ret);
        let ret = self.hid.clear(ReportType::Mouse, &mut report);
        self.send_report(ret);
        let ret = self.hid.clear(ReportType::Consumer, &mut report);
        self.send_report(ret);
        self.send_status(IndicatorStatus::LeaveScreen);
        let ghost mouse = MouseState { buttons: 0, ..old(self)@.hid.mouse };
        assert(self@.effects =~= old(self)@.effects + seq![
            Effect::Report(ReportType::Keyboard, keyboard_bytes(KeyboardState::empty())),
            Effect::Report(ReportType::Mouse, mouse_bytes(mouse, 0, 0)),
            Effect::Report(ReportType::Consumer, consumer_bytes(0)),
            Effect::Status(IndicatorStatus::LeaveScreen),
        ]);
        assert(self@.hid == HidState {
            keyboard: KeyboardState::empty(),
            mouse,
            consumer: 0,
            ..old(self)@.hid
        });
    }
}

} // verus!
