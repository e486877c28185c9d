//! Translation of Synergy/Barrier input events into USB HID reports.
use vstd::prelude::*;

pub mod descriptors;
pub mod hid;
pub mod keycodes;

pub use hid::{AbsMouseReport, ConsumerReport, KeyboardReport};
pub use keycodes::{synergy_mouse_button, synergy_to_hid, KeyCode};

use descriptors::{
    ABSOLUTE_WHEEL_MOUSE_REPORT_DESCRIPTOR, BOOT_KEYBOARD_REPORT_DESCRIPTOR,
    CONSUMER_CONTROL_REPORT_DESCRIPTOR,
};
use hid::{consumer_bytes, keyboard_bytes, mouse_bytes, KeyboardState, MouseState};
use hid::modifier_bit;
use keycodes::{hid_code, mouse_button_bit};

verus! {

/// The three HID reports the device sends.
#[derive(Copy, Clone, Debug, PartialEq, Eq, Structural)]
pub enum ReportType {
    Keyboard,
    Mouse,
    Consumer,
}

/// Number of server button slots remembered between key down and key up.
pub const SERVER_BUTTONS: usize = 512;

/// Synergy's wheel unit: one notch is 120.
pub const WHEEL_DELTA: i32 = 120;

/// The translator's state as a value.
pub struct HidState {
    pub flip_mouse_wheel: bool,
    pub x: u16,
    pub y: u16,
    /// The key id that each server button last pressed, 0 when released.
    pub server_buttons: Seq<u16>,
    pub keyboard: KeyboardState,
    pub mouse: MouseState,
    pub consumer: u16,
}

/// The byte length of a report of the given type.
pub open spec fn report_len(t: ReportType) -> nat {
    match t {
        ReportType::Keyboard => 8,
        ReportType::Mouse => 7,
        ReportType::Consumer => 2,
    }
}

/// `v / 120` rounded toward zero.
pub open spec fn wheel_notches(v: i16) -> int {
    if v >= 0 {
        v as int / 120
    } else {
        -((-(v as int)) / 120)
    }
}

/// `n` clamped to the range of `i8`.
pub open spec fn clamp_i8(n: int) -> i8 {
    if n < -128 {
        -128i8
    } else if n > 127 {
        127i8
    } else {
        n as i8
    }
}

/// The notches a wheel delta turns into: `v / 120` rounded toward zero and
/// clamped to `i8`, negated (saturating) when the wheel is flipped.
pub open spec fn wheel_value(v: i16, flip: bool) -> i8 {
    let n = clamp_i8(wheel_notches(v));
    if flip {
        if n == -128 {
            127i8
        } else {
            (-n) as i8
        }
    } else {
        n
    }
}

impl HidState {
    pub open spec fn wf(self) -> bool {
        &&& self.server_buttons.len() == SERVER_BUTTONS
        &&& self.keyboard.wf()
    }

    /// The state after a key down of `key` on server button `button`.
    pub open spec fn key_down_state(self, key: u16, button: u16) -> HidState {
        let s = HidState { server_buttons: self.server_buttons.update(button as int, key), ..self };
        match hid_code(key) {
            KeyCode::Unmapped => HidState { keyboard: KeyboardState::empty(), ..s },
            KeyCode::Key(c) => HidState { keyboard: self.keyboard.pressed(c), ..s },
            KeyCode::Consumer(c) => HidState { consumer: c, ..s },
        }
    }

    /// The report a key down of `key` sends.
    pub open spec fn key_down_report(self, key: u16) -> (ReportType, Seq<u8>) {
        match hid_code(key) {
            KeyCode::Unmapped => (ReportType::Keyboard, keyboard_bytes(KeyboardState::empty())),
            KeyCode::Key(c) => (ReportType::Keyboard, keyboard_bytes(self.keyboard.pressed(c))),
            KeyCode::Consumer(c) => (ReportType::Consumer, consumer_bytes(c)),
        }
    }

    /// The state after a key up on server button `button`: the key that the
    /// button pressed is released and the button slot is cleared.
    pub open spec fn key_up_state(self, button: u16) -> HidState {
        let pressed = self.server_buttons[button as int];
        let s = HidState { server_buttons: self.server_buttons.update(button as int, 0), ..self };
        match hid_code(pressed) {
            KeyCode::Unmapped => HidState { keyboard: KeyboardState::empty(), ..s },
            KeyCode::Key(c) => HidState { keyboard: self.keyboard.released(c), ..s },
            KeyCode::Consumer(_) => HidState { consumer: 0, ..s },
        }
    }

    /// The report a key up on server button `button` sends.
    pub open spec fn key_up_report(self, button: u16) -> (ReportType, Seq<u8>) {
        match hid_code(self.server_buttons[button as int]) {
            KeyCode::Unmapped => (ReportType::Keyboard, keyboard_bytes(KeyboardState::empty())),
            KeyCode::Key(c) => (ReportType::Keyboard, keyboard_bytes(self.keyboard.released(c))),
            KeyCode::Consumer(_) => (ReportType::Consumer, consumer_bytes(0)),
        }
    }
}

/// What a key down of `key` needs of the state for the matching key up to
/// undo it: an unmapped key finds the keyboard released, a modifier finds its
/// bit clear, another key is not held and has a free slot, and a consumer key
/// finds no usage held.
pub open spec fn undoable_key_down(s: HidState, key: u16) -> bool {
    match hid_code(key) {
        KeyCode::Unmapped => s.keyboard == KeyboardState::empty(),
        KeyCode::Key(c) => match modifier_bit(c) {
            Some(bit) => s.keyboard.modifier & bit == 0,
            None => !s.keyboard.keys.contains(c) && s.keyboard.keys.len() < 6,
        },
        KeyCode::Consumer(_) => s.consumer == 0,
    }
}

/// A key down of `key` on server button `button` followed by a key up on the
/// same button returns the keyboard and consumer reports to where they were,
/// leaves the mouse alone, and empties the button's slot. The key up needs
/// no key id: the button alone names the key.
pub proof fn lemma_key_down_up_restores(s: HidState, key: u16, button: u16)
    requires
        s.wf(),
        button < SERVER_BUTTONS,
        undoable_key_down(s, key),
    ensures
        ({
            let t = s.key_down_state(key, button).key_up_state(button);
            &&& t.keyboard == s.keyboard
            &&& t.consumer == s.consumer
            &&& t.mouse == s.mouse
            &&& t.server_buttons == s.server_buttons.update(button as int, 0)
            &&& t.server_buttons[button as int] == 0
        }),
{
    let d = s.key_down_state(key, button);
    assert(d.server_buttons[button as int] == key);
    assert(d.server_buttons.update(button as int, 0) =~= s.server_buttons.update(button as int, 0));
    match hid_code(key) {
        KeyCode::Key(c) => {
            match modifier_bit(c) {
                Some(bit) => {
                    let m = s.keyboard.modifier;
                    assert((m & bit == 0) ==> ((m | bit) & !bit) == m) by (bit_vector);
                },
                None => {
                    assert(c != 0);
                    let keys = s.keyboard.keys;
                    keys.push(c).index_of_first_ensures(c);
                    assert(keys.push(c)[keys.len() as int] == c);
                    assert(keys.push(c).remove(keys.len() as int) =~= keys);
                },
            }
        },
        _ => {},
    }
}

/// Within the wheel's range, a flipped or unflipped wheel delta `v` becomes
/// sign(v) * (|v| / 120) notches, negated when flipped.
pub proof fn lemma_scroll_notches(v: i16, flip: bool)
    requires
        -127 * 120 <= v <= 127 * 120,
    ensures
        ({
            let magnitude = (if v < 0 { -v } else { v as int }) / 120;
            let signed = if v < 0 { -magnitude } else { magnitude };
            wheel_value(v, flip) == (if flip { -signed } else { signed })
        }),
{
    let a = if v < 0 { -v } else { v as int };
    assert(0 <= a / 120 <= 127) by (nonlinear_arith)
        requires 0 <= a <= 127 * 120;
}

/// Converts Synergy/Barrier events into HID reports. Owns the three report
/// encoders and remembers which key each server button pressed, since a key
/// up names its key only through the button of the matching key down.
pub struct SynergyHid {
    flip_mouse_wheel: bool,
    x: u16,
    y: u16,
    server_buttons: [u16; 512],
    // Report 1
    keyboard_report: KeyboardReport,
    // Report 2
    mouse_report: AbsMouseReport,
    // Report 3
    consumer_report: ConsumerReport,
}

impl View for SynergyHid {
    type V = HidState;

    closed spec fn view(&self) -> HidState {
        HidState {
            flip_mouse_wheel: self.flip_mouse_wheel,
            x: self.x,
            y: self.y,
            server_buttons: self.server_buttons@,
            keyboard: self.keyboard_report@,
            mouse: self.mouse_report@,
            consumer: self.consumer_report@,
        }
    }
}

/// Copies `bytes` to the front of `report` and returns that front part.
fn emit<'a>(report: &'a mut [u8], bytes: &[u8]) -> (r: &'a [u8])
    requires
        bytes@.len() <= old(report)@.len(),
    ensures
        r@ == bytes@,
        final(report)@.len() == old(report)@.len(),
        final(report)@.take(bytes@.len() as int) == bytes@,
{
    let n = bytes.len();
    let mut i: usize = 0;
    while i < n
        invariant
            n == bytes@.len(),
            i <= n,
            n <= report@.len(),
            report@.len() == old(report)@.len(),
            forall|j: int| 0 <= j < i ==> report@[j] == bytes@[j],
        decreases n - i,
    {
        report[i] = bytes[i];
        i = i + 1;
    }
    assert(report@.take(n as int) =~= bytes@);
    &report[0..n]
}

impl SynergyHid {
    pub closed spec fn wf(&self) -> bool {
        &&& self.keyboard_report.wf()
        &&& self@.wf()
    }

    /// A well-formed translator holds a well-formed state.
    pub proof fn lemma_view_wf(&self)
        requires
            self.wf(),
        ensures
            self@.wf(),
    {
    }

    /// A translator with every report released and every button slot empty.
    pub fn new(flip_mouse_wheel: bool) -> (r: Self)
        ensures
            r.wf(),
            r@ == (HidState {
                flip_mouse_wheel,
                x: 0,
                y: 0,
                server_buttons: Seq::new(512, |i: int| 0u16),
                keyboard: KeyboardState::empty(),
                mouse: MouseState { buttons: 0, x: 0, y: 0 },
                consumer: 0,
            }),
    {
        let r = Self {
            flip_mouse_wheel,
            x: 0,
            y: 0,
            server_buttons: [0u16; 512],
            keyboard_report: KeyboardReport::default(),
            mouse_report: AbsMouseReport::default(),
            consumer_report: ConsumerReport::default(),
        };
        assert(r@.server_buttons =~= Seq::new(512, |i: int| 0u16));
        r
    }

    /// The report length and HID report descriptor of a report type.
    pub fn get_report_descriptor(report_type: ReportType) -> (r: (u8, &'static [u8]))
        ensures
            r.0 == report_len(report_type),
            r.1@ == match report_type {
                ReportType::Keyboard => BOOT_KEYBOARD_REPORT_DESCRIPTOR@,
                ReportType::Mouse => ABSOLUTE_WHEEL_MOUSE_REPORT_DESCRIPTOR@,
                ReportType::Consumer => CONSUMER_CONTROL_REPORT_DESCRIPTOR@,
            },
    {
        match report_type {
            ReportType::Keyboard => (8, &BOOT_KEYBOARD_REPORT_DESCRIPTOR),
            ReportType::Mouse => (7, &ABSOLUTE_WHEEL_MOUSE_REPORT_DESCRIPTOR),
            ReportType::Consumer => (2, &CONSUMER_CONTROL_REPORT_DESCRIPTOR),
        }
    }

    /// Key down of `key` on server button `button`: remembers the key for the
    /// button and presses its HID usage. A key without a usage clears the
    /// keyboard report so that no modifier stays held.
    pub fn key_down<'a>(&mut self, key: u16, mask: u16, button: u16, report: &'a mut [u8]) -> (r: (
        ReportType,
        &'a [u8],
    ))
        requires
            old(self).wf(),
            button < SERVER_BUTTONS,
            old(report)@.len() >= 8,
        ensures
            final(self).wf(),
            final(self)@ == old(self)@.key_down_state(key, button),
            (r.0, r.1@) == old(self)@.key_down_report(key),
            final(report)@.len() == old(report)@.len(),
    {
        self.server_buttons[button as usize] = key;
        let hid = synergy_to_hid(key);
        match hid {
            KeyCode::Unmapped => {
                let bytes = self.keyboard_report.clear();
                (ReportType::Keyboard, emit(report, &bytes))
            },
            KeyCode::Key(code) => {
                let bytes = self.keyboard_report.press(code);
                (ReportType::Keyboard, emit(report, &bytes))
            },
            KeyCode::Consumer(code) => {
                let bytes = self.consumer_report.press(code);
                (ReportType::Consumer, emit(report, &bytes))
            },
        }
    }

    /// Key up on server button `button`: releases the key that the button
    /// pressed, whatever key id the event carries, and empties the slot. With
    /// no key remembered the keyboard report is cleared.
    pub fn key_up<'a>(&mut self, key: u16, mask: u16, button: u16, report: &'a mut [u8]) -> (r: (
        ReportType,
        &'a [u8],
    ))
        requires
            old(self).wf(),
            button < SERVER_BUTTONS,
            old(report)@.len() >= 8,
        ensures
            final(self).wf(),
            final(self)@ == old(self)@.key_up_state(button),
            (r.0, r.1@) == old(self)@.key_up_report(button),
            final(report)@.len() == old(report)@.len(),
    {
        let key = self.server_buttons[button as usize];
        let hid = if key != 0 {
            self.server_buttons[button as usize] = 0;
            synergy_to_hid(key)
        } else {
            KeyCode::Unmapped
        };
        proof {
            assert(hid_code(0) == KeyCode::Unmapped);
            assert(self.server_buttons@ =~= old(self)@.server_buttons.update(button as int, 0));
        }
        match hid {
            KeyCode::Unmapped => {
                let bytes = self.keyboard_report.clear();
                (ReportType::Keyboard, emit(report, &bytes))
            },
            KeyCode::Key(code) => {
                let bytes = self.keyboard_report.release(code);
                (ReportType::Keyboard, emit(report, &bytes))
            },
            KeyCode::Consumer(_code) => {
                let bytes = self.consumer_report.release();
                (ReportType::Consumer, emit(report, &bytes))
            },
        }
    }

    /// Moves the pointer to the absolute HID position (x, y).
    pub fn set_cursor_position<'a>(&mut self, x: u16, y: u16, report: &'a mut [u8]) -> (r: (
        ReportType,
        &'a [u8],
    ))
        requires
            old(self).wf(),
            old(report)@.len() >= 7,
        ensures
            final(self).wf(),
            final(self)@ == (HidState {
                x,
                y,
                mouse: MouseState { x, y, ..old(self)@.mouse },
                ..old(self)@
            }),
            r.0 == ReportType::Mouse,
            r.1@ == mouse_bytes(final(self)@.mouse, 0, 0),
            final(report)@.len() == old(report)@.len(),
    {
        self.x = x;
        self.y = y;
        let bytes = self.mouse_report.move_to(x, y);
        (ReportType::Mouse, emit(report, &bytes))
    }

    /// Presses Synergy mouse button `button` (1 left, 2 middle, 3 right).
    pub fn mouse_down<'a>(&mut self, button: i8, report: &'a mut [u8]) -> (r: (ReportType, &'a [u8]))
        requires
            old(self).wf(),
            old(report)@.len() >= 7,
        ensures
            final(self).wf(),
            final(self)@ == (HidState {
                mouse: MouseState {
                    buttons: old(self)@.mouse.buttons | mouse_button_bit(button),
                    ..old(self)@.mouse
                },
                ..old(self)@
            }),
            r.0 == ReportType::Mouse,
            r.1@ == mouse_bytes(final(self)@.mouse, 0, 0),
            final(report)@.len() == old(report)@.len(),
    {
        let bytes = self.mouse_report.mouse_down(synergy_mouse_button(button));
        (ReportType::Mouse, emit(report, &bytes))
    }

    /// Releases Synergy mouse button `button`.
    pub fn mouse_up<'a>(&mut self, button: i8, report: &'a mut [u8]) -> (r: (ReportType, &'a [u8]))
        requires
            old(self).wf(),
            old(report)@.len() >= 7,
        ensures
            final(self).wf(),
            final(self)@ == (HidState {
                mouse: MouseState {
                    buttons: old(self)@.mouse.buttons & !mouse_button_bit(button),
                    ..old(self)@.mouse
                },
                ..old(self)@
            }),
            r.0 == ReportType::Mouse,
            r.1@ == mouse_bytes(final(self)@.mouse, 0, 0),
            final(report)@.len() == old(report)@.len(),
    {
        let bytes = self.mouse_report.mouse_up(synergy_mouse_button(button));
        (ReportType::Mouse, emit(report, &bytes))
    }

    /// Scrolls by the Synergy wheel deltas (x, y): the wheel byte carries the
    /// notches of `y`, the pan byte those of `x`.
    pub fn mouse_scroll<'a>(&mut self, x: i16, y: i16, report: &'a mut [u8]) -> (r: (
        ReportType,
        &'a [u8],
    ))
        requires
            old(self).wf(),
            old(report)@.len() >= 7,
        ensures
            final(self).wf(),
            final(self)@ == old(self)@,
            r.0 == ReportType::Mouse,
            r.1@ == mouse_bytes(
                old(self)@.mouse,
                wheel_value(y, old(self)@.flip_mouse_wheel),
                wheel_value(x, old(self)@.flip_mouse_wheel),
            ),
            final(report)@.len() == old(report)@.len(),
    {
        let pan = scroll_notches(x, self.flip_mouse_wheel);
        let wheel = scroll_notches(y, self.flip_mouse_wheel);
        let bytes = self.mouse_report.mouse_wheel(wheel, pan);
        (ReportType::Mouse, emit(report, &bytes))
    }

    /// Returns the report of the given type to its released state.
    pub fn clear<'a>(&mut self, report_type: ReportType, report: &'a mut [u8]) -> (r: (
        ReportType,
        &'a [u8],
    ))
        requires
            old(self).wf(),
            old(report)@.len() >= report_len(report_type),
        ensures
            final(self).wf(),
            r.0 == report_type,
            report_type == ReportType::Keyboard ==> final(self)@ == (HidState {
                keyboard: KeyboardState::empty(),
                ..old(self)@
            }) && r.1@ == keyboard_bytes(KeyboardState::empty()),
            report_type == ReportType::Mouse ==> final(self)@ == (HidState {
                mouse: MouseState { buttons: 0, ..old(self)@.mouse },
                ..old(self)@
            }) && r.1@ == mouse_bytes(final(self)@.mouse, 0, 0),
            report_type == ReportType::Consumer ==> final(self)@ == (HidState {
                consumer: 0,
                ..old(self)@
            }) && r.1@ == consumer_bytes(0),
            final(report)@.len() == old(report)@.len(),
    {
        match report_type {
            ReportType::Keyboard => {
                let bytes = self.keyboard_report.clear();
                (ReportType::Keyboard, emit(report, &bytes))
            },
            ReportType::Mouse => {
                let bytes = self.mouse_report.clear();
                (ReportType::Mouse, emit(report, &bytes))
            },
            ReportType::Consumer => {
                let bytes = self.consumer_report.clear();
                (ReportType::Consumer, emit(report, &bytes))
            },
        }
    }
}

/// The notches of wheel delta `v`, as `wheel_value` states.
fn scroll_notches(v: i16, flip: bool) -> (r: i8)
    ensures
        r == wheel_value(v, flip),
{
    let w = v as i32;
    let n: i32 = if w >= 0 {
        w / WHEEL_DELTA
    } else {
        -((-w) / WHEEL_DELTA)
    };
    let c: i8 = if n < -128 {
        -128
    } else if n > 127 {
        127
    } else {
        n as i8
    };
    if flip {
        if c == -128 {
            127
        } else {
            -c
        }
    } else {
        c
    }
}

} // verus!
