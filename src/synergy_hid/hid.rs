//! Stateful encoders for the three HID reports: boot keyboard, absolute
//! wheel mouse and consumer control.
use vstd::prelude::*;

verus! {

/// Low byte of a 16-bit value.
pub open spec fn lo(v: u16) -> u8 {
    (v % 256) as u8
}

/// High byte of a 16-bit value.
pub open spec fn hi(v: u16) -> u8 {
    (v / 256) as u8
}

proof fn lemma_split_u16(v: u16)
    ensures
        (v & 0xff) as u8 == lo(v),
        (v >> 8) as u8 == hi(v),
{
    assert((v & 0xff) == v % 256) by (bit_vector);
    assert((v >> 8) == v / 256) by (bit_vector);
}

/// The mouse state: button bitmask and last absolute position, in HID units.
pub struct MouseState {
    pub buttons: u8,
    pub x: u16,
    pub y: u16,
}

/// The absolute wheel-mouse report. Wheel and pan travel with a single report
/// and are not stored.
#[derive(Debug)]
pub struct AbsMouseReport {
    button: u8,
    x: u16,
    y: u16,
}

impl View for AbsMouseReport {
    type V = MouseState;

    closed spec fn view(&self) -> MouseState {
        MouseState { buttons: self.button, x: self.x, y: self.y }
    }
}

/// The seven bytes of a mouse report: buttons, x and y little-endian, wheel, pan.
pub open spec fn mouse_bytes(m: MouseState, scroll: i8, pan: i8) -> Seq<u8> {
    seq![m.buttons, lo(m.x), hi(m.x), lo(m.y), hi(m.y), scroll as u8, pan as u8]
}

impl Default for AbsMouseReport {
    fn default() -> (r: Self)
        ensures
            r@ == (MouseState { buttons: 0, x: 0, y: 0 }),
    {
        AbsMouseReport { button: 0, x: 0, y: 0 }
    }
}

impl AbsMouseReport {
    /// Moves the pointer to the absolute HID position (x, y).
    pub fn move_to(&mut self, x: u16, y: u16) -> (r: [u8; 7])
        ensures
            final(self)@ == (MouseState { x, y, ..old(self)@ }),
            r@ == mouse_bytes(final(self)@, 0, 0),
    {
        self.x = x;
        self.y = y;
        self.send(0, 0)
    }

    /// Sets the bits of `button` in the button mask.
    pub fn mouse_down(&mut self, button: u8) -> (r: [u8; 7])
        ensures
            final(self)@ == (MouseState { buttons: old(self)@.buttons | button, ..old(self)@ }),
            r@ == mouse_bytes(final(self)@, 0, 0),
    {
        self.button = self.button | button;
        self.send(0, 0)
    }

    /// Clears the bits of `button` in the button mask.
    pub fn mouse_up(&mut self, button: u8) -> (r: [u8; 7])
        ensures
            final(self)@ == (MouseState { buttons: old(self)@.buttons & !button, ..old(self)@ }),
            r@ == mouse_bytes(final(self)@, 0, 0),
    {
        self.button = self.button & !button;
        self.send(0, 0)
    }

    /// A report that scrolls by `scroll` notches and pans by `pan` notches.
    pub fn mouse_wheel(&mut self, scroll: i8, pan: i8) -> (r: [u8; 7])
        ensures
            final(self)@ == old(self)@,
            r@ == mouse_bytes(old(self)@, scroll, pan),
    {
        self.send(scroll, pan)
    }

    /// Releases every button; the position is kept.
    pub fn clear(&mut self) -> (r: [u8; 7])
        ensures
            final(self)@ == (MouseState { buttons: 0, ..old(self)@ }),
            r@ == mouse_bytes(final(self)@, 0, 0),
    {
        self.button = 0;
        self.send(0, 0)
    }

    fn send(&self, scroll: i8, pan: i8) -> (r: [u8; 7])
        ensures
            r@ == mouse_bytes(self@, scroll, pan),
    {
        proof {
            lemma_split_u16(self.x);
            lemma_split_u16(self.y);
        }
        let report: [u8; 7] = [
            self.button,
            (self.x & 0xff) as u8,
            (self.x >> 8) as u8,
            (self.y & 0xff) as u8,
            (self.y >> 8) as u8,
            scroll as u8,
            pan as u8,
        ];
        assert(report@ =~= mouse_bytes(self@, scroll, pan));
        report
    }
}

/// True for the eight modifier usages, 0xE0 (left control) to 0xE7 (right GUI).
pub open spec fn is_modifier_key(key: u8) -> bool {
    0xE0 <= key <= 0xE7
}

/// The bit that a modifier usage sets in the modifier byte.
pub open spec fn modifier_bit(key: u8) -> Option<u8> {
    match key {
        0xE0 => Some(0x01u8),
        0xE1 => Some(0x02u8),
        0xE2 => Some(0x04u8),
        0xE3 => Some(0x08u8),
        0xE4 => Some(0x10u8),
        0xE5 => Some(0x20u8),
        0xE6 => Some(0x40u8),
        0xE7 => Some(0x80u8),
        _ => None,
    }
}

/// The keyboard state: the modifier byte and the pressed non-modifier keys,
/// oldest first.
pub struct KeyboardState {
    pub modifier: u8,
    pub keys: Seq<u8>,
}

impl KeyboardState {
    /// At most six keys, none zero, none a modifier, no key twice.
    pub open spec fn wf(self) -> bool {
        &&& self.keys.len() <= 6
        &&& self.keys.no_duplicates()
        &&& forall|i: int| 0 <= i < self.keys.len() ==> self.keys[i] != 0 && !is_modifier_key(#[trigger] self.keys[i])
    }

    /// The state after pressing `key`.
    pub open spec fn pressed(self, key: u8) -> KeyboardState {
        match modifier_bit(key) {
            Some(bit) => KeyboardState { modifier: self.modifier | bit, keys: self.keys },
            None => if key == 0 {
                // a free slot counts as holding 0; a full report rolls over
                if self.keys.len() < 6 {
                    self
                } else {
                    KeyboardState { modifier: self.modifier, keys: self.keys.drop_first() }
                }
            } else if self.keys.contains(key) {
                self
            } else if self.keys.len() < 6 {
                KeyboardState { modifier: self.modifier, keys: self.keys.push(key) }
            } else {
                KeyboardState { modifier: self.modifier, keys: self.keys.drop_first().push(key) }
            },
        }
    }

    /// The state after releasing `key`.
    pub open spec fn released(self, key: u8) -> KeyboardState {
        match modifier_bit(key) {
            Some(bit) => KeyboardState { modifier: self.modifier & !bit, keys: self.keys },
            None => KeyboardState { modifier: self.modifier, keys: self.keys.remove_value(key) },
        }
    }

    /// The empty state: no modifier, no key.
    pub open spec fn empty() -> KeyboardState {
        KeyboardState { modifier: 0, keys: Seq::empty() }
    }
}

/// Six slots holding `keys` and then zeros.
pub open spec fn key_slots(keys: Seq<u8>) -> Seq<u8> {
    keys + Seq::new((6 - keys.len()) as nat, |i: int| 0u8)
}

/// The eight bytes of a boot keyboard report.
pub open spec fn keyboard_bytes(k: KeyboardState) -> Seq<u8> {
    seq![k.modifier, 0u8] + key_slots(k.keys)
}

/// The keyboard state after applying key events in order to `s`; an event is
/// a press (`true`) or a release (`false`) of a usage.
pub open spec fn replay(s: KeyboardState, events: Seq<(bool, u8)>) -> KeyboardState
    decreases events.len(),
{
    if events.len() == 0 {
        s
    } else {
        let before = replay(s, events.drop_last());
        let (down, key) = events.last();
        if down {
            before.pressed(key)
        } else {
            before.released(key)
        }
    }
}

/// The non-modifier keys held down after `events`, in the order they went
/// down, with no bound on their number.
pub open spec fn held(events: Seq<(bool, u8)>) -> Seq<u8>
    decreases events.len(),
{
    if events.len() == 0 {
        Seq::empty()
    } else {
        let before = held(events.drop_last());
        let (down, key) = events.last();
        if is_modifier_key(key) {
            before
        } else if down {
            if before.contains(key) {
                before
            } else {
                before.push(key)
            }
        } else {
            before.remove_value(key)
        }
    }
}

/// The modifier keys held down after `events`.
pub open spec fn held_modifiers(events: Seq<(bool, u8)>) -> Set<u8>
    decreases events.len(),
{
    if events.len() == 0 {
        Set::empty()
    } else {
        let before = held_modifiers(events.drop_last());
        let (down, key) = events.last();
        if !is_modifier_key(key) {
            before
        } else if down {
            before.insert(key)
        } else {
            before.remove(key)
        }
    }
}

/// Bit `j` of the modifier byte `m` is set.
pub open spec fn modifier_held(m: u8, j: u8) -> bool {
    (m >> j) & 1u8 == 1u8
}

/// No more than six non-modifier keys are held at any point of `events`.
pub open spec fn within_rollover(events: Seq<(bool, u8)>) -> bool {
    forall|n: int| 0 <= n <= events.len() ==> (#[trigger] held(events.take(n))).len() <= 6
}

proof fn lemma_modifier_bit_update(m: u8, key: u8)
    requires
        is_modifier_key(key),
    ensures
        ({
            let bit = modifier_bit(key)->Some_0;
            let k = (key - 0xE0) as u8;
            &&& modifier_bit(key) is Some
            &&& forall|j: u8| j < 8 ==> (modifier_held(m | bit, j) <==> (modifier_held(m, j) || j == k))
            &&& forall|j: u8| j < 8 ==> (modifier_held(m & !bit, j) <==> (modifier_held(m, j) && j != k))
        }),
{
    let k = (key - 0xE0) as u8;
    let bit = modifier_bit(key)->Some_0;
    assert(bit == 1u8 << k) by {
        assert(1u8 << 0u8 == 0x01u8 && 1u8 << 1u8 == 0x02u8 && 1u8 << 2u8 == 0x04u8 && 1u8 << 3u8 == 0x08u8) by (bit_vector);
        assert(1u8 << 4u8 == 0x10u8 && 1u8 << 5u8 == 0x20u8 && 1u8 << 6u8 == 0x40u8 && 1u8 << 7u8 == 0x80u8) by (bit_vector);
    }
    assert forall|j: u8| j < 8 implies (modifier_held(m | bit, j) <==> (modifier_held(m, j) || j == k)) by {
        assert((((m | bit) >> j) & 1u8 == 1u8) <==> (((m >> j) & 1u8 == 1u8) || j == k)) by (bit_vector)
            requires bit == 1u8 << k, k < 8, j < 8;
    }
    assert forall|j: u8| j < 8 implies (modifier_held(m & !bit, j) <==> (modifier_held(m, j) && j != k)) by {
        assert((((m & !bit) >> j) & 1u8 == 1u8) <==> (((m >> j) & 1u8 == 1u8) && j != k)) by (bit_vector)
            requires bit == 1u8 << k, k < 8, j < 8;
    }
}

/// For a sequence of presses and releases starting from an empty keyboard,
/// the report after every step holds exactly the non-modifier keys held down,
/// oldest first, as long as no more than six are held at once (beyond six,
/// `KeyboardState::pressed` drops the oldest key); and its modifier byte is
/// the OR of the bits of the modifier keys held down.
pub proof fn lemma_report_tracks_held_keys(events: Seq<(bool, u8)>)
    requires
        forall|i: int| 0 <= i < events.len() ==> (#[trigger] events[i]).1 != 0,
        within_rollover(events),
    ensures
        replay(KeyboardState::empty(), events).keys == held(events),
        forall|j: u8|
            j < 8 ==> (modifier_held(replay(KeyboardState::empty(), events).modifier, j)
                <==> held_modifiers(events).contains((0xE0 + j) as u8)),
    decreases events.len(),
{
    let r = replay(KeyboardState::empty(), events);
    if events.len() == 0 {
        assert forall|j: u8| j < 8 implies !modifier_held(0u8, j) by {
            assert((0u8 >> j) & 1u8 == 0u8) by (bit_vector);
        }
    } else {
        let prev = events.drop_last();
        assert forall|n: int| 0 <= n <= prev.len() implies (#[trigger] held(prev.take(n))).len() <= 6 by {
            assert(prev.take(n) =~= events.take(n));
        }
        assert forall|i: int| 0 <= i < prev.len() implies (#[trigger] prev[i]).1 != 0 by {
            assert(prev[i] == events[i]);
        }
        lemma_report_tracks_held_keys(prev);
        assert(events.take(events.len() as int) =~= events);
        let before = replay(KeyboardState::empty(), prev);
        let (down, key) = events.last();
        if is_modifier_key(key) {
            lemma_modifier_bit_update(before.modifier, key);
            let k = (key - 0xE0) as u8;
            assert forall|j: u8| j < 8 implies (modifier_held(r.modifier, j)
                <==> held_modifiers(events).contains((0xE0 + j) as u8)) by {
                let c = (0xE0 + j) as u8;
                assert((c == key) <==> (j == k));
                assert(modifier_held(before.modifier, j) <==> held_modifiers(prev).contains(c));
                let bit = modifier_bit(key)->Some_0;
                if down {
                    assert(r.modifier == before.modifier | bit);
                    assert(held_modifiers(events) == held_modifiers(prev).insert(key));
                } else {
                    assert(r.modifier == before.modifier & !bit);
                    assert(held_modifiers(events) == held_modifiers(prev).remove(key));
                }
            }
        } else {
            assert(modifier_bit(key) is None);
            if !down {
                held(prev).index_of_first_ensures(key);
            }
        }
    }
}

/// The boot keyboard report: modifier byte and six key slots. The pressed keys
/// fill the slots from the first one on, in the order they were pressed.
pub struct KeyboardReport {
    modifier: u8,
    keycode: [u8; 6],
    count: Ghost<nat>,
}

impl View for KeyboardReport {
    type V = KeyboardState;

    closed spec fn view(&self) -> KeyboardState {
        KeyboardState { modifier: self.modifier, keys: self.keycode@.take(self.count@ as int) }
    }
}

impl KeyboardReport {
    /// The slots hold the keys then zeros, and the keys are well formed.
    pub closed spec fn wf(&self) -> bool {
        &&& self.count@ <= 6
        &&& forall|i: int| 0 <= i < self.count@ ==> self.keycode[i] != 0
        &&& forall|i: int| self.count@ <= i < 6 ==> self.keycode[i] == 0
        &&& self@.wf()
    }

    proof fn lemma_slots(&self)
        requires
            self.wf(),
        ensures
            self.keycode@ =~= key_slots(self@.keys),
    {
    }


    /// Presses `key`: a modifier sets its bit; another key takes the first free
    /// slot unless it is already held, and with no free slot the oldest key
    /// leaves.
    pub fn press(&mut self, key: u8) -> (r: [u8; 8])
        requires
            old(self).wf(),
        ensures
            final(self).wf(),
            final(self)@.wf(),
            final(self)@ == old(self)@.pressed(key),
            r@ == keyboard_bytes(final(self)@),
    {
        match self.get_modifier(key) {
            Some(modifier) => {
                self.modifier = self.modifier | modifier;
            },
            None => {
                // Don't add the same key twice
                let mut i: usize = 0;
                while i < 6
                    invariant
                        0 <= i <= 6,
                        self.wf(),
                        *self == *old(self),
                        forall|j: int| 0 <= j < i ==> self.keycode[j] != key,
                    decreases 6 - i,
                {
                    if self.keycode[i] == key {
                        proof {
                            if key != 0 {
                                assert(self@.keys[i as int] == key);
                            }
                        }
                        return self.send();
                    }
                    i = i + 1;
                }
                let mut n: usize = 0;
                while n < 6 && self.keycode[n] != 0
                    invariant
                        0 <= n <= 6,
                        n <= self.count@,
                        self.wf(),
                        *self == *old(self),
                    decreases 6 - n,
                {
                    n = n + 1;
                }
                if n < 6 {
                    assert(n == self.count@);
                    self.keycode[n] = key;
                    self.count = Ghost((n + 1) as nat);
                    assert(self@.keys =~= old(self)@.keys.push(key));
                } else {
                    // roll over the first key
                    let mut j: usize = 1;
                    while j < 6
                        invariant
                            1 <= j <= 6,
                            self.modifier == old(self).modifier,
                            forall|t: int| 0 <= t < j - 1 ==> self.keycode[t] == old(self).keycode[t + 1],
                            forall|t: int| j - 1 <= t < 6 ==> self.keycode[t] == old(self).keycode[t],
                        decreases 6 - j,
                    {
                        self.keycode[j - 1] = self.keycode[j];
                        j = j + 1;
                    }
                    self.keycode[5] = key;
                    self.count = Ghost(if key == 0 { 5nat } else { 6nat });
                    if key == 0 {
                        assert(self@.keys =~= old(self)@.keys.drop_first());
                    } else {
                        assert(self@.keys =~= old(self)@.keys.drop_first().push(key));
                    }
                }
            },
        }
        self.send()
    }

    /// Releases `key`: a modifier clears its bit; another key leaves its slot
    /// and the keys after it move down by one.
    pub fn release(&mut self, key: u8) -> (r: [u8; 8])
        requires
            old(self).wf(),
        ensures
            final(self).wf(),
            final(self)@.wf(),
            final(self)@ == old(self)@.released(key),
            r@ == keyboard_bytes(final(self)@),
    {
        match self.get_modifier(key) {
            Some(modifier) => {
                self.modifier = self.modifier & !modifier;
            },
            None => {
                proof {
                    old(self)@.keys.index_of_first_ensures(key);
                }
                let mut i: usize = 0;
                while i < 6 && self.keycode[i] != key
                    invariant
                        0 <= i <= 6,
                        self.wf(),
                        *self == *old(self),
                        forall|j: int| 0 <= j < i ==> self.keycode[j] != key,
                    decreases 6 - i,
                {
                    i = i + 1;
                }
                if i < 6 && key != 0 {
                    assert(i < self.count@);
                    assert(old(self)@.keys.index_of_first(key) == Some(i as int)) by {
                        let keys = old(self)@.keys;
                        if keys.index_of_first(key) != Some(i as int) {
                            assert(keys[i as int] == key);
                        }
                    }
                    // Compact the slots after the released key
                    let mut j: usize = i;
                    while j < 5
                        invariant
                            i <= j <= 5,
                            self.modifier == old(self).modifier,
                            forall|t: int| 0 <= t < i ==> self.keycode[t] == old(self).keycode[t],
                            forall|t: int| i <= t < j ==> self.keycode[t] == old(self).keycode[t + 1],
                            forall|t: int| j <= t < 6 ==> self.keycode[t] == old(self).keycode[t],
                        decreases 5 - j,
                    {
                        self.keycode[j] = self.keycode[j + 1];
                        j = j + 1;
                    }
                    self.keycode[5] = 0;
                    self.count = Ghost((old(self).count@ - 1) as nat);
                    assert(self@.keys =~= old(self)@.keys.remove(i as int));
                } else {
                    assert(!old(self)@.keys.contains(key)) by {
                        if old(self)@.keys.contains(key) {
                            let t = choose|t: int| 0 <= t < old(self)@.keys.len() && old(self)@.keys[t] == key;
                            assert(self.keycode[t] == key);
                        }
                    }
                }
            },
        }
        self.send()
    }

    /// Releases every key and modifier.
    pub fn clear(&mut self) -> (r: [u8; 8])
        ensures
            final(self).wf(),
            final(self)@.wf(),
            final(self)@ == KeyboardState::empty(),
            r@ == keyboard_bytes(KeyboardState::empty()),
    {
        self.modifier = 0;
        self.keycode = [0u8; 6];
        self.count = Ghost(0nat);
        assert(self@.keys =~= Seq::<u8>::empty());
        self.send()
    }

    fn send(&self) -> (r: [u8; 8])
        requires
            self.wf(),
        ensures
            r@ == keyboard_bytes(self@),
    {
        proof {
            self.lemma_slots();
        }
        let k = &self.keycode;
        let report: [u8; 8] = [self.modifier, 0, k[0], k[1], k[2], k[3], k[4], k[5]];
        assert(report@ =~= keyboard_bytes(self@));
        report
    }

    /// The modifier bit of `key`, if it is a modifier usage.
    fn get_modifier(&self, key: u8) -> (r: Option<u8>)
        ensures
            r == modifier_bit(key),
            r is None <==> !is_modifier_key(key),
    {
        match key {
            0xE0 => Some(0x01),  // Left Control
            0xE1 => Some(0x02),  // Left Shift
            0xE2 => Some(0x04),  // Left Alt
            0xE3 => Some(0x08),  // Left GUI
            0xE4 => Some(0x10),  // Right Control
            0xE5 => Some(0x20),  // Right Shift
            0xE6 => Some(0x40),  // Right Alt
            0xE7 => Some(0x80),  // Right GUI
            _ => None,
        }
    }
}

impl Default for KeyboardReport {
    fn default() -> (r: Self)
        ensures
            r.wf(),
            r@ == KeyboardState::empty(),
    {
        let r = KeyboardReport { modifier: 0, keycode: [0u8; 6], count: Ghost(0nat) };
        assert(r@.keys =~= Seq::<u8>::empty());
        r
    }
}

/// The consumer-control report: one 16-bit usage code, 0 when released.
#[derive(Debug)]
pub struct ConsumerReport {
    code: u16,
}

impl View for ConsumerReport {
    type V = u16;

    closed spec fn view(&self) -> u16 {
        self.code
    }
}

/// The two bytes of a consumer report holding `code`.
pub open spec fn consumer_bytes(code: u16) -> Seq<u8> {
    seq![lo(code), hi(code)]
}

impl Default for ConsumerReport {
    fn default() -> (r: Self)
        ensures
            r@ == 0,
    {
        ConsumerReport { code: 0 }
    }
}

impl ConsumerReport {
    /// Holds `code` as the pressed usage.
    pub fn press(&mut self, code: u16) -> (r: [u8; 2])
        ensures
            final(self)@ == code,
            r@ == consumer_bytes(code),
    {
        self.code = code;
        self.send()
    }

    /// Releases the pressed usage.
    pub fn release(&mut self) -> (r: [u8; 2])
        ensures
            final(self)@ == 0,
            r@ == consumer_bytes(0),
    {
        self.code = 0;
        self.send()
    }

    /// Returns to the released state.
    pub fn clear(&mut self) -> (r: [u8; 2])
        ensures
            final(self)@ == 0,
            r@ == consumer_bytes(0),
    {
        self.code = 0;
        self.send()
    }

    fn send(&self) -> (r: [u8; 2])
        ensures
            r@ == consumer_bytes(self@),
    {
        proof {
            lemma_split_u16(self.code);
        }
        let report: [u8; 2] = [(self.code & 0xff) as u8, (self.code >> 8) as u8];
        assert(report@ =~= consumer_bytes(self@));
        report
    }
}

} // verus!
