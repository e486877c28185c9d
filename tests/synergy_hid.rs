use barrier_kvm::synergy_hid::keycodes::{
    synergy_mouse_button, synergy_to_hid, KeyCode, HID_KEY_A, HID_KEY_B,
};
use barrier_kvm::{AbsMouseReport, ConsumerReport, KeyboardReport, ReportType, SynergyHid};

#[test]
fn test_key() {
    let mut hid = SynergyHid::new(false);
    let mut report = [0; 9];
    assert_eq!(
        hid.key_down(0x0000, 0x0000, 0x0000, &mut report),
        (ReportType::Keyboard, [0, 0, 0, 0, 0, 0, 0, 0].as_ref())
    );
    assert_eq!(
        hid.key_down('A' as u16, 0x0000, 0x0000, &mut report),
        (ReportType::Keyboard, [0, 0, HID_KEY_A, 0, 0, 0, 0, 0].as_ref())
    );

    assert_eq!(
        hid.key_down('B' as u16, 0x0000, 0x0000, &mut report),
        (ReportType::Keyboard, [0, 0, HID_KEY_A, HID_KEY_B, 0, 0, 0, 0].as_ref())
    );
    assert_eq!(
        hid.key_up('B' as u16, 0x0000, 0x0000, &mut report),
        (ReportType::Keyboard, [0, 0, HID_KEY_A, 0, 0, 0, 0, 0].as_ref())
    );
    // Wrong key up, report is cleared
    assert_eq!(
        hid.key_up('C' as u16, 0x0000, 0x0000, &mut report),
        (ReportType::Keyboard, [0, 0, 0, 0, 0, 0, 0, 0].as_ref())
    );

    // kKeyAudioMute(0xE0AD) -> HID_USAGE_CONSUMER_MUTE(0x00E2), low byte first
    assert_eq!(
        hid.key_down(0xE0AD, 0x0000, 1, &mut report),
        (ReportType::Consumer, [0xE2, 0x00].as_ref())
    );
}

#[test]
fn key_down_a_then_key_up_on_its_button() {
    let mut hid = SynergyHid::new(false);
    let mut report = [0u8; 9];
    assert_eq!(
        hid.key_down(0x0061, 0, 7, &mut report),
        (ReportType::Keyboard, [0, 0, 0x04, 0, 0, 0, 0, 0].as_ref())
    );
    assert_eq!(
        hid.key_up(0, 0, 7, &mut report),
        (ReportType::Keyboard, [0, 0, 0, 0, 0, 0, 0, 0].as_ref())
    );
}

#[test]
fn mute_press_and_release() {
    let mut hid = SynergyHid::new(false);
    let mut report = [0u8; 9];
    assert_eq!(
        hid.key_down(0xE0AD, 0, 1, &mut report),
        (ReportType::Consumer, [0xE2, 0x00].as_ref())
    );
    assert_eq!(hid.key_up(0, 0, 1, &mut report), (ReportType::Consumer, [0x00, 0x00].as_ref()));
}

#[test]
fn key_down_up_restores_previous_keys() {
    let mut hid = SynergyHid::new(false);
    let mut report = [0u8; 9];
    hid.key_down('x' as u16, 0, 3, &mut report);
    hid.key_down(0xEFE1, 0, 4, &mut report); // left shift
    assert_eq!(
        hid.key_down('y' as u16, 0, 5, &mut report),
        (ReportType::Keyboard, [0x02, 0, 0x1B, 0x1C, 0, 0, 0, 0].as_ref())
    );
    assert_eq!(
        hid.key_up(0, 0, 5, &mut report),
        (ReportType::Keyboard, [0x02, 0, 0x1B, 0, 0, 0, 0, 0].as_ref())
    );
    // the button slot is empty now: a second key up clears the keyboard
    assert_eq!(
        hid.key_up(0, 0, 5, &mut report),
        (ReportType::Keyboard, [0, 0, 0, 0, 0, 0, 0, 0].as_ref())
    );
}

#[test]
fn unmapped_key_down_clears_keyboard() {
    let mut hid = SynergyHid::new(false);
    let mut report = [0u8; 9];
    hid.key_down(0xEFE3, 0, 2, &mut report); // left control
    assert_eq!(
        hid.key_down(0x1234, 0, 3, &mut report),
        (ReportType::Keyboard, [0, 0, 0, 0, 0, 0, 0, 0].as_ref())
    );
}

#[test]
fn scroll_360_up() {
    let mut hid = SynergyHid::new(false);
    let mut report = [0u8; 9];
    assert_eq!(
        hid.mouse_scroll(0, 360, &mut report),
        (ReportType::Mouse, [0, 0, 0, 0, 0, 3, 0].as_ref())
    );
}

#[test]
fn scroll_rounds_toward_zero_and_flips() {
    let mut hid = SynergyHid::new(false);
    let mut report = [0u8; 9];
    assert_eq!(
        hid.mouse_scroll(-250, 119, &mut report),
        (ReportType::Mouse, [0, 0, 0, 0, 0, 0, (-2i8) as u8].as_ref())
    );
    let mut flipped = SynergyHid::new(true);
    assert_eq!(
        flipped.mouse_scroll(-240, 120, &mut report),
        (ReportType::Mouse, [0, 0, 0, 0, 0, (-1i8) as u8, 2].as_ref())
    );
}

#[test]
fn scroll_clamps_to_i8() {
    let mut hid = SynergyHid::new(false);
    let mut report = [0u8; 9];
    assert_eq!(
        hid.mouse_scroll(i16::MIN, i16::MAX, &mut report),
        (ReportType::Mouse, [0, 0, 0, 0, 0, 127, (-128i8) as u8].as_ref())
    );
    let mut flipped = SynergyHid::new(true);
    assert_eq!(
        flipped.mouse_scroll(i16::MIN, i16::MAX, &mut report),
        (ReportType::Mouse, [0, 0, 0, 0, 0, (-127i8) as u8, 127].as_ref())
    );
}

#[test]
fn mouse_buttons_and_position() {
    let mut hid = SynergyHid::new(false);
    let mut report = [0u8; 9];
    assert_eq!(
        hid.set_cursor_position(0x1234, 0x5678, &mut report),
        (ReportType::Mouse, [0, 0x34, 0x12, 0x78, 0x56, 0, 0].as_ref())
    );
    assert_eq!(
        hid.mouse_down(1, &mut report),
        (ReportType::Mouse, [0x01, 0x34, 0x12, 0x78, 0x56, 0, 0].as_ref())
    );
    assert_eq!(
        hid.mouse_down(3, &mut report),
        (ReportType::Mouse, [0x03, 0x34, 0x12, 0x78, 0x56, 0, 0].as_ref())
    );
    assert_eq!(
        hid.mouse_down(9, &mut report),
        (ReportType::Mouse, [0x03, 0x34, 0x12, 0x78, 0x56, 0, 0].as_ref())
    );
    assert_eq!(
        hid.mouse_up(1, &mut report),
        (ReportType::Mouse, [0x02, 0x34, 0x12, 0x78, 0x56, 0, 0].as_ref())
    );
    assert_eq!(
        hid.clear(ReportType::Mouse, &mut report),
        (ReportType::Mouse, [0, 0x34, 0x12, 0x78, 0x56, 0, 0].as_ref())
    );
}

#[test]
fn clear_each_report() {
    let mut hid = SynergyHid::new(false);
    let mut report = [0u8; 9];
    hid.key_down('q' as u16, 0, 0, &mut report);
    hid.key_down(0xE0AF, 0, 1, &mut report);
    assert_eq!(
        hid.clear(ReportType::Keyboard, &mut report),
        (ReportType::Keyboard, [0, 0, 0, 0, 0, 0, 0, 0].as_ref())
    );
    assert_eq!(hid.clear(ReportType::Consumer, &mut report), (ReportType::Consumer, [0, 0].as_ref()));
}

#[test]
fn report_descriptors() {
    let (len, desc) = SynergyHid::get_report_descriptor(ReportType::Keyboard);
    assert_eq!((len, desc.len(), desc[0], desc[3]), (8, 65, 0x05, 0x06));
    let (len, desc) = SynergyHid::get_report_descriptor(ReportType::Mouse);
    assert_eq!((len, desc.len(), desc[3]), (7, 77, 0x02));
    let (len, desc) = SynergyHid::get_report_descriptor(ReportType::Consumer);
    assert_eq!((len, desc.len(), desc[1]), (2, 23, 0x0C));
}

#[test]
fn keyboard_modifiers_set_and_clear_bits() {
    let mut k = KeyboardReport::default();
    assert_eq!(k.press(0xE1), [0x02, 0, 0, 0, 0, 0, 0, 0]);
    assert_eq!(k.press(0xE0), [0x03, 0, 0, 0, 0, 0, 0, 0]);
    assert_eq!(k.press(0xE7), [0x83, 0, 0, 0, 0, 0, 0, 0]);
    assert_eq!(k.release(0xE1), [0x81, 0, 0, 0, 0, 0, 0, 0]);
}

#[test]
fn keyboard_duplicate_press_is_idempotent() {
    let mut k = KeyboardReport::default();
    k.press(0x04);
    assert_eq!(k.press(0x04), [0, 0, 0x04, 0, 0, 0, 0, 0]);
}

#[test]
fn keyboard_rollover_drops_oldest() {
    let mut k = KeyboardReport::default();
    for key in 4u8..10 {
        k.press(key);
    }
    assert_eq!(k.press(10), [0, 0, 5, 6, 7, 8, 9, 10]);
}

#[test]
fn keyboard_release_compacts() {
    let mut k = KeyboardReport::default();
    k.press(0x04);
    k.press(0x05);
    k.press(0x06);
    assert_eq!(k.release(0x05), [0, 0, 0x04, 0x06, 0, 0, 0, 0]);
    assert_eq!(k.release(0x07), [0, 0, 0x04, 0x06, 0, 0, 0, 0]);
    assert_eq!(k.clear(), [0; 8]);
}

#[test]
fn keyboard_tracks_held_keys() {
    // press/release sequence of non-modifier keys, never more than six held
    let mut k = KeyboardReport::default();
    let steps: [(bool, u8, [u8; 8]); 6] = [
        (true, 0x10, [0, 0, 0x10, 0, 0, 0, 0, 0]),
        (true, 0x11, [0, 0, 0x10, 0x11, 0, 0, 0, 0]),
        (true, 0x12, [0, 0, 0x10, 0x11, 0x12, 0, 0, 0]),
        (false, 0x10, [0, 0, 0x11, 0x12, 0, 0, 0, 0]),
        (true, 0x10, [0, 0, 0x11, 0x12, 0x10, 0, 0, 0]),
        (false, 0x12, [0, 0, 0x11, 0x10, 0, 0, 0, 0]),
    ];
    for (down, key, expected) in steps {
        let got = if down { k.press(key) } else { k.release(key) };
        assert_eq!(got, expected);
    }
}

#[test]
fn mouse_report_encoder() {
    let mut m = AbsMouseReport::default();
    assert_eq!(m.move_to(0x7FFF, 1), [0, 0xFF, 0x7F, 1, 0, 0, 0]);
    assert_eq!(m.mouse_down(0x05), [0x05, 0xFF, 0x7F, 1, 0, 0, 0]);
    assert_eq!(m.mouse_wheel(-1, 2), [0x05, 0xFF, 0x7F, 1, 0, 0xFF, 2]);
    assert_eq!(m.mouse_up(0x01), [0x04, 0xFF, 0x7F, 1, 0, 0, 0]);
    assert_eq!(m.clear(), [0, 0xFF, 0x7F, 1, 0, 0, 0]);
}

#[test]
fn consumer_report_encoder() {
    let mut c = ConsumerReport::default();
    assert_eq!(c.press(0x0223), [0x23, 0x02]);
    assert_eq!(c.release(), [0, 0]);
    c.press(0xE9);
    assert_eq!(c.clear(), [0, 0]);
}

#[test]
fn keycode_table() {
    assert_eq!(synergy_to_hid('a' as u16), KeyCode::Key(0x04));
    assert_eq!(synergy_to_hid('z' as u16), KeyCode::Key(0x1D));
    assert_eq!(synergy_to_hid('Z' as u16), KeyCode::Key(0x1D));
    assert_eq!(synergy_to_hid('1' as u16), KeyCode::Key(0x1E));
    assert_eq!(synergy_to_hid('0' as u16), KeyCode::Key(0x27));
    assert_eq!(synergy_to_hid('!' as u16), KeyCode::Key(0x1E));
    assert_eq!(synergy_to_hid(' ' as u16), KeyCode::Key(0x2C));
    assert_eq!(synergy_to_hid(0xEF0D), KeyCode::Key(0x28)); // return
    assert_eq!(synergy_to_hid(0xEFBE), KeyCode::Key(0x3A)); // F1
    assert_eq!(synergy_to_hid(0xEFC9), KeyCode::Key(0x45)); // F12
    assert_eq!(synergy_to_hid(0xEFB5), KeyCode::Key(0x5D)); // keypad 5
    assert_eq!(synergy_to_hid(0xEFE1), KeyCode::Key(0xE1)); // left shift
    assert_eq!(synergy_to_hid(0xEFEA), KeyCode::Key(0xE6)); // right alt
    assert_eq!(synergy_to_hid(0xE0AF), KeyCode::Consumer(0x00E9)); // volume up
    assert_eq!(synergy_to_hid(0xE0B3), KeyCode::Consumer(0x00CD)); // play
    assert_eq!(synergy_to_hid(0), KeyCode::Unmapped);
    assert_eq!(synergy_to_hid(0x1234), KeyCode::Unmapped);
    assert_eq!(synergy_to_hid(0xE0FF), KeyCode::Unmapped);
}

#[test]
fn mouse_button_ids() {
    assert_eq!(synergy_mouse_button(1), 0x01);
    assert_eq!(synergy_mouse_button(2), 0x04);
    assert_eq!(synergy_mouse_button(3), 0x02);
    assert_eq!(synergy_mouse_button(4), 0);
    assert_eq!(synergy_mouse_button(-1), 0);
}

#[test]
fn keyboard_mixed_events_track_keys_and_modifiers() {
    let mut k = KeyboardReport::default();
    let steps: [(bool, u8, [u8; 8]); 7] = [
        (true, 0xE1, [0x02, 0, 0, 0, 0, 0, 0, 0]),
        (true, 0x04, [0x02, 0, 0x04, 0, 0, 0, 0, 0]),
        (true, 0xE4, [0x12, 0, 0x04, 0, 0, 0, 0, 0]),
        (false, 0xE1, [0x10, 0, 0x04, 0, 0, 0, 0, 0]),
        (true, 0x05, [0x10, 0, 0x04, 0x05, 0, 0, 0, 0]),
        (false, 0x04, [0x10, 0, 0x05, 0, 0, 0, 0, 0]),
        (false, 0xE4, [0, 0, 0x05, 0, 0, 0, 0, 0]),
    ];
    for (down, key, expected) in steps {
        let got = if down { k.press(key) } else { k.release(key) };
        assert_eq!(got, expected);
    }
}

#[test]
fn clear_with_buffers_of_report_length() {
    let mut hid = SynergyHid::new(false);
    let mut mouse = [9u8; 7];
    hid.set_cursor_position(0x0102, 0x0304, &mut [0u8; 7]);
    assert_eq!(
        hid.clear(ReportType::Mouse, &mut mouse),
        (ReportType::Mouse, [0, 0x02, 0x01, 0x04, 0x03, 0, 0].as_ref())
    );
    let mut consumer = [9u8; 2];
    assert_eq!(hid.clear(ReportType::Consumer, &mut consumer), (ReportType::Consumer, [0, 0].as_ref()));
}
