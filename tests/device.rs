use barrier_kvm::bridge::{bridge_output, status_from_code};
use barrier_kvm::indicator::{get_duty_cycle, Indicator};
use barrier_kvm::usb_actuator::Output;
use barrier_kvm::{ActuatorMsg, Actuator, IndicatorStatus, ReportType, UsbActuator};

#[test]
fn scaling_to_hid_axes() {
    let actor = UsbActuator::new(1920, 1080, false);
    assert_eq!(actor.scale_position(0, 0), (0, 0));
    assert_eq!(actor.scale_position(1920, 1080), (0x7FFF, 0x7FFF));
    assert_eq!(actor.scale_position(960, 540), (16383, 16383));
    assert_eq!(actor.scale_position(4000, 100), (0x7FFF, 3033));
    let empty = UsbActuator::new(0, 0, false);
    assert_eq!(empty.scale_position(5, 5), (0, 0));
}

#[test]
fn scaling_keeps_order() {
    let actor = UsbActuator::new(1366, 768, false);
    let mut last = 0;
    for x in 0..=1366u16 {
        let (hx, _) = actor.scale_position(x, 0);
        assert!(hx >= last);
        last = hx;
    }
}

#[test]
fn set_cursor_position_sends_scaled_report() {
    let mut actor = UsbActuator::new(1920, 1080, false);
    actor.set_cursor_position(1920, 0);
    assert_eq!(actor.get_cursor_position(), (1920, 0));
    assert_eq!(actor.get_screen_size(), (1920, 1080));
    assert_eq!(
        actor.take_outputs(),
        vec![Output::Report(ReportType::Mouse, vec![0, 0xFF, 0x7F, 0, 0, 0, 0])]
    );
}

#[test]
fn flipped_wheel_actuator() {
    let mut actor = UsbActuator::new(1920, 1080, true);
    actor.mouse_wheel(120, 240);
    assert_eq!(
        actor.take_outputs(),
        vec![Output::Report(ReportType::Mouse, vec![0, 0, 0, 0, 0, 0xFE, 0xFF])]
    );
}

#[test]
fn duty_cycles() {
    assert_eq!(get_duty_cycle(IndicatorStatus::PowerOn), (50, 50));
    assert_eq!(get_duty_cycle(IndicatorStatus::WifiConnected), (100, 100));
    assert_eq!(get_duty_cycle(IndicatorStatus::ServerConnected), (500, 500));
    assert_eq!(get_duty_cycle(IndicatorStatus::EnterScreen), (1000, 0));
    assert_eq!(get_duty_cycle(IndicatorStatus::ServerDisconnected), (100, 100));
}

#[test]
fn indicator_skips_empty_phase() {
    let mut ind = Indicator::new();
    assert_eq!(ind.phase(), (true, 50));
    ind.timeout();
    assert_eq!(ind.phase(), (false, 50));
    ind.receive(IndicatorStatus::EnterScreen);
    // the off phase of a steady light has no length: it stays lit
    assert_eq!(ind.phase(), (true, 1000));
    ind.timeout();
    assert_eq!(ind.phase(), (true, 1000));
}

#[test]
fn actuator_messages_decode() {
    assert_eq!(
        ActuatorMsg::read_msg(&[0x09, 0x02, 0x00, 0x61, 0x00, 0x07, 0x00, 0xFF]),
        Some((ActuatorMsg::KeyDown(2, 0x61, 7), 7))
    );
    assert_eq!(
        ActuatorMsg::read_msg(&[0x05, 0x34, 0x12, 0x78, 0x56]),
        Some((ActuatorMsg::SetCursorPosition(0x1234, 0x5678), 5))
    );
    assert_eq!(
        ActuatorMsg::read_msg(&[0x08, 0x88, 0xFF, 0x68, 0x01]),
        Some((ActuatorMsg::MouseWheel(-120, 360), 5))
    );
    assert_eq!(ActuatorMsg::read_msg(&[0x06, 0xFF]), Some((ActuatorMsg::MouseDown(-1), 2)));
    assert_eq!(ActuatorMsg::read_msg(&[0x0a, 1, 0, 2, 0, 3, 0]), None);
    assert_eq!(ActuatorMsg::read_msg(&[0x0e]), Some((ActuatorMsg::Leave, 1)));
    assert_eq!(ActuatorMsg::read_msg(&[0x03]), Some((ActuatorMsg::Unknown, 1)));
    assert_eq!(ActuatorMsg::read_msg(&[]), None);
}

#[test]
fn bridge_frames() {
    assert_eq!(
        bridge_output(&[0, 4, 0, 0, 0, 0, 0, 0, 0]),
        Some(Output::Status(IndicatorStatus::EnterScreen))
    );
    assert_eq!(
        bridge_output(&[1, 2, 0, 4, 5, 6, 7, 8, 9]),
        Some(Output::Report(ReportType::Keyboard, vec![2, 0, 4, 5, 6, 7, 8, 9]))
    );
    assert_eq!(
        bridge_output(&[2, 1, 2, 3, 4, 5, 6, 7, 8]),
        Some(Output::Report(ReportType::Mouse, vec![1, 2, 3, 4, 5, 6, 7]))
    );
    assert_eq!(
        bridge_output(&[3, 0xE2, 0, 9, 9, 9, 9, 9, 9]),
        Some(Output::Report(ReportType::Consumer, vec![0xE2, 0]))
    );
    assert_eq!(bridge_output(&[7, 0, 0, 0, 0, 0, 0, 0, 0]), None);
    assert_eq!(status_from_code(6), IndicatorStatus::ServerDisconnected);
    assert_eq!(status_from_code(200), IndicatorStatus::PowerOn);
}
