//! Checks of the controller state frame: the 13-byte big-endian layout,
//! the packed button byte, and the joystick dead zone.

use nrf24::controller::Axis;
use nrf24::controller::ControllerEvent;
use nrf24::controller::Button;
use nrf24::controller::ControllerState;

#[test]
fn fresh_state_encodes_to_zeros() {
    let state = ControllerState::new();
    assert_eq!(state.to_bytes(), [0u8; 13]);
}

#[test]
fn button_bits_pack_in_order() {
    let mut state = ControllerState::new();
    state.update_button(Button::X, true);
    assert_eq!(state.to_bytes()[0], 0x01);
    state.update_button(Button::Circle, true);
    assert_eq!(state.to_bytes()[0], 0x03);
    state.update_button(Button::R1, true);
    assert_eq!(state.to_bytes()[0], 0x83);
    state.update_button(Button::X, false);
    assert_eq!(state.to_bytes()[0], 0x82);
    state.update_button(Button::Square, true);
    state.update_button(Button::Triangle, true);
    state.update_button(Button::Select, true);
    state.update_button(Button::Start, true);
    state.update_button(Button::L1, true);
    assert_eq!(state.to_bytes()[0], 0xFE);
}

#[test]
fn frame_layout_is_big_endian() {
    let mut state = ControllerState::new();
    state.update_axis(Axis::TriggerLeft, 0x0102);
    state.update_axis(Axis::TriggerRight, 0x7FFF);
    state.update_axis(Axis::LeftX, 0x1234);
    state.update_axis(Axis::LeftY, -5000);
    state.update_axis(Axis::RightY, 0x4321);
    state.update_axis(Axis::RightX, 0x7FFF);
    let bytes = state.to_bytes();
    assert_eq!(bytes[0], 0x00);
    // L2 and R2, big-endian u16
    assert_eq!(&bytes[1..3], &[0x01, 0x02]);
    assert_eq!(&bytes[3..5], &[0x7F, 0xFF]);
    // yaw, throttle, pitch, roll, big-endian i16
    assert_eq!(&bytes[5..7], &[0x12, 0x34]);
    assert_eq!(&bytes[7..9], &[0xEC, 0x78]);
    assert_eq!(&bytes[9..11], &[0x43, 0x21]);
    assert_eq!(&bytes[11..13], &[0x7F, 0xFF]);
}

#[test]
fn dead_zone_flattens_small_axis_values() {
    let state = ControllerState::new();
    assert_eq!(state.calculate_axis_value_with_deadzone(0), 0);
    assert_eq!(state.calculate_axis_value_with_deadzone(4000), 0);
    assert_eq!(state.calculate_axis_value_with_deadzone(-4000), 0);
    assert_eq!(state.calculate_axis_value_with_deadzone(4001), 4001);
    assert_eq!(state.calculate_axis_value_with_deadzone(-4001), -4001);
    assert_eq!(state.calculate_axis_value_with_deadzone(i16::MAX), i16::MAX);
    assert_eq!(state.calculate_axis_value_with_deadzone(i16::MIN), i16::MIN);
}

#[test]
fn stick_axes_pass_through_dead_zone() {
    let mut state = ControllerState::new();
    state.update_axis(Axis::LeftX, 100);
    assert_eq!(state.yaw, 0);
    state.update_axis(Axis::LeftX, 5000);
    assert_eq!(state.yaw, 5000);
    state.update_axis(Axis::RightY, -9000);
    assert_eq!(state.pitch, -9000);
    state.update_axis(Axis::RightX, -100);
    assert_eq!(state.roll, 0);
}

#[test]
fn triggers_reinterpret_as_unsigned() {
    let mut state = ControllerState::new();
    state.update_axis(Axis::TriggerLeft, -1);
    assert_eq!(state.l2, 0xFFFF);
    state.update_axis(Axis::TriggerRight, 32767);
    assert_eq!(state.r2, 32767);
}

#[test]
fn events_drive_the_state_and_only_quit_stops() {
    let mut state = ControllerState::new();
    assert!(state.apply_event(ControllerEvent::DeviceAdded));
    assert!(state.apply_event(ControllerEvent::ButtonDown(Button::Start)));
    assert!(state.apply_event(ControllerEvent::AxisMotion(Axis::LeftY, 6000)));
    assert!(state.apply_event(ControllerEvent::AxisMotion(Axis::LeftX, 100)));
    assert_eq!(state.start, true);
    assert_eq!(state.throttle, 6000);
    assert_eq!(state.yaw, 0, "dead zone applies through events too");
    assert!(state.apply_event(ControllerEvent::ButtonUp(Button::Start)));
    assert!(!state.start);
    let before = state;
    assert!(!state.apply_event(ControllerEvent::Quit));
    assert_eq!(state, before, "quit leaves the state untouched");
    assert!(state.apply_event(ControllerEvent::DeviceRemoved));
    assert_eq!(state, before);
}
