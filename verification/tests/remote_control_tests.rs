//! Tests for the remote-control decoder: the button-to-command mapping, the
//! speed ratchet, and the decoding of raw link buffers through the real
//! Bluefruit protocol parser.

use robotcar::car::{Car, CarState, Display};
use robotcar::motor::{DriveCommand, Motor};
use robotcar::remote_control::{Button, ButtonEvent, ButtonState, RemoteControl};
use robotcar::steering::Steering;
use robotcar::tof_sensor::{DistanceSensor, SensorError};

/// A scripted distance sensor: hands out the prepared responses in order.
struct FakeSensor {
    responses: Vec<Result<u16, SensorError>>,
}

impl DistanceSensor for FakeSensor {
    fn get_distance_in_mm(&mut self) -> Result<u16, SensorError> {
        if self.responses.is_empty() {
            Err(SensorError::CommunicationError)
        } else {
            self.responses.remove(0)
        }
    }

    fn clear_interrupt(&mut self) -> Result<(), SensorError> {
        Ok(())
    }
}

/// A car that has just seen a safe distance, so it accepts forward drive.
fn unblocked_car() -> Car<FakeSensor> {
    let steering = Steering::new(4930, 800);
    let motor = Motor::new();
    let sensor = FakeSensor { responses: vec![Ok(600)] };
    let mut car = Car::new(steering, motor, Some(sensor), Some(Display::new()), false);
    car.handle_distance_sensor_interrupt(0).unwrap();
    assert_eq!(car.current_state, CarState::Normal);
    car
}

/// A car that has never seen a distance sample and was evaluated once, so the
/// interlock is active.
fn blocked_car() -> Car<FakeSensor> {
    let steering = Steering::new(4930, 800);
    let motor = Motor::new();
    let sensor = FakeSensor { responses: vec![] };
    let mut car = Car::new(steering, motor, Some(sensor), Some(Display::new()), false);
    car.validate_distance(0);
    assert_eq!(car.current_state, CarState::ForwardDistanceInvalid);
    car
}

fn pressed(button: Button) -> ButtonEvent {
    ButtonEvent { button, state: ButtonState::Pressed }
}

fn released(button: Button) -> ButtonEvent {
    ButtonEvent { button, state: ButtonState::Released }
}

#[test]
fn up_up_down_ratchets_to_25() {
    let mut car = unblocked_car();
    let mut rc = RemoteControl::new();
    assert_eq!(rc.speed, 0);

    rc.handle_button_event(pressed(Button::Up), &mut car);
    assert_eq!(rc.speed, 25);
    assert_eq!(car.motor.current_drive_command, DriveCommand::Forward(25));

    rc.handle_button_event(pressed(Button::Up), &mut car);
    assert_eq!(rc.speed, 50);
    assert_eq!(car.motor.current_drive_command, DriveCommand::Forward(50));

    rc.handle_button_event(pressed(Button::Down), &mut car);
    assert_eq!(rc.speed, 25);
    assert_eq!(car.motor.current_drive_command, DriveCommand::Forward(25));
}

#[test]
fn speed_clamps_at_plus_and_minus_100() {
    let mut car = unblocked_car();
    let mut rc = RemoteControl::new();

    for _ in 0..6 {
        rc.handle_button_event(pressed(Button::Up), &mut car);
    }
    assert_eq!(rc.speed, 100);
    assert_eq!(car.motor.current_drive_command, DriveCommand::Forward(100));

    for _ in 0..10 {
        rc.handle_button_event(pressed(Button::Down), &mut car);
    }
    assert_eq!(rc.speed, -100);
    assert_eq!(car.motor.current_drive_command, DriveCommand::Backwards(100));
}

#[test]
fn down_from_zero_drives_backwards() {
    let mut car = unblocked_car();
    let mut rc = RemoteControl::new();

    rc.handle_button_event(pressed(Button::Down), &mut car);
    assert_eq!(rc.speed, -25);
    assert_eq!(car.motor.current_drive_command, DriveCommand::Backwards(25));
}

#[test]
fn crossing_zero_halts() {
    let mut car = unblocked_car();
    let mut rc = RemoteControl::new();

    rc.handle_button_event(pressed(Button::Up), &mut car);
    rc.handle_button_event(pressed(Button::Down), &mut car);
    assert_eq!(rc.speed, 0);
    assert_eq!(car.motor.current_drive_command, DriveCommand::Brake);
}

#[test]
fn button1_stops_the_car() {
    let mut car = unblocked_car();
    let mut rc = RemoteControl::new();

    rc.handle_button_event(pressed(Button::Up), &mut car);
    rc.handle_button_event(pressed(Button::Up), &mut car);
    assert_eq!(rc.speed, 50);

    rc.handle_button_event(pressed(Button::Button1), &mut car);
    assert_eq!(rc.speed, 0);
    assert_eq!(car.motor.current_drive_command, DriveCommand::Brake);
}

#[test]
fn steering_buttons_steer_and_center() {
    let mut car = unblocked_car();
    let mut rc = RemoteControl::new();

    rc.handle_button_event(pressed(Button::Left), &mut car);
    assert_eq!(car.steering.pwm_duty, 4130);

    rc.handle_button_event(released(Button::Left), &mut car);
    assert_eq!(car.steering.pwm_duty, 4930);

    rc.handle_button_event(pressed(Button::Right), &mut car);
    assert_eq!(car.steering.pwm_duty, 5730);

    rc.handle_button_event(released(Button::Right), &mut car);
    assert_eq!(car.steering.pwm_duty, 4930);
}

#[test]
fn releases_of_speed_buttons_are_ignored() {
    let mut car = unblocked_car();
    let mut rc = RemoteControl::new();

    rc.handle_button_event(pressed(Button::Up), &mut car);
    assert_eq!(rc.speed, 25);

    rc.handle_button_event(released(Button::Up), &mut car);
    rc.handle_button_event(released(Button::Down), &mut car);
    rc.handle_button_event(released(Button::Button1), &mut car);
    assert_eq!(rc.speed, 25);
    assert_eq!(car.motor.current_drive_command, DriveCommand::Forward(25));
}

#[test]
fn unused_buttons_are_ignored() {
    let mut car = unblocked_car();
    let mut rc = RemoteControl::new();

    rc.handle_button_event(pressed(Button::Button2), &mut car);
    rc.handle_button_event(pressed(Button::Button3), &mut car);
    rc.handle_button_event(pressed(Button::Button4), &mut car);
    assert_eq!(rc.speed, 0);
    assert_eq!(car.motor.current_drive_command, DriveCommand::Stop);
}

#[test]
fn refused_forward_drive_falls_back_to_reported_speed() {
    let mut car = blocked_car();
    let mut rc = RemoteControl::new();

    rc.handle_button_event(pressed(Button::Up), &mut car);
    // the interlock refused the command: nothing was commanded and the
    // accumulator fell back to the vehicle's reported speed
    assert_eq!(car.motor.current_drive_command, DriveCommand::Stop);
    assert_eq!(rc.speed, 0);
}

#[test]
fn backwards_is_allowed_while_blocked() {
    let mut car = blocked_car();
    let mut rc = RemoteControl::new();

    rc.handle_button_event(pressed(Button::Down), &mut car);
    assert_eq!(rc.speed, -25);
    assert_eq!(car.motor.current_drive_command, DriveCommand::Backwards(25));
}

#[test]
fn link_buffer_with_up_press_accelerates() {
    let mut car = unblocked_car();
    let mut rc = RemoteControl::new();

    // "!B516" is the Bluefruit frame for "arrow up pressed"
    rc.handle_bluetooth_message(b"!B516", &mut car);
    assert_eq!(rc.speed, 25);
    assert_eq!(car.motor.current_drive_command, DriveCommand::Forward(25));
}

#[test]
fn link_buffer_with_two_frames_applies_both_in_order() {
    let mut car = unblocked_car();
    let mut rc = RemoteControl::new();

    rc.handle_bluetooth_message(b"!B516!B516", &mut car);
    assert_eq!(rc.speed, 50);
    assert_eq!(car.motor.current_drive_command, DriveCommand::Forward(50));
}

#[test]
fn link_buffer_steers_left_and_centers() {
    let mut car = unblocked_car();
    let mut rc = RemoteControl::new();

    // "!B714": arrow left pressed; "!B705": arrow left released
    rc.handle_bluetooth_message(b"!B714", &mut car);
    assert_eq!(car.steering.pwm_duty, 4130);
    rc.handle_bluetooth_message(b"!B705", &mut car);
    assert_eq!(car.steering.pwm_duty, 4930);
}

#[test]
fn malformed_frame_is_skipped_and_batch_continues() {
    let mut car = unblocked_car();
    let mut rc = RemoteControl::new();

    // first frame has a wrong checksum, the second is a valid up press
    rc.handle_bluetooth_message(b"!B51;!B516", &mut car);
    assert_eq!(rc.speed, 25);
    assert_eq!(car.motor.current_drive_command, DriveCommand::Forward(25));
}

#[test]
fn unsupported_event_kind_is_ignored() {
    let mut car = unblocked_car();
    let mut rc = RemoteControl::new();

    // a color event frame: well-formed, but of no use to the vehicle
    rc.handle_bluetooth_message(b"!C\x00\x00\x00\x9b", &mut car);
    assert_eq!(rc.speed, 0);
    assert_eq!(car.motor.current_drive_command, DriveCommand::Stop);
}

#[test]
fn empty_buffer_does_nothing() {
    let mut car = unblocked_car();
    let mut rc = RemoteControl::new();

    rc.handle_bluetooth_message(b"", &mut car);
    assert_eq!(rc.speed, 0);
    assert_eq!(car.motor.current_drive_command, DriveCommand::Stop);
    assert_eq!(car.steering.pwm_duty, 4930);
}

#[test]
fn released_up_frame_is_a_no_op() {
    let mut car = unblocked_car();
    let mut rc = RemoteControl::new();

    // "!B507": arrow up released
    rc.handle_bluetooth_message(b"!B507", &mut car);
    assert_eq!(rc.speed, 0);
    assert_eq!(car.motor.current_drive_command, DriveCommand::Stop);
}
