//! The remote-control command decoder: turns the event stream of the wireless
//! link (a smartphone app speaking the Adafruit Bluefruit LE Connect
//! controller protocol) into vehicle commands.
//!
//! The transport delivers a byte buffer per completed transfer; the buffer is
//! decoded into a batch of events, and each event maps to a steering or speed
//! command. Decode failures are reported per event and do not abort the batch.
//! Speed is ratchet-adjusted in discrete steps on a running accumulator rather
//! than read back from the vehicle on every event; when the vehicle refuses a
//! drive command, the accumulator falls back to the speed the vehicle
//! actually reports.

use vstd::prelude::*;

use crate::car::{
    spec_drive_backwards, spec_drive_forward, spec_halt, spec_steer_car, Car, CarState, CarView,
};
use crate::motor::speed_of;
use crate::steering::Direction;
use crate::tof_sensor::DistanceSensor;
use adafruit_bluefruit_protocol::button_event::{
    Button as LinkButton, ButtonState as LinkButtonState,
};
use adafruit_bluefruit_protocol::{ControllerEvent, Parser};

verus! {

/// The discrete speed step (in percent) of the remote's up and down buttons.
pub const SPEED_STEP_PERCENT: i8 = 25;

/// The buttons of the remote-control app.
#[derive(PartialEq, Eq, Debug, Copy, Clone, Structural)]
pub enum Button {
    /// The app's numbered button 1 (stop).
    Button1,
    /// The app's numbered button 2 (unused).
    Button2,
    /// The app's numbered button 3 (unused).
    Button3,
    /// The app's numbered button 4 (unused).
    Button4,
    /// Arrow up (faster).
    Up,
    /// Arrow down (slower).
    Down,
    /// Arrow left (steer left).
    Left,
    /// Arrow right (steer right).
    Right,
}

/// The transition of a button.
#[derive(PartialEq, Eq, Debug, Copy, Clone, Structural)]
pub enum ButtonState {
    /// The button was released.
    Released,
    /// The button was pressed.
    Pressed,
}

/// A button event from the remote: a (button, transition) pair.
#[derive(PartialEq, Eq, Debug, Copy, Clone, Structural)]
pub struct ButtonEvent {
    /// The button the event is about.
    pub button: Button,
    /// Whether it was pressed or released.
    pub state: ButtonState,
}

/// One entry of a decoded link batch.
#[derive(PartialEq, Eq, Debug, Copy, Clone, Structural)]
pub enum DecodedEvent {
    /// A well-formed button event.
    Button(ButtonEvent),
    /// A well-formed event of a kind the vehicle does not use (ignored).
    Unsupported,
    /// A malformed frame; reported per event, the rest of the batch is still
    /// processed.
    Malformed,
}

/// The batch of events that the link protocol decodes from a received buffer.
/// The decoding depends on the bytes alone.
pub uninterp spec fn events_of(bytes: Seq<u8>) -> Seq<DecodedEvent>;

/// Relies on `adafruit_bluefruit_protocol::Parser`: it decodes the buffer's
/// frames into controller events — button events, other event kinds, and one
/// error per malformed frame — and decodes nothing from an empty buffer.
#[verifier::external_body]
fn parse_link_events(buffer: &[u8]) -> (r: Vec<DecodedEvent>)
    ensures
        r@ == events_of(buffer@),
        buffer@.len() == 0 ==> r@.len() == 0,
{
    let mut events: Vec<DecodedEvent> = Vec::new();
    for item in Parser::new(buffer) {
        events.push(match item {
            Ok(ControllerEvent::ButtonEvent(e)) => DecodedEvent::Button(ButtonEvent {
                button: match e.button() {
                    LinkButton::Button1 => Button::Button1, LinkButton::Button2 => Button::Button2, LinkButton::Button3 => Button::Button3, LinkButton::Button4 => Button::Button4,
                    LinkButton::Up => Button::Up, LinkButton::Down => Button::Down, LinkButton::Left => Button::Left, LinkButton::Right => Button::Right,
                },
                state: match e.state() { LinkButtonState::Pressed => ButtonState::Pressed, LinkButtonState::Released => ButtonState::Released },
            }),
            Ok(_) => DecodedEvent::Unsupported, Err(_) => DecodedEvent::Malformed,
        });
    }
    events
}

/// The remote control which handles the events sent by the app.
pub struct RemoteControl {
    /// The running speed accumulator in percent: positive = forward, negative
    /// = backwards, zero = stopped.
    pub speed: i8,
}

/// The accumulator after an up press: one step faster, clamped at 100.
pub open spec fn spec_clamp_up(speed: int) -> int {
    if speed + SPEED_STEP_PERCENT > 100 {
        100
    } else {
        speed + SPEED_STEP_PERCENT
    }
}

/// The accumulator after a down press: one step slower, clamped at -100.
pub open spec fn spec_clamp_down(speed: int) -> int {
    if speed - SPEED_STEP_PERCENT < -100 {
        -100
    } else {
        speed - SPEED_STEP_PERCENT
    }
}

/// The accumulator and the car after a speed change to `new_speed` is
/// applied: a positive speed drives forward (kept only if the vehicle accepts
/// it — otherwise the accumulator falls back to the vehicle's reported
/// speed), a negative speed drives backwards, zero halts.
pub open spec fn spec_handle_speed_change(car: CarView, new_speed: int) -> (int, CarView) {
    if new_speed > 0 {
        if car.current_state == CarState::Normal && new_speed <= 100 {
            (new_speed, spec_drive_forward(car, new_speed as u8).0)
        } else {
            (speed_of(car.drive), car)
        }
    } else if new_speed < 0 {
        if -new_speed <= 100 {
            (new_speed, spec_drive_backwards(car, (-new_speed) as u8).0)
        } else {
            (speed_of(car.drive), car)
        }
    } else {
        (0int, spec_halt(car))
    }
}

/// The accumulator and the car after one button event:
/// left/right presses steer, their releases centre the steering, up/down
/// presses ratchet the speed by one step, a press of button 1 stops, and
/// everything else is ignored.
pub open spec fn spec_handle_button_event(speed: int, car: CarView, event: ButtonEvent) -> (
    int,
    CarView,
) {
    match (event.button, event.state) {
        (Button::Left, ButtonState::Pressed) => (speed, spec_steer_car(car, Direction::Left(100))),
        (Button::Right, ButtonState::Pressed) => (
            speed,
            spec_steer_car(car, Direction::Right(100)),
        ),
        (Button::Left, ButtonState::Released) => (speed, spec_steer_car(car, Direction::Centre)),
        (Button::Right, ButtonState::Released) => (speed, spec_steer_car(car, Direction::Centre)),
        (Button::Up, ButtonState::Pressed) => spec_handle_speed_change(car, spec_clamp_up(speed)),
        (Button::Down, ButtonState::Pressed) => spec_handle_speed_change(
            car,
            spec_clamp_down(speed),
        ),
        (Button::Button1, ButtonState::Pressed) => spec_handle_speed_change(car, 0),
        _ => (speed, car),
    }
}

/// The accumulator and the car after one decoded batch entry: unsupported and
/// malformed entries are ignored.
pub open spec fn spec_handle_event(speed: int, car: CarView, event: DecodedEvent) -> (int, CarView) {
    match event {
        DecodedEvent::Button(button_event) => spec_handle_button_event(speed, car, button_event),
        DecodedEvent::Unsupported => (speed, car),
        DecodedEvent::Malformed => (speed, car),
    }
}

/// The accumulator and the car after a whole batch, applied in order.
pub open spec fn spec_handle_events(speed: int, car: CarView, events: Seq<DecodedEvent>) -> (
    int,
    CarView,
)
    decreases events.len(),
{
    if events.len() == 0 {
        (speed, car)
    } else {
        let (s, c) = spec_handle_events(speed, car, events.drop_last());
        spec_handle_event(s, c, events.last())
    }
}

impl RemoteControl {
    /// The accumulator always holds a valid signed percentage.
    pub open spec fn wf(self) -> bool {
        -100 <= self.speed <= 100
    }

    /// Instantiate a new remote control to handle events; the accumulator
    /// starts at zero.
    pub fn new() -> (rc: RemoteControl)
        ensures
            rc.wf(),
            rc.speed == 0,
    {
        RemoteControl { speed: 0 }
    }

    /// Handle one received link buffer: decode it and act on every decoded
    /// event in order. Malformed frames are skipped; the rest of the batch is
    /// still processed.
    pub fn handle_bluetooth_message<DS: DistanceSensor>(
        &mut self,
        buffer: &[u8],
        car: &mut Car<DS>,
    )
        requires
            old(self).wf(),
            old(car).wf(),
        ensures
            final(self).wf(),
            final(car).wf(),
            ({
                let (s, c) = spec_handle_events(
                    old(self).speed as int,
                    old(car)@,
                    events_of(buffer@),
                );
                final(self).speed as int == s && final(car)@ == c
            }),
    {
        let events = parse_link_events(buffer);
        let ghost all_events = events@;
        let ghost speed0 = self.speed as int;
        let ghost car0 = car@;
        let mut i: usize = 0;
        while i < events.len()
            invariant
                self.wf(),
                car.wf(),
                i <= events.len(),
                events@ == all_events,
                ({
                    let (s, c) = spec_handle_events(speed0, car0, all_events.take(i as int));
                    self.speed as int == s && car@ == c
                }),
            decreases events.len() - i,
        {
            let event = events[i];
            self.handle_event(event, car);
            proof {
                assert(all_events.take(i as int + 1).drop_last() =~= all_events.take(i as int));
                assert(all_events.take(i as int + 1).last() == all_events[i as int]);
            }
            i = i + 1;
        }
        proof {
            assert(all_events.take(all_events.len() as int) =~= all_events);
        }
    }

    /// Act on one decoded batch entry.
    pub fn handle_event<DS: DistanceSensor>(&mut self, event: DecodedEvent, car: &mut Car<DS>)
        requires
            old(self).wf(),
            old(car).wf(),
        ensures
            final(self).wf(),
            final(car).wf(),
            ({
                let (s, c) = spec_handle_event(old(self).speed as int, old(car)@, event);
                final(self).speed as int == s && final(car)@ == c
            }),
    {
        match event {
            DecodedEvent::Button(button_event) => self.handle_button_event(button_event, car),
            DecodedEvent::Unsupported => {}
            DecodedEvent::Malformed => {}
        }
    }

    /// Act on one button event: steering, speed ratchet, or stop.
    pub fn handle_button_event<DS: DistanceSensor>(
        &mut self,
        event: ButtonEvent,
        car: &mut Car<DS>,
    )
        requires
            old(self).wf(),
            old(car).wf(),
        ensures
            final(self).wf(),
            final(car).wf(),
            ({
                let (s, c) = spec_handle_button_event(old(self).speed as int, old(car)@, event);
                final(self).speed as int == s && final(car)@ == c
            }),
    {
        match (event.button, event.state) {
            (Button::Left, ButtonState::Pressed) => {
                car.steer_left();
            }
            (Button::Right, ButtonState::Pressed) => {
                car.steer_right();
            }
            (Button::Left, ButtonState::Released) => {
                car.steer_center();
            }
            (Button::Right, ButtonState::Released) => {
                car.steer_center();
            }
            (Button::Up, ButtonState::Pressed) => {
                let new_speed: i8 = if self.speed > 100 - SPEED_STEP_PERCENT {
                    100
                } else {
                    self.speed + SPEED_STEP_PERCENT
                };
                self.handle_speed_change(car, new_speed);
            }
            (Button::Down, ButtonState::Pressed) => {
                let new_speed: i8 = if self.speed < -100 + SPEED_STEP_PERCENT {
                    -100
                } else {
                    self.speed - SPEED_STEP_PERCENT
                };
                self.handle_speed_change(car, new_speed);
            }
            (Button::Button1, ButtonState::Pressed) => {
                self.handle_speed_change(car, 0);
            }
            _ => {}
        }
    }

    /// Apply a new speed to the vehicle and update the accumulator. Failures
    /// are not retried — the remote has no acknowledgement channel, so the
    /// operator discovers a refusal only by the vehicle not moving — and the
    /// accumulator falls back to the speed the vehicle actually reports.
    pub fn handle_speed_change<DS: DistanceSensor>(&mut self, car: &mut Car<DS>, new_speed: i8)
        requires
            old(self).wf(),
            old(car).wf(),
            -100 <= new_speed <= 100,
        ensures
            final(self).wf(),
            final(car).wf(),
            ({
                let (s, c) = spec_handle_speed_change(old(car)@, new_speed as int);
                final(self).speed as int == s && final(car)@ == c
            }),
    {
        if new_speed > 0 {
            match car.drive_forward(new_speed as u8) {
                Ok(_) => {
                    self.speed = new_speed;
                }
                Err(_) => {
                    self.speed = car.current_speed();
                }
            }
        } else if new_speed < 0 {
            match car.drive_backwards((-new_speed) as u8) {
                Ok(_) => {
                    self.speed = new_speed;
                }
                Err(_) => {
                    self.speed = car.current_speed();
                }
            }
        } else {
            car.halt();
            self.speed = 0;
        }
    }
}

} // verus!
