//! The vehicle itself: the state machine that owns the actuators and the
//! collision-avoidance interlock.
//!
//! The car aggregates the steering unit, the drive motor, an optional forward
//! distance sensor, an optional display and the obstacle indicator. All state
//! transitions happen through the public operations below; each one states
//! exactly how the observable state (the [`CarView`]) changes.

use vstd::prelude::*;

use crate::motor::{command_wf, speed_of, DriveCommand, DriveError, Motor};
use crate::steering::{direction_valid, spec_steer, Direction, Steering};
use crate::tof_sensor::{DistanceSensor, SensorError};

verus! {

/// The current state of the car, based on its knowledge of its surroundings.
#[derive(PartialEq, Eq, Debug, Copy, Clone, Structural)]
pub enum CarState {
    /// Normal operation mode, the car can be remotely controlled.
    Normal,
    /// Triggered if the forward distance is too small, stale or not present at
    /// all. Only overridden once a fresh, large enough distance is seen again.
    ForwardDistanceInvalid,
}

/// Errors which can happen while interacting with the car.
#[derive(PartialEq, Eq, Debug, Copy, Clone, Structural)]
pub enum Error {
    /// An attempt was made to drive forward while this is prohibited
    /// (collision avoidance).
    NotAllowedToDriveForward,
    /// Something went wrong in the underlying motor control. See the attached
    /// error for details.
    DriveError(DriveError),
}

/// The maximum time (in milliseconds) for which it is acceptable to not get a
/// fresh distance reading. Once this timeout is exceeded the car does an
/// emergency brake.
pub const MAX_FRONT_DISTANCE_SENSOR_LAG_IN_MS: u32 = 200;

/// The minimum front distance (in millimeters). If the measured distance is
/// smaller, the car does an emergency brake.
pub const MIN_FRONT_DISTANCE_IN_MM: u16 = 500;

/// Model of the optional display: what is currently shown on it — the latest
/// distance reading in millimeters, or nothing. Rendering the text is the
/// concern of the hardware layer.
#[derive(PartialEq, Eq, Debug, Copy, Clone, Structural)]
pub struct Display {
    /// The distance currently shown, if any.
    pub shown: Option<u16>,
}

impl Display {
    /// A new display starts out blank.
    pub fn new() -> (d: Display)
        ensures
            d.shown is None,
    {
        Display { shown: None }
    }
}

/// Represents the robot car.
pub struct Car<DS: DistanceSensor> {
    /// The steering unit.
    pub steering: Steering,
    /// The drive motor.
    pub motor: Motor,
    /// The forward distance sensor, if the car has one.
    pub front_distance_sensor: Option<DS>,
    /// The display, if the car has one.
    pub display: Option<Display>,
    /// The obstacle indicator output (true = raised).
    pub led_status_obstacle: bool,
    /// The current state of the car.
    pub current_state: CarState,
    /// The value of the most recent distance sample; `None` when the most
    /// recent read failed or no sample exists yet.
    pub latest_front_distance_in_mm: Option<u16>,
    /// When the most recent distance sample was recorded (in milliseconds);
    /// `None` until the first sensor event.
    pub last_front_distance_update: Option<u64>,
}

/// Everything observable about the car: the mathematical state that the
/// contracts speak about. It leaves out only the sensor handle itself, of
/// which just the presence is relevant.
pub ghost struct CarView {
    /// The steering unit (calibration and commanded duty).
    pub steering: Steering,
    /// The currently commanded drive state.
    pub drive: DriveCommand,
    /// Whether a forward distance sensor is fitted.
    pub has_front_distance_sensor: bool,
    /// The display content, if a display is fitted.
    pub display: Option<Display>,
    /// The obstacle indicator output (true = raised).
    pub led_status_obstacle: bool,
    /// The current state of the car.
    pub current_state: CarState,
    /// The value of the most recent distance sample.
    pub latest_front_distance_in_mm: Option<u16>,
    /// When the most recent distance sample was recorded.
    pub last_front_distance_update: Option<u64>,
}

impl CarView {
    /// Well-formedness: the drive command and the steering calibration are.
    pub open spec fn wf(self) -> bool {
        &&& command_wf(self.drive)
        &&& self.steering.wf()
    }
}

impl<DS: DistanceSensor> View for Car<DS> {
    type V = CarView;

    open spec fn view(&self) -> CarView {
        CarView {
            steering: self.steering,
            drive: self.motor.current_drive_command,
            has_front_distance_sensor: self.front_distance_sensor is Some,
            display: self.display,
            led_status_obstacle: self.led_status_obstacle,
            current_state: self.current_state,
            latest_front_distance_in_mm: self.latest_front_distance_in_mm,
            last_front_distance_update: self.last_front_distance_update,
        }
    }
}

/// The car after an emergency stop that spares a reversing car: the motor is
/// braked only if it currently drives forward.
pub open spec fn spec_halt_if_driving_forward(c: CarView) -> CarView {
    if speed_of(c.drive) > 0 {
        CarView { drive: DriveCommand::Brake, ..c }
    } else {
        c
    }
}

/// The car after the interlock trips: forward motion is stopped and forward
/// drive is blocked.
pub open spec fn spec_blocked(c: CarView) -> CarView {
    CarView { current_state: CarState::ForwardDistanceInvalid, ..spec_halt_if_driving_forward(c) }
}

/// The distance evaluation decision table, evaluated at time `now_ms`:
/// 1. no sample was ever recorded — block forward drive;
/// 2. the most recent sample is older than the staleness timeout — block;
/// 3. a fresh sample with a value below the safe minimum — block and raise
///    the obstacle indicator; with a value at or above it — lower the
///    indicator and return to normal;
/// 4. a fresh sample without a value (the read failed) — keep the previous
///    state; this coast window is bounded by rule 2.
pub open spec fn spec_validate_distance(c: CarView, now_ms: u64) -> CarView {
    match c.last_front_distance_update {
        None => spec_blocked(c),
        Some(last_update) => {
            if last_update + MAX_FRONT_DISTANCE_SENSOR_LAG_IN_MS < now_ms {
                spec_blocked(c)
            } else {
                match c.latest_front_distance_in_mm {
                    Some(distance_in_mm) => {
                        if distance_in_mm < MIN_FRONT_DISTANCE_IN_MM {
                            CarView { led_status_obstacle: true, ..spec_blocked(c) }
                        } else {
                            CarView {
                                led_status_obstacle: false,
                                current_state: CarState::Normal,
                                ..c
                            }
                        }
                    }
                    None => c,
                }
            }
        }
    }
}

/// The car after the display is refreshed: a fitted display shows the latest
/// reading, or blank if there is none.
pub open spec fn spec_update_display(c: CarView) -> CarView {
    match c.display {
        Some(_) => CarView {
            display: Some(Display { shown: c.latest_front_distance_in_mm }),
            ..c
        },
        None => c,
    }
}

/// The car after a sensor event at time `now_ms` delivered `reading` (`None`
/// when the read failed): the sample is overwritten, the distance evaluation
/// runs, and the display is refreshed.
pub open spec fn spec_record_sample(c: CarView, reading: Option<u16>, now_ms: u64) -> CarView {
    spec_update_display(
        spec_validate_distance(
            CarView {
                latest_front_distance_in_mm: reading,
                last_front_distance_update: Some(now_ms),
                ..c
            },
            now_ms,
        ),
    )
}

/// The car and the result after a forward-drive request: refused while the
/// interlock is active, refused for an invalid speed, and otherwise the motor
/// is commanded forward.
pub open spec fn spec_drive_forward(c: CarView, speed: u8) -> (CarView, Result<(), Error>) {
    if c.current_state != CarState::Normal {
        (c, Err(Error::NotAllowedToDriveForward))
    } else if speed > 100 {
        (c, Err(Error::DriveError(DriveError::InvalidSpeed)))
    } else {
        (CarView { drive: DriveCommand::Forward(speed), ..c }, Ok(()))
    }
}

/// The car and the result after a backward-drive request: never blocked by
/// the interlock (there is no rear sensor, so reversing is presumed safe).
pub open spec fn spec_drive_backwards(c: CarView, speed: u8) -> (CarView, Result<(), Error>) {
    if speed > 100 {
        (c, Err(Error::DriveError(DriveError::InvalidSpeed)))
    } else {
        (CarView { drive: DriveCommand::Backwards(speed), ..c }, Ok(()))
    }
}

/// The car after an unconditional stop.
pub open spec fn spec_halt(c: CarView) -> CarView {
    CarView { drive: DriveCommand::Brake, ..c }
}

/// The car after a steering request.
pub open spec fn spec_steer_car(c: CarView, direction: Direction) -> CarView {
    CarView { steering: spec_steer(c.steering, direction), ..c }
}

impl<DS: DistanceSensor> Car<DS> {
    /// Well-formedness: the motor's command and the steering calibration are.
    pub open spec fn wf(self) -> bool {
        self@.wf()
    }

    /// Assemble a car from its peripherals. The car starts out in normal
    /// operation with no distance sample recorded yet, so the very first
    /// distance evaluation blocks forward drive until a fresh, safe reading
    /// arrives.
    pub fn new(
        steering: Steering,
        motor: Motor,
        front_distance_sensor: Option<DS>,
        display: Option<Display>,
        led_status_obstacle: bool,
    ) -> (car: Car<DS>)
        requires
            steering.wf(),
            motor.wf(),
        ensures
            car.wf(),
            car@ == (CarView {
                steering,
                drive: motor.current_drive_command,
                has_front_distance_sensor: front_distance_sensor is Some,
                display,
                led_status_obstacle,
                current_state: CarState::Normal,
                latest_front_distance_in_mm: None,
                last_front_distance_update: None,
            }),
    {
        Car {
            steering,
            motor,
            front_distance_sensor,
            display,
            led_status_obstacle,
            current_state: CarState::Normal,
            latest_front_distance_in_mm: None,
            last_front_distance_update: None,
        }
    }

    /// Steer fully to the left. Always succeeds; no interlock applies.
    pub fn steer_left(&mut self)
        requires
            old(self).wf(),
        ensures
            final(self).wf(),
            final(self)@ == spec_steer_car(old(self)@, Direction::Left(100)),
    {
        let _ = self.steering.steer(Direction::Left(100));
    }

    /// Steer straight ahead. Always succeeds; no interlock applies.
    pub fn steer_center(&mut self)
        requires
            old(self).wf(),
        ensures
            final(self).wf(),
            final(self)@ == spec_steer_car(old(self)@, Direction::Centre),
    {
        let _ = self.steering.steer(Direction::Centre);
    }

    /// Steer fully to the right. Always succeeds; no interlock applies.
    pub fn steer_right(&mut self)
        requires
            old(self).wf(),
        ensures
            final(self).wf(),
            final(self)@ == spec_steer_car(old(self)@, Direction::Right(100)),
    {
        let _ = self.steering.steer(Direction::Right(100));
    }

    /// Drive forward with the given speed (in percent). Succeeds if and only
    /// if the car is in normal operation and the speed is a valid percentage;
    /// a refused request commands nothing.
    pub fn drive_forward(&mut self, speed: u8) -> (r: Result<(), Error>)
        requires
            old(self).wf(),
        ensures
            final(self).wf(),
            final(self)@ == spec_drive_forward(old(self)@, speed).0,
            r == spec_drive_forward(old(self)@, speed).1,
            r is Ok <==> (old(self)@.current_state == CarState::Normal && speed <= 100),
    {
        if self.current_state != CarState::Normal {
            return Err(Error::NotAllowedToDriveForward);
        }

        match self.motor.drive_forward(speed) {
            Ok(()) => Ok(()),
            Err(e) => Err(Error::DriveError(e)),
        }
    }

    /// Drive backwards with the given speed (in percent). Never blocked by
    /// the interlock; fails only for an invalid speed.
    pub fn drive_backwards(&mut self, speed: u8) -> (r: Result<(), Error>)
        requires
            old(self).wf(),
        ensures
            final(self).wf(),
            final(self)@ == spec_drive_backwards(old(self)@, speed).0,
            r == spec_drive_backwards(old(self)@, speed).1,
            r is Ok <==> speed <= 100,
    {
        match self.motor.drive_backwards(speed) {
            Ok(()) => Ok(()),
            Err(e) => Err(Error::DriveError(e)),
        }
    }

    /// The current speed of the motor in percent: positive when driving
    /// forward, negative when driving backwards, zero when stopped. Read from
    /// the motor's own state, not cached.
    pub fn current_speed(&mut self) -> (r: i8)
        requires
            old(self).wf(),
        ensures
            *final(self) == *old(self),
            r as int == speed_of(old(self)@.drive),
            -100 <= r <= 100,
    {
        self.motor.current_speed()
    }

    /// Unconditional stop.
    pub fn halt(&mut self)
        requires
            old(self).wf(),
        ensures
            final(self).wf(),
            final(self)@ == spec_halt(old(self)@),
    {
        self.motor.brake();
    }

    /// Handle the sensor's data-ready signal at time `now_ms`: acknowledge
    /// the signal, read the range, overwrite the distance sample (with no
    /// value if the read failed), run the distance evaluation and refresh the
    /// display. The sensor's error is propagated for logging only.
    ///
    /// What the sensor answers is out of the core's hands, so the contract
    /// promises, for either outcome, exactly how the sample it delivered is
    /// folded into the car's state.
    pub fn handle_distance_sensor_interrupt(&mut self, now_ms: u64) -> (r: Result<(), SensorError>)
        requires
            old(self).wf(),
            old(self)@.has_front_distance_sensor,
        ensures
            final(self).wf(),
            r is Err ==> final(self)@ == spec_record_sample(old(self)@, None, now_ms),
            r is Ok ==> final(self)@.latest_front_distance_in_mm is Some
                && final(self)@ == spec_record_sample(
                    old(self)@,
                    final(self)@.latest_front_distance_in_mm,
                    now_ms,
                ),
    {
        let outcome: Result<u16, SensorError> = match &mut self.front_distance_sensor {
            Some(front_distance_sensor) => match front_distance_sensor.clear_interrupt() {
                Ok(_) => front_distance_sensor.get_distance_in_mm(),
                Err(e) => Err(e),
            },
            None => Err(SensorError::CommunicationError),
        };

        match outcome {
            Ok(distance) => {
                self.latest_front_distance_in_mm = Some(distance);
            }
            Err(_) => {
                self.latest_front_distance_in_mm = None;
            }
        }
        self.last_front_distance_update = Some(now_ms);

        self.validate_distance(now_ms);

        self.update_display();

        match outcome {
            Ok(_) => Ok(()),
            Err(e) => Err(e),
        }
    }

    /// Evaluate the distance sample at time `now_ms` and update the interlock
    /// accordingly; see [`spec_validate_distance`] for the decision table.
    /// Also invoked by a periodic timer independently of sensor events, so
    /// staleness is caught even if the sensor stops signalling entirely.
    pub fn validate_distance(&mut self, now_ms: u64)
        requires
            old(self).wf(),
        ensures
            final(self).wf(),
            final(self)@ == spec_validate_distance(old(self)@, now_ms),
    {
        let lag_ms = MAX_FRONT_DISTANCE_SENSOR_LAG_IN_MS as u64;
        match self.last_front_distance_update {
            Some(last_update) => {
                if now_ms > lag_ms && last_update < now_ms - lag_ms {
                    // took too long to get a new distance update => emergency brake
                    self.halt_if_driving_forward();
                    self.current_state = CarState::ForwardDistanceInvalid;
                } else {
                    // if we have no value we keep the previous state until we
                    // either time out (above) or have a distance available again
                    match self.latest_front_distance_in_mm {
                        Some(distance_in_mm) => {
                            if distance_in_mm < MIN_FRONT_DISTANCE_IN_MM {
                                self.halt_if_driving_forward();
                                self.led_status_obstacle = true;
                                self.current_state = CarState::ForwardDistanceInvalid;
                            } else {
                                // enough distance => allow driving forward
                                self.led_status_obstacle = false;
                                self.current_state = CarState::Normal;
                            }
                        }
                        None => {}
                    }
                }
            }
            None => {
                // no distance data available => prevent driving forward
                self.halt_if_driving_forward();
                self.current_state = CarState::ForwardDistanceInvalid;
            }
        }
    }

    /// The delay after which the periodic distance evaluation re-arms itself:
    /// strictly longer than the staleness timeout, so each check fires
    /// strictly after the boundary it is meant to detect.
    pub fn validate_distance_recheck_delay_ms() -> (r: u32)
        ensures
            r == MAX_FRONT_DISTANCE_SENSOR_LAG_IN_MS + 1,
            r > MAX_FRONT_DISTANCE_SENSOR_LAG_IN_MS,
    {
        MAX_FRONT_DISTANCE_SENSOR_LAG_IN_MS + 1
    }

    /// Halt in case the car is currently driving forward, otherwise do
    /// nothing. Used by the collision avoidance so that a car already
    /// reversing away from an obstacle is not interrupted.
    fn halt_if_driving_forward(&mut self)
        requires
            old(self).wf(),
        ensures
            final(self).wf(),
            final(self)@ == spec_halt_if_driving_forward(old(self)@),
    {
        if self.current_speed() > 0 {
            self.halt();
        }
    }

    /// Refresh a fitted display with the latest reading, or blank it when the
    /// latest read failed.
    fn update_display(&mut self)
        requires
            old(self).wf(),
        ensures
            final(self).wf(),
            final(self)@ == spec_update_display(old(self)@),
    {
        let latest = self.latest_front_distance_in_mm;
        match &mut self.display {
            Some(display) => {
                display.shown = latest;
            }
            None => {}
        }
    }
}

/// Invariant: a forward-drive request succeeds exactly in normal operation —
/// for every well-formed car and every valid speed — while a backward-drive
/// request always succeeds regardless of the state, as does steering (the
/// directions the car commands are always valid).
pub proof fn lemma_interlock_governs_drive(c: CarView, speed: u8)
    requires
        c.wf(),
        speed <= 100,
    ensures
        spec_drive_forward(c, speed).1 is Ok <==> c.current_state == CarState::Normal,
        spec_drive_backwards(c, speed).1 is Ok,
        direction_valid(Direction::Left(100)),
        direction_valid(Direction::Centre),
        direction_valid(Direction::Right(100)),
{
}

/// Invariant: the distance evaluation is idempotent — evaluating twice at the
/// same time with no new sample in between leaves the same state as
/// evaluating once.
pub proof fn lemma_validate_distance_idempotent(c: CarView, now_ms: u64)
    ensures
        spec_validate_distance(spec_validate_distance(c, now_ms), now_ms)
            == spec_validate_distance(c, now_ms),
{
}

/// If no sample was ever recorded, the first evaluation blocks forward drive,
/// and — since evaluation never records a sample — every later evaluation
/// leaves the car blocked.
pub proof fn lemma_no_sample_blocks(c: CarView, now_ms: u64, later_ms: u64)
    requires
        c.last_front_distance_update is None,
    ensures
        spec_validate_distance(c, now_ms).current_state == CarState::ForwardDistanceInvalid,
        spec_validate_distance(c, now_ms).last_front_distance_update is None,
        spec_validate_distance(spec_validate_distance(c, now_ms), later_ms).current_state
            == CarState::ForwardDistanceInvalid,
{
}

/// Whenever the most recent sample is older than the staleness timeout, the
/// evaluation blocks forward drive — regardless of the sample's value.
pub proof fn lemma_stale_sample_blocks(c: CarView, now_ms: u64)
    requires
        c.last_front_distance_update matches Some(last_update)
            && last_update + MAX_FRONT_DISTANCE_SENSOR_LAG_IN_MS < now_ms,
    ensures
        spec_validate_distance(c, now_ms).current_state == CarState::ForwardDistanceInvalid,
{
}

/// Given a fresh sample carrying a value, the car ends up blocked if and only
/// if the value is below the safe minimum distance.
pub proof fn lemma_fresh_sample_decides(c: CarView, value_mm: u16, now_ms: u64)
    ensures
        (spec_record_sample(c, Some(value_mm), now_ms).current_state
            == CarState::ForwardDistanceInvalid) <==> value_mm < MIN_FRONT_DISTANCE_IN_MM,
{
}

} // verus!
