//! The steering unit of the vehicle, powered by a servo motor.
//!
//! The steering angle is expressed as a signed percentage of the maximum
//! deflection from the centre position; the commanded servo duty is
//! `centre ± max_deflection · percentage / 100`. Pushing the duty onto the
//! PWM pin is the concern of the hardware layer; this model holds the
//! calibration values and the currently commanded duty.

use vstd::prelude::*;

verus! {

/// Errors which can happen while trying to steer.
#[derive(PartialEq, Eq, Debug, Copy, Clone, Structural)]
pub enum Error {
    /// An invalid steering angle has been requested. The steering angle must
    /// be given as a percentage value between 0 and 100 to be valid.
    InvalidPercentage,
}

/// A steering direction.
#[derive(PartialEq, Eq, Debug, Copy, Clone, Structural)]
pub enum Direction {
    /// Steer centre (straight ahead).
    Centre,
    /// Steer left with the given angle (in percent: 0 = centre, 100 = maximum left).
    Left(u8),
    /// Steer right with the given angle (in percent: 0 = centre, 100 = maximum right).
    Right(u8),
}

/// Whether a direction carries a valid percentage.
pub open spec fn direction_valid(direction: Direction) -> bool {
    match direction {
        Direction::Centre => true,
        Direction::Left(percentage) => percentage <= 100,
        Direction::Right(percentage) => percentage <= 100,
    }
}

/// The steering unit, modelled by its calibration and the commanded duty.
pub struct Steering {
    /// The duty currently commanded to the steering servo.
    pub pwm_duty: u16,
    /// The duty at which the wheels point straight ahead.
    pub steering_centre: u16,
    /// The maximum duty deflection from the centre to either side.
    pub max_steering_side: u16,
}

/// The duty that a valid steering direction maps to, given the calibration:
/// the centre duty, deflected by `max_steering_side · percentage / 100` to
/// the requested side, so a percentage of 100 reaches the full deflection.
pub open spec fn spec_duty(steering_centre: u16, max_steering_side: u16, direction: Direction) -> int {
    match direction {
        Direction::Centre => steering_centre as int,
        Direction::Left(percentage) => steering_centre - max_steering_side as int * percentage as int / 100,
        Direction::Right(percentage) => steering_centre + max_steering_side as int * percentage as int / 100,
    }
}

/// The steering state after a steer request: the duty is updated for a valid
/// direction and kept unchanged for an invalid one.
pub open spec fn spec_steer(s: Steering, direction: Direction) -> Steering {
    if direction_valid(direction) {
        Steering {
            pwm_duty: spec_duty(s.steering_centre, s.max_steering_side, direction) as u16,
            ..s
        }
    } else {
        s
    }
}

impl Steering {
    /// Well-formedness of the calibration: every reachable duty, from full
    /// left to full right, fits the duty range.
    pub open spec fn wf(self) -> bool {
        &&& self.max_steering_side <= self.steering_centre
        &&& self.steering_centre + self.max_steering_side <= u16::MAX
    }

    /// Create a new steering unit from its calibration; the wheels are
    /// centred to begin with.
    pub fn new(steering_centre: u16, max_steering_side: u16) -> (s: Steering)
        requires
            max_steering_side <= steering_centre,
            steering_centre + max_steering_side <= u16::MAX,
        ensures
            s.wf(),
            s.steering_centre == steering_centre,
            s.max_steering_side == max_steering_side,
            s.pwm_duty == steering_centre,
    {
        let mut s = Steering { pwm_duty: steering_centre, steering_centre, max_steering_side };
        let _ = s.steer(Direction::Centre);
        s
    }

    /// Set the new steering direction. The direction is kept until the next
    /// call which sets a new one.
    pub fn steer(&mut self, direction: Direction) -> (r: Result<(), Error>)
        requires
            old(self).wf(),
        ensures
            final(self).wf(),
            *final(self) == spec_steer(*old(self), direction),
            r is Ok <==> direction_valid(direction),
            r is Err ==> r == Err::<(), Error>(Error::InvalidPercentage),
    {
        let duty: u16 = match direction {
            Direction::Centre => self.steering_centre,
            Direction::Left(percentage) => {
                if percentage > 100 {
                    return Err(Error::InvalidPercentage);
                }
                proof {
                    lemma_deflection_bounded(self.max_steering_side, percentage);
                }
                self.steering_centre
                    - (self.max_steering_side as u32 * percentage as u32 / 100) as u16
            }
            Direction::Right(percentage) => {
                if percentage > 100 {
                    return Err(Error::InvalidPercentage);
                }
                proof {
                    lemma_deflection_bounded(self.max_steering_side, percentage);
                }
                self.steering_centre
                    + (self.max_steering_side as u32 * percentage as u32 / 100) as u16
            }
        };
        self.pwm_duty = duty;
        Ok(())
    }
}

/// The deflection commanded for any valid percentage never exceeds the
/// maximum deflection itself, and the intermediate product stays small.
proof fn lemma_deflection_bounded(max_steering_side: u16, percentage: u8)
    requires
        percentage <= 100,
    ensures
        0 <= max_steering_side as int * percentage as int / 100 <= max_steering_side,
        max_steering_side as int * percentage as int <= 6553500,
{
    let m = max_steering_side as int;
    let p = percentage as int;
    assert(0 <= m * p <= m * 100 && m * 100 <= 6553500) by (nonlinear_arith)
        requires 0 <= m <= 65535, 0 <= p <= 100;
    assert(m * p / 100 <= m * 100 / 100) by (nonlinear_arith)
        requires 0 <= m * p, m * p <= m * 100;
    assert(m * 100 / 100 == m) by (nonlinear_arith);
}

} // verus!
