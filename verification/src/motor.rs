//! Model of the drive motor's commanded state.
//!
//! The vehicle's drive motor sits behind a TB6612FNG motor driver; the duty
//! actually pushed onto the PWM pin is the concern of the hardware layer. What
//! the core needs — and what this model holds — is the currently commanded
//! drive state: direction and speed in percent, or braking/coasting.

use vstd::prelude::*;

verus! {

/// Errors which can happen while trying to set a speed on the drive motor.
#[derive(PartialEq, Eq, Debug, Copy, Clone, Structural)]
pub enum DriveError {
    /// An invalid speed has been requested. The speed must be given as a
    /// percentage value between 0 and 100 to be valid.
    InvalidSpeed,
}

/// The possible drive commands of the motor.
#[derive(PartialEq, Eq, Debug, Copy, Clone, Structural)]
pub enum DriveCommand {
    /// Drive forward with the given speed (in percent).
    Forward(u8),
    /// Drive backwards with the given speed (in percent).
    Backwards(u8),
    /// Actively brake.
    Brake,
    /// Coast, i.e. stop but don't actively brake.
    Stop,
}

/// The signed speed (in percent) that a drive command stands for: positive
/// when driving forward, negative when driving backwards, zero otherwise.
pub open spec fn speed_of(command: DriveCommand) -> int {
    match command {
        DriveCommand::Forward(s) => s as int,
        DriveCommand::Backwards(s) => -(s as int),
        DriveCommand::Brake => 0,
        DriveCommand::Stop => 0,
    }
}

/// A drive command is well-formed when its speed is a valid percentage.
pub open spec fn command_wf(command: DriveCommand) -> bool {
    match command {
        DriveCommand::Forward(s) => s <= 100,
        DriveCommand::Backwards(s) => s <= 100,
        DriveCommand::Brake => true,
        DriveCommand::Stop => true,
    }
}

/// The drive motor, modelled by the command it currently executes.
pub struct Motor {
    /// The currently active drive command.
    pub current_drive_command: DriveCommand,
}

impl Motor {
    /// A motor is well-formed when its active command is.
    pub open spec fn wf(self) -> bool {
        command_wf(self.current_drive_command)
    }

    /// A new motor starts out stopped (coasting).
    pub fn new() -> (motor: Motor)
        ensures
            motor.current_drive_command == DriveCommand::Stop,
            motor.wf(),
    {
        Motor { current_drive_command: DriveCommand::Stop }
    }

    /// Execute a drive command. Commands with a speed above 100 percent are
    /// rejected and leave the motor unchanged.
    pub fn drive(&mut self, drive_command: DriveCommand) -> (r: Result<(), DriveError>)
        ensures
            r is Ok <==> command_wf(drive_command),
            r is Ok ==> final(self).current_drive_command == drive_command,
            r is Err ==> *final(self) == *old(self) && r == Err::<(), DriveError>(DriveError::InvalidSpeed),
            old(self).wf() ==> final(self).wf(),
    {
        let speed: u8 = match drive_command {
            DriveCommand::Forward(s) => s,
            DriveCommand::Backwards(s) => s,
            DriveCommand::Brake => 0,
            DriveCommand::Stop => 0,
        };
        if speed > 100 {
            return Err(DriveError::InvalidSpeed);
        }
        self.current_drive_command = drive_command;
        Ok(())
    }

    /// Drive forward with the given speed (a percentage between 0 and 100).
    pub fn drive_forward(&mut self, speed: u8) -> (r: Result<(), DriveError>)
        ensures
            r is Ok <==> speed <= 100,
            r is Ok ==> final(self).current_drive_command == DriveCommand::Forward(speed),
            r is Err ==> *final(self) == *old(self) && r == Err::<(), DriveError>(DriveError::InvalidSpeed),
            old(self).wf() ==> final(self).wf(),
    {
        self.drive(DriveCommand::Forward(speed))
    }

    /// Drive backwards with the given speed (a percentage between 0 and 100).
    pub fn drive_backwards(&mut self, speed: u8) -> (r: Result<(), DriveError>)
        ensures
            r is Ok <==> speed <= 100,
            r is Ok ==> final(self).current_drive_command == DriveCommand::Backwards(speed),
            r is Err ==> *final(self) == *old(self) && r == Err::<(), DriveError>(DriveError::InvalidSpeed),
            old(self).wf() ==> final(self).wf(),
    {
        self.drive(DriveCommand::Backwards(speed))
    }

    /// Actively brake.
    pub fn brake(&mut self)
        ensures
            final(self).current_drive_command == DriveCommand::Brake,
            final(self).wf(),
    {
        let _ = self.drive(DriveCommand::Brake);
    }

    /// Stop the motor but don't brake (let it coast).
    pub fn stop(&mut self)
        ensures
            final(self).current_drive_command == DriveCommand::Stop,
            final(self).wf(),
    {
        let _ = self.drive(DriveCommand::Stop);
    }

    /// The currently active drive command.
    pub fn current_drive_command(&self) -> (r: &DriveCommand)
        ensures
            *r == self.current_drive_command,
    {
        &self.current_drive_command
    }

    /// The current speed of the motor in percent: positive when driving
    /// forward, negative when driving backwards, zero when braking or stopped.
    pub fn current_speed(&self) -> (r: i8)
        requires
            self.wf(),
        ensures
            r as int == speed_of(self.current_drive_command),
            -100 <= r <= 100,
    {
        match self.current_drive_command {
            DriveCommand::Forward(s) => s as i8,
            DriveCommand::Backwards(s) => -(s as i8),
            DriveCommand::Brake => 0,
            DriveCommand::Stop => 0,
        }
    }
}

} // verus!
