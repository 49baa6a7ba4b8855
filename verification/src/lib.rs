//! Safety-and-control core of a small remote-controlled ground vehicle.
//!
//! The crate turns asynchronous events (a forward-looking distance sensor, a
//! wireless remote-control link, periodic timers, a liveness watchdog) into
//! coordinated actuator commands while enforcing a hard collision-avoidance
//! interlock: forward drive is forbidden whenever the forward distance is
//! unknown, stale, or below the safe minimum.
//!
//! Peripheral bring-up and raw hardware access live outside this crate; the
//! core works on plain values (timestamps in milliseconds, distances in
//! millimeters, commanded duties and drive commands) and states exactly what
//! each operation does to the vehicle.

pub mod car;
pub mod motor;
pub mod remote_control;
pub mod steering;
pub mod tof_sensor;
pub mod watchdog;
