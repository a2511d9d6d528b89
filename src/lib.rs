//! Deterministic simulation core of a small racing game: car kinematics, the
//! race state machine and the track geometry it consults.
//!
//! All quantities are fixed-point integers; see [`fixed_point`].
pub mod fixed_point;
pub mod coordinates;
pub mod input;
pub mod track;
pub mod car;
pub mod car_progress;
pub mod default_tracks;
pub mod gameloop;
pub mod interactive;
