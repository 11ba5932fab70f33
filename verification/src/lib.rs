//! Combat-simulation core of a 3D flight game: identity generation, fixed-point
//! spatial math, missile guidance, guns, enemy flight control, target locking
//! and HUD projection.
//!
//! All quantities are integers: world coordinates in milli-units (one unit is
//! 1000), angles in milli-degrees, time in microseconds, Bezier progress in
//! millionths. The rendering, windowing and audio-playback layers live outside
//! this crate and talk to it through plain values.

pub mod aircraft;
pub mod audio;
pub mod bezier;
pub mod camera;
pub mod enemies;
pub mod game;
pub mod game_sounds;
pub mod enemy;
pub mod control_surfaces;
pub mod matrix;
pub mod missile;
pub mod player;
pub mod missile_guidance;
pub mod targeting_data;
pub mod targeting_sounds;
pub mod terrain;
pub mod fixed;
pub mod model;
pub mod quat;
pub mod rng;
pub mod vec3;
pub mod guns;
pub mod hud;
pub mod id_gen;
