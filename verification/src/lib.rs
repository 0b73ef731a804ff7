//! Deterministic simulation core of a networked rocket-arena game.
//!
//! Every quantity is a fixed-point number: an `i64` that counts millionths of
//! a unit (of length, of time, of an angle in radians). All arithmetic
//! saturates at the ends of `i64`, so no operation of the library can
//! overflow or panic.

pub mod fixed;
pub mod vector;
pub mod timer;
pub mod explosion;
pub mod rocket;
pub mod movement;
pub mod player;
pub mod authority;
pub mod replication;
pub mod spawner;
pub mod receive;
pub mod game;
