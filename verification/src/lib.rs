//! A verified simulation core for a Pong-style game.
//!
//! Two vertically moving paddles and one ball share a rectangular arena
//! centred on the origin. Each tick the ball is advanced by a directional
//! force and a linear velocity, the paddles follow the held keys within a
//! travel limit, a ball that leaves the arena horizontally scores a point
//! for the opposite side and is recentred, and a ball touching the top or
//! bottom edge has its vertical force direction reversed.
//!
//! All coordinates, rates and durations are plain integers in arbitrary
//! world units chosen by the host; the host loop supplies the per-tick
//! elapsed time and a snapshot of the held keys, and reads positions and
//! scores back for display.

pub mod boundary;
pub mod collision;
pub mod components;
pub mod config;
pub mod input;
pub mod kinematics;
pub mod laws;
pub mod scoring;
pub mod tick;
