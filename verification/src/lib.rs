//! Simulation core of a top-down arcade survival game: a player dodges a
//! growing field of moving obstacle blocks that spawn from fixed edge
//! positions and sweep across a wrapping play-field.
//!
//! The model is integer-valued throughout: positions are whole pixels with
//! the origin at the centre of the play-field, velocities are pixels per
//! second, and a tick advances every moving entity by
//! `velocity * delta_ms / 1000` pixels along its travel direction.

use vstd::prelude::*;

pub mod game;
pub mod graphics;
pub mod logic;
mod rng;

verus! {

/// Width of the play-field in pixels.
pub const WINDOWWIDTH: i32 = 1500;

/// Height of the play-field in pixels.
pub const WINDOWHEIGHT: i32 = 1200;

/// Half-extent of the play-field along the x axis.
pub const HALF_WINDOW_WIDTH: i32 = 750;

/// Half-extent of the play-field along the y axis.
pub const HALF_WINDOW_HEIGHT: i32 = 600;

/// Width of an obstacle block in pixels.
pub const BLOCKSIZEX: i32 = 40;

/// Height of an obstacle block in pixels.
pub const BLOCKSIZEY: i32 = 40;

/// Every entity position the simulation produces stays within this bound on
/// both axes; it leaves ample room for a wrapped position plus one teleport.
pub const POSITION_LIMIT: i32 = 1000000;

/// Upper bound on any entity's speed in pixels per second.
pub const VELOCITY_LIMIT: i32 = 10000;

/// Upper bound on the player's teleport distance in pixels.
pub const TELEPORT_LIMIT: i32 = 10000;

/// Upper bound on the wall-clock length of one tick in milliseconds.
pub const DELTA_MS_LIMIT: u32 = 60000;

/// A travel direction for a moving entity, one of the four axis directions.
#[derive(Clone, Copy, PartialEq, Eq, Structural, Debug)]
pub enum Direction {
    Left,
    Right,
    Up,
    Down,
}

/// The discrete input the simulation reads on one tick: four movement
/// levels, plus the teleport and reset rising edges.
#[derive(Clone, Copy, PartialEq, Eq, Structural, Debug)]
pub struct InputState {
    pub up: bool,
    pub down: bool,
    pub left: bool,
    pub right: bool,
    pub teleport: bool,
    pub reset: bool,
}

} // verus!
