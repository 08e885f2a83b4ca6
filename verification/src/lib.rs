//! A deterministic, fixed-timestep simulation core for a two-paddle ball game.
//!
//! A session is a [`world::World`]: two paddles, a ball, the walls of the arena and the
//! scoreboard. [`world::World::tick`] advances it by one tick: the paddles move
//! ([`control`]), the ball advances ([`ball`]), and the ball is tested against the paddles
//! and the walls ([`collision`]), which turn it back and count the points. Keys come in
//! and state goes out as plain values; windows, drawing and clocks are the caller's.
//!
//! All quantities are fixed-point integers (see [`units`]) and no step depends on the
//! machine, so the same inputs give the same session everywhere. Every function is
//! verified against a contract that says exactly what it returns or changes, and the
//! laws that hold across ticks are proved beside the functions that they are about.

pub mod units;
pub mod geometry;
pub mod arena;
pub mod ball;
pub mod paddle;
pub mod control;
pub mod collision;
pub mod world;
