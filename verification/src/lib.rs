//! Core of an interactive, shader-driven visualization loop.
//!
//! The library holds the state and the rules of the hot path: the orbit
//! camera and pointer state machine driven by input events, and the
//! fixed-layout per-frame parameter record handed to the GPU program.
//! All quantities are kept in fixed-point units (millionths), so every
//! rule is stated and proved exactly; the window system, the GPU calls
//! and the trigonometric projection live outside, in the surrounding
//! binary, which feeds this library plain values.

pub mod camera;
pub mod controller;
pub mod geometry;
pub mod params;
pub mod units;
