//! Core rules of an asymmetric ghost-hunting game: the evidence model, the
//! per-ghost exorcism puzzles, the investigation gate and the menu/HUD state
//! machines, on a fixed-point model of the world.
//!
//! Units used throughout:
//! - lengths and positions in millimetres;
//! - durations in milliseconds;
//! - puzzle progress and onryo stacks in millionths (one whole is `1_000_000`);
//! - rates in millionths per millisecond;
//! - cosine thresholds in thousandths.

pub mod geometry;
pub mod states;
pub mod evidence;
pub mod rules;
pub mod exorcism;
pub mod tables;
pub mod ghost;
pub mod tools;
pub mod ui;
pub mod protocol;
pub mod debug;
pub mod schedule;
pub mod health;
pub mod map;
pub mod hud;
