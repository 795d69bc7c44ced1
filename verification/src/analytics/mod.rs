//! Per-player analytics over the command stream: action counts per minute
//! (APM and effective APM), build order, hotkey usage and idle periods.
//!
//! Times are kept in frames; the game runs at 23.81 frames per second on the
//! fastest speed, so a minute is 1428.6 frames, and a frame count `f` lasts
//! `f * 100 / 2381` seconds.
pub mod apm;
pub mod build_order;
pub mod csv;
pub mod hotkeys;
pub mod idle;
