//! Pixel-shift scheduling for OLED burn-in mitigation.
//!
//! The library parses the display tool's query report, computes the
//! arguments of each shift strategy, walks the shift pattern, drives the
//! reset fallback chain and the shift scheduler. Running the tool and the
//! timer is left to the caller: every decision is a verified function from
//! plain values to plain values.

pub mod text;
pub mod display;
pub mod scan;
pub mod pattern;
pub mod query;
pub mod strategy;
pub mod reset;
pub mod scheduler;
pub mod status;
