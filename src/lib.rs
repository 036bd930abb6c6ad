//! Tuning, timing and render-grid logic for a test-tone synthesizer: notes
//! split into scale degree and octave, exact time/frame conversion at a fixed
//! frame rate, tempo-based clip durations, and the cells that each octave's
//! worker renders.

pub mod constants;
pub mod grid;
pub mod timing;
pub mod tuning;
