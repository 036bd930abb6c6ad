use vstd::prelude::*;

verus! {

/// Sample frames per second of every rendered clip.
pub const FRAME_RATE: usize = 48_000;

/// Output channels; each frame's sample is written once per channel.
pub const CHANNELS: usize = 2;

/// Scale degrees in one octave.
pub const DEGREES: usize = 12;

} // verus!
