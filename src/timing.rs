use vstd::prelude::*;

use crate::constants::FRAME_RATE;

verus! {

/// A span of time held exactly, as the fraction `num / den` of a second.
#[derive(Clone, Copy, Debug, PartialEq, Eq, Structural)]
pub struct Seconds {
    pub num: u64,
    pub den: u64,
}

impl Seconds {
    /// A usable span has a nonzero denominator.
    pub open spec fn wf(self) -> bool {
        self.den > 0
    }

    /// Whole frames that fit in the span: `floor(num / den * FRAME_RATE)`.
    pub open spec fn frames(self) -> int {
        (self.num as int * FRAME_RATE as int) / self.den as int
    }

    /// A span of `secs` whole seconds.
    pub fn whole(secs: u64) -> (r: Seconds)
        ensures
            r.num == secs,
            r.den == 1,
            r.wf(),
    {
        Seconds { num: secs, den: 1 }
    }
}

/// The span from the start of a clip to the start of frame `frame`.
pub open spec fn frame_start(frame: nat) -> Seconds {
    Seconds { num: frame as u64, den: FRAME_RATE as u64 }
}

/// Frame count of a span: rounds down, so a trailing part of a frame is
/// dropped.
pub fn duration_to_frame(duration: Seconds) -> (r: usize)
    requires
        duration.wf(),
        duration.frames() <= usize::MAX,
    ensures
        r as int == duration.frames(),
{
    let scaled: u128 = duration.num as u128 * FRAME_RATE as u128;
    (scaled / duration.den as u128) as usize
}

/// Frame count of a span, or `None` where the span has a zero denominator or
/// its frame count does not fit in `usize`.
pub fn try_duration_to_frame(duration: Seconds) -> (r: Option<usize>)
    ensures
        r is Some <==> (duration.wf() && duration.frames() <= usize::MAX),
        r matches Some(n) ==> n as int == duration.frames(),
{
    if duration.den == 0 {
        return None;
    }
    proof {
        assert(duration.num as int * 48000 <= u64::MAX as int * 48000) by (nonlinear_arith)
            requires duration.num <= u64::MAX;
    }
    let scaled: u128 = duration.num as u128 * FRAME_RATE as u128;
    let frames: u128 = scaled / duration.den as u128;
    if frames > usize::MAX as u128 {
        None
    } else {
        Some(duration_to_frame(duration))
    }
}

/// Start time of frame `frame`: `frame / FRAME_RATE` seconds, held exactly.
pub fn frame_to_duration(frame: usize) -> (r: Seconds)
    ensures
        r == frame_start(frame as nat),
        r.wf(),
{
    Seconds { num: frame as u64, den: FRAME_RATE as u64 }
}

/// Frame to time and back gives the same frame: the conversion loses
/// nothing in that direction.
pub proof fn lemma_frame_round_trip(frame: usize)
    ensures
        frame_start(frame as nat).frames() == frame as int,
{
    let n = frame as int;
    assert((n * 48000) / 48000 == n) by (nonlinear_arith);
}

/// Time to frame and back may lose, but never gains, and what it loses is less
/// than one frame: the start of the counted frame lies in
/// `(d - 1/FRAME_RATE, d]`.
pub proof fn lemma_duration_floor(duration: Seconds)
    requires
        duration.wf(),
    ensures
        duration.frames() * duration.den <= duration.num * FRAME_RATE,
        duration.num * FRAME_RATE < (duration.frames() + 1) * duration.den,
{
    let a = duration.num as int * 48000;
    let d = duration.den as int;
    vstd::arithmetic::div_mod::lemma_fundamental_div_mod(a, d);
    assert(d * (a / d) == (a / d) * d) by (nonlinear_arith);
    assert((a / d + 1) * d == (a / d) * d + d) by (nonlinear_arith);
}

/// Tempo in whole beats per minute.
#[derive(Clone, Copy, Debug, PartialEq, Eq, Structural)]
pub struct Tempo {
    pub bpm: u64,
}

impl Default for Tempo {
    /// One hundred and twenty beats per minute.
    fn default() -> (r: Tempo)
        ensures
            r.bpm == 120,
    {
        Tempo { bpm: 120 }
    }
}

impl Tempo {
    /// Duration of a clip `length` units long: `bpm / 60 * length` seconds.
    pub fn duration(&self, length: u64) -> (r: Seconds)
        requires
            self.bpm * length <= u64::MAX,
        ensures
            r.num == self.bpm * length,
            r.den == 60,
            r.wf(),
    {
        Seconds { num: self.bpm * length, den: 60 }
    }
}

} // verus!
