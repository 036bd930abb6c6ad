use vstd::prelude::*;

use crate::constants::DEGREES;

verus! {

/// The scale degree of a note: its remainder modulo twelve, always in `0..12`,
/// also for negative notes.
pub open spec fn degree_of(note: int) -> int {
    note % 12
}

/// The octave of a note: its quotient by twelve, rounded towards negative
/// infinity.
pub open spec fn octave_of(note: int) -> int {
    note / 12
}

/// Scale degree of `note`, the index into a twelve-entry ratio table.
pub fn degree(note: i64) -> (r: usize)
    ensures
        r as int == degree_of(note as int),
        r < DEGREES,
{
    let rem: i64 = note % 12;
    if rem < 0 {
        (rem + 12) as usize
    } else {
        rem as usize
    }
}

/// Octave of `note`: the exponent `k` of the `2^k` octave multiplier.
/// Notes `-12..=-1` lie one octave below the base, not in it.
pub fn octave(note: i64) -> (r: i64)
    ensures
        r as int == octave_of(note as int),
{
    if note < 0 {
        (note + 1) / 12 - 1
    } else {
        note / 12
    }
}

/// A note is twelve steps per octave plus its degree, and its degree lies in
/// `0..12`.
pub proof fn lemma_note_split(note: int)
    ensures
        note == 12 * octave_of(note) + degree_of(note),
        0 <= degree_of(note) < 12,
{
}

/// Moving a note up by twelve keeps its degree, so the ratio that the degree
/// selects repeats with period twelve.
pub proof fn lemma_degree_periodic(note: int)
    ensures
        degree_of(note + 12) == degree_of(note),
{
    lemma_note_split(note);
    lemma_note_split(note + 12);
    assert(12 * (octave_of(note + 12) - octave_of(note) - 1) == degree_of(note) - degree_of(note + 12));
}

/// Moving a note up by twelve raises its octave by exactly one, so its
/// frequency doubles.
pub proof fn lemma_octave_step(note: int)
    ensures
        octave_of(note + 12) == octave_of(note) + 1,
{
    lemma_note_split(note);
    lemma_note_split(note + 12);
    lemma_degree_periodic(note);
}

/// The base note has degree zero, which selects the unison ratio, and octave
/// zero.
pub proof fn lemma_base_note()
    ensures
        degree_of(0) == 0,
        octave_of(0) == 0,
{
}

} // verus!
