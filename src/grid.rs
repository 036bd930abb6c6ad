use vstd::prelude::*;

use crate::constants::DEGREES;

verus! {

/// One clip of the render grid: octave `job`, scale degree `degree` within
/// that octave, a length multiplier, and the absolute note it sounds.
#[derive(Clone, Copy, Debug, PartialEq, Eq, Structural)]
pub struct Cell {
    pub job: usize,
    pub degree: usize,
    pub length: u64,
    pub note: i64,
}

/// Absolute note of degree `degree` in octave `job` when the grid starts
/// `offset` notes below the base note.
pub open spec fn note_at(job: int, degree: int, offset: int) -> int {
    job * 12 - offset + degree
}

/// The notes of octave `job`, from its first to its last degree, fit in `i64`.
pub open spec fn notes_fit(job: int, offset: int) -> bool {
    i64::MIN <= note_at(job, 0, offset) && note_at(job, 11, offset) <= i64::MAX
}

/// Whether the notes of octave `job` fit in `i64` for this offset.
pub fn octave_in_range(job: usize, offset: i64) -> (r: bool)
    ensures
        r == notes_fit(job as int, offset as int),
{
    let first: i128 = job as i128 * 12 - offset as i128;
    first >= i64::MIN as i128 && first + 11 <= i64::MAX as i128
}

/// Cell number `index` of octave `job`: degrees in ascending order, and
/// within each degree the lengths in the order given.
pub open spec fn cell_at(job: int, index: int, offset: int, lengths: Seq<u64>) -> Cell {
    let degree = index / lengths.len() as int;
    Cell {
        job: job as usize,
        degree: degree as usize,
        length: lengths[index % lengths.len() as int],
        note: note_at(job, degree, offset) as i64,
    }
}

/// Absolute note of degree `degree` in octave `job`.
pub fn note_index(job: usize, degree: usize, offset: i64) -> (r: i64)
    requires
        degree < DEGREES,
        notes_fit(job as int, offset as int),
    ensures
        r as int == note_at(job as int, degree as int, offset as int),
{
    let wide: i128 = job as i128 * 12 - offset as i128 + degree as i128;
    wide as i64
}

/// The cells that the worker of octave `job` renders, in the order it renders
/// them: twelve degrees, each once per length.
pub fn worker_cells(job: usize, offset: i64, lengths: &Vec<u64>) -> (r: Vec<Cell>)
    requires
        notes_fit(job as int, offset as int),
        12 * lengths.len() <= usize::MAX,
    ensures
        r.len() == 12 * lengths.len(),
        forall|i: int| 0 <= i < r.len() ==> #[trigger] r[i] == cell_at(job as int, i, offset as int, lengths@),
{
    let count = lengths.len();
    let mut cells: Vec<Cell> = Vec::new();
    let mut degree: usize = 0;
    while degree < DEGREES
        invariant
            degree <= 12,
            notes_fit(job as int, offset as int),
            12 * count <= usize::MAX,
            count == lengths.len(),
            cells.len() == degree * count,
            forall|i: int| 0 <= i < cells.len() ==> #[trigger] cells[i] == cell_at(job as int, i, offset as int, lengths@),
        decreases 12 - degree,
    {
        let note = note_index(job, degree, offset);
        let mut k: usize = 0;
        while k < count
            invariant
                degree < 12,
                k <= count,
                count == lengths.len(),
                12 * count <= usize::MAX,
                note as int == note_at(job as int, degree as int, offset as int),
                cells.len() == degree * count + k,
                forall|i: int| 0 <= i < cells.len() ==> #[trigger] cells[i] == cell_at(job as int, i, offset as int, lengths@),
            decreases count - k,
        {
            proof {
                let at = degree * count + k;
                vstd::arithmetic::div_mod::lemma_fundamental_div_mod_converse(at, count as int, degree as int, k as int);
                assert((degree + 1) * count <= 12 * count) by (nonlinear_arith)
                    requires degree < 12, count >= 0;
                assert((degree + 1) * count == degree * count + count) by (nonlinear_arith);
            }
            cells.push(Cell { job, degree, length: lengths[k], note });
            k = k + 1;
        }
        proof {
            assert((degree + 1) * count == degree * count + count) by (nonlinear_arith);
        }
        degree = degree + 1;
    }
    cells
}

/// No two positions of the grid share a cell: with distinct lengths, octaves
/// `0..octaves` of twelve degrees and `lengths.len()` lengths each give
/// `octaves * 12 * lengths.len()` different cells, hence as many files.
pub proof fn lemma_cells_distinct(
    job1: int,
    index1: int,
    job2: int,
    index2: int,
    offset: int,
    lengths: Seq<u64>,
)
    requires
        lengths.no_duplicates(),
        0 <= job1 <= usize::MAX,
        0 <= job2 <= usize::MAX,
        0 <= index1 < 12 * lengths.len(),
        0 <= index2 < 12 * lengths.len(),
        job1 != job2 || index1 != index2,
    ensures
        cell_at(job1, index1, offset, lengths) != cell_at(job2, index2, offset, lengths),
{
    let n = lengths.len() as int;
    let c1 = cell_at(job1, index1, offset, lengths);
    let c2 = cell_at(job2, index2, offset, lengths);
    vstd::arithmetic::div_mod::lemma_fundamental_div_mod(index1, n);
    vstd::arithmetic::div_mod::lemma_fundamental_div_mod(index2, n);
    vstd::arithmetic::div_mod::lemma_mod_bound(index1, n);
    vstd::arithmetic::div_mod::lemma_mod_bound(index2, n);
    vstd::arithmetic::div_mod::lemma_div_pos_is_pos(index1, n);
    vstd::arithmetic::div_mod::lemma_div_pos_is_pos(index2, n);
    let (q1, q2) = (index1 / n, index2 / n);
    assert(q1 < 12) by (nonlinear_arith)
        requires index1 == n * q1 + index1 % n, index1 % n >= 0, index1 < 12 * n, n > 0;
    assert(q2 < 12) by (nonlinear_arith)
        requires index2 == n * q2 + index2 % n, index2 % n >= 0, index2 < 12 * n, n > 0;
    if job1 == job2 && c1 == c2 {
        assert(index1 / n == index2 / n);
        assert(index1 % n == index2 % n);
    }
}

} // verus!
