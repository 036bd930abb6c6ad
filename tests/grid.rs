use std::collections::HashSet;

use muza::grid::{note_index, octave_in_range, worker_cells, Cell};

#[test]
fn note_index_counts_from_offset() {
    assert_eq!(note_index(0, 0, 36), -36);
    assert_eq!(note_index(0, 11, 36), -25);
    assert_eq!(note_index(3, 0, 36), 0);
    assert_eq!(note_index(7, 11, 36), 59);
}

#[test]
fn worker_cells_order() {
    let lengths = vec![1u64, 2, 4, 8];
    let cells = worker_cells(2, 36, &lengths);
    assert_eq!(cells.len(), 48);
    assert_eq!(cells[0], Cell { job: 2, degree: 0, length: 1, note: -12 });
    assert_eq!(cells[1], Cell { job: 2, degree: 0, length: 2, note: -12 });
    assert_eq!(cells[4], Cell { job: 2, degree: 1, length: 1, note: -11 });
    assert_eq!(cells[47], Cell { job: 2, degree: 11, length: 8, note: -1 });
}

#[test]
fn worker_cells_with_no_lengths() {
    assert!(worker_cells(0, 0, &Vec::new()).is_empty());
}

#[test]
fn full_grid_has_distinct_cells() {
    let lengths = vec![1u64, 2, 4, 8];
    let mut seen = HashSet::new();
    let mut total = 0usize;
    for job in 0..8usize {
        for cell in worker_cells(job, 36, &lengths) {
            total += 1;
            seen.insert((cell.job, cell.degree, cell.length));
        }
    }
    assert_eq!(total, 8 * 12 * 4);
    assert_eq!(seen.len(), 384);
}

#[test]
fn octave_in_range_cases() {
    assert!(octave_in_range(0, 36));
    assert!(octave_in_range(7, 36));
    assert!(!octave_in_range(0, i64::MIN));
    assert!(!octave_in_range(usize::MAX, 0));
    assert!(octave_in_range(0, 11 - i64::MAX));
    assert!(!octave_in_range(0, 10 - i64::MAX));
}
