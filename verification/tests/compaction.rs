//! The two-phase compaction on concrete tables: scan offsets, scatter
//! order, capacity clamping, and boundary isolation.

use orb_core::features::OrbData;
use orb_core::scan::{compaction_offsets, copy_table, inclusive_scan, scan_round, scan_total};
use orb_core::scatter::{clamp_counts, compact_results, scatter_chunks, take_prefix};

fn d(x: u32, y: u32) -> OrbData {
    OrbData { x, y }
}

#[test]
fn offsets_of_sample_counter_table() {
    // A counter table [3, 0, 2, 5] over 4 chunks compacts to the exclusive
    // prefix sums [0, 3, 3, 5], with 10 results in all.
    let counts: Vec<u32> = vec![3, 0, 2, 5];
    let offsets = compaction_offsets(&counts);
    assert_eq!(offsets, vec![0, 3, 3, 5]);
    assert_eq!(scan_total(&counts), 10);
}

#[test]
fn inclusive_scan_of_sample_counter_table() {
    let mut table: Vec<u32> = vec![3, 0, 2, 5];
    inclusive_scan(&mut table);
    assert_eq!(table, vec![3, 3, 5, 10]);
}

#[test]
fn one_scan_round_adds_strided_neighbor() {
    let mut table: Vec<u32> = vec![1, 2, 3, 4, 5];
    scan_round(&mut table, 2);
    assert_eq!(table, vec![1, 2, 4, 6, 8]);
}

#[test]
fn copy_table_is_byte_for_byte() {
    let counts: Vec<u32> = vec![7, 0, 9];
    assert_eq!(copy_table(&counts), counts);
}

#[test]
fn offsets_of_empty_and_single_tables() {
    let empty: Vec<u32> = vec![];
    assert_eq!(compaction_offsets(&empty), Vec::<u32>::new());
    let one: Vec<u32> = vec![9];
    assert_eq!(compaction_offsets(&one), vec![0]);
    assert_eq!(scan_total(&one), 9);
}

#[test]
fn scatter_preserves_chunk_order_with_zero_chunks() {
    // Chunks with counts [2, 0, 3] at capacity 4: concatenating each
    // chunk's stored prefix in chunk-index order is exactly what a naive
    // single-threaded walk over the chunks produces.
    let k = 4;
    let mut data = Vec::new();
    for i in 0..(3 * k as u32) {
        data.push(d(i, 100 + i));
    }
    let counts: Vec<u32> = vec![2, 0, 3];
    let (out, total) = compact_results(&data, &counts, k);
    assert_eq!(total, 5);
    let naive = vec![d(0, 100), d(1, 101), d(8, 108), d(9, 109), d(10, 110)];
    assert_eq!(out, naive);
}

#[test]
fn scatter_against_precomputed_offsets() {
    let k = 2;
    let data = vec![d(1, 1), d(2, 2), d(3, 3), d(4, 4)];
    let counts: Vec<u32> = vec![1, 2];
    let clamped = clamp_counts(&counts, k as u32);
    let offsets = compaction_offsets(&clamped);
    assert_eq!(offsets, vec![0, 1]);
    let out = scatter_chunks(&data, &counts, &offsets, k);
    assert_eq!(out, vec![d(1, 1), d(3, 3), d(4, 4)]);
}

#[test]
fn overfull_chunk_contributes_exactly_capacity() {
    // A chunk whose detections exceeded the fixed capacity contributes
    // exactly `k` entries, and the dropped excess never corrupts the next
    // chunk's region.
    let k = 2;
    let data = vec![d(10, 0), d(11, 0), d(20, 0), d(21, 0)];
    let counts: Vec<u32> = vec![5, 1];
    let (out, total) = compact_results(&data, &counts, k);
    assert_eq!(total, 3);
    assert_eq!(out, vec![d(10, 0), d(11, 0), d(20, 0)]);
}

#[test]
fn clamp_counts_caps_at_capacity() {
    let counts: Vec<u32> = vec![0, 2, 64, 65, 1000];
    assert_eq!(clamp_counts(&counts, 64), vec![0, 2, 64, 64, 64]);
}

#[test]
fn take_prefix_caps_output_at_max_features() {
    let v = vec![d(1, 0), d(2, 0), d(3, 0)];
    assert_eq!(take_prefix(&v, 2), vec![d(1, 0), d(2, 0)]);
    assert_eq!(take_prefix(&v, 9), v);
}

#[test]
fn compaction_is_deterministic_across_runs() {
    let k = 3;
    let mut data = Vec::new();
    for i in 0..(4 * k as u32) {
        data.push(d(i, i));
    }
    let counts: Vec<u32> = vec![3, 0, 7, 1];
    let first = compact_results(&data, &counts, k);
    let second = compact_results(&data, &counts, k);
    assert_eq!(first, second);
}
