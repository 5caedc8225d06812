//! The two-phase parallel compaction's second phase: scattering each chunk's
//! locally stored results into one shared, globally ordered output array.
//!
//! Every chunk owns a fixed-capacity region of the staging array (capacity
//! `k` records); its counter says how many candidates it saw, of which at
//! most `k` were stored — excess detections are dropped by design, a hard
//! ceiling, not an error. The scatter copies each chunk's stored prefix to
//! the global offset the scan phase computed for it, using the unmodified
//! pre-scan counter to know how many entries to copy. The result is a
//! stable, order-preserving compaction: exactly what a naive
//! single-threaded scan over the chunks in index order would produce.

use vstd::prelude::*;

use crate::features::OrbData;
use crate::scan::{compaction_offsets, prefix_sum};

verus! {

/// How many of a chunk's `count` candidates were actually stored: the count
/// clamped to the fixed per-chunk capacity `k`.
pub open spec fn stored_count(count: u32, k: nat) -> nat {
    if count as nat <= k {
        count as nat
    } else {
        k
    }
}

/// Total stored results of the chunks strictly before `c`: the global write
/// offset at which chunk `c`'s region of the output begins.
pub open spec fn stored_total(counts: Seq<u32>, k: nat, c: int) -> int
    decreases c,
{
    if c <= 0 {
        0
    } else {
        stored_total(counts, k, c - 1) + stored_count(counts[c - 1], k)
    }
}

/// The stored prefix of chunk `c`'s fixed-capacity region of the staging
/// array.
pub open spec fn chunk_stored(data: Seq<OrbData>, counts: Seq<u32>, k: nat, c: int) -> Seq<OrbData> {
    data.subrange(c * k, c * k + stored_count(counts[c], k))
}

/// The compacted output over the first `c` chunks: what the naive
/// single-threaded scan produces by walking chunks in index order and
/// appending each chunk's stored prefix.
pub open spec fn compacted(data: Seq<OrbData>, counts: Seq<u32>, k: nat, c: nat) -> Seq<OrbData>
    decreases c,
{
    if c == 0 {
        Seq::empty()
    } else {
        compacted(data, counts, k, (c - 1) as nat) + chunk_stored(data, counts, k, c - 1)
    }
}

/// The compacted output over `c` chunks holds exactly the stored totals'
/// worth of entries.
pub proof fn lemma_compacted_len(data: Seq<OrbData>, counts: Seq<u32>, k: nat, c: nat)
    requires
        c <= counts.len(),
        data.len() == counts.len() * k,
    ensures
        compacted(data, counts, k, c).len() == stored_total(counts, k, c as int),
    decreases c,
{
    if c > 0 {
        lemma_compacted_len(data, counts, k, (c - 1) as nat);
        assert(c * k <= counts.len() * k) by (nonlinear_arith)
            requires
                c <= counts.len(),
                k >= 0,
        ;
        assert((c - 1) * k + k == c * k) by (nonlinear_arith);
    }
}

/// Boundary isolation: in the compacted output over `n` chunks, chunk `c`'s
/// entries occupy exactly the region starting at its global offset and
/// running for its stored count — never more than the fixed capacity `k`,
/// and exactly `k` when the chunk's detections met or exceeded capacity.
/// Dropped excess never corrupts a neighboring chunk's region.
pub proof fn lemma_chunk_boundary_isolation(
    data: Seq<OrbData>,
    counts: Seq<u32>,
    k: nat,
    c: int,
    n: nat,
)
    requires
        0 <= c < n <= counts.len(),
        data.len() == counts.len() * k,
    ensures
        stored_count(counts[c], k) <= k,
        counts[c] as nat >= k ==> stored_count(counts[c], k) == k,
        compacted(data, counts, k, n).subrange(
            stored_total(counts, k, c),
            stored_total(counts, k, c) + stored_count(counts[c], k),
        ) == chunk_stored(data, counts, k, c),
    decreases n,
{
    lemma_compacted_len(data, counts, k, (n - 1) as nat);
    let lo = stored_total(counts, k, c);
    let hi = lo + stored_count(counts[c], k);
    let whole = compacted(data, counts, k, n);
    let prev = compacted(data, counts, k, (n - 1) as nat);
    assert((n - 1) * k + k == n * k) by (nonlinear_arith);
    assert(n * k <= counts.len() * k) by (nonlinear_arith)
        requires
            n <= counts.len(),
            k >= 0,
    ;
    lemma_stored_count_nonneg_runs(counts, k, c);
    if c == n - 1 {
        assert(whole.subrange(lo, hi) =~= chunk_stored(data, counts, k, c));
    } else {
        lemma_chunk_boundary_isolation(data, counts, k, c, (n - 1) as nat);
        lemma_stored_total_mono(counts, k, c + 1, (n - 1) as int);
        assert(whole.subrange(lo, hi) =~= prev.subrange(lo, hi));
    }
}

/// Stored totals only grow with the chunk index.
pub proof fn lemma_stored_total_mono(counts: Seq<u32>, k: nat, c1: int, c2: int)
    requires
        c1 <= c2,
    ensures
        stored_total(counts, k, c1) <= stored_total(counts, k, c2),
    decreases c2 - c1,
{
    if c1 < c2 {
        lemma_stored_total_mono(counts, k, c1, c2 - 1);
    }
}

/// Stored totals are never negative.
pub proof fn lemma_stored_count_nonneg_runs(counts: Seq<u32>, k: nat, c: int)
    ensures
        stored_total(counts, k, c) >= 0,
    decreases c,
{
    if c > 0 {
        lemma_stored_count_nonneg_runs(counts, k, c - 1);
    }
}

/// Clamps every chunk counter to the fixed per-chunk capacity: the number
/// of results that chunk actually stored.
pub fn clamp_counts(counts: &Vec<u32>, k: u32) -> (r: Vec<u32>)
    ensures
        r@.len() == counts@.len(),
        forall|c: int| 0 <= c < counts@.len() ==> r@[c] == stored_count(counts@[c], k as nat),
{
    let mut r: Vec<u32> = Vec::new();
    let mut i: usize = 0;
    while i < counts.len()
        invariant
            i <= counts@.len(),
            r@.len() == i,
            forall|c: int| 0 <= c < i ==> r@[c] == stored_count(counts@[c], k as nat),
        decreases counts@.len() - i,
    {
        if counts[i] <= k {
            r.push(counts[i]);
        } else {
            r.push(k);
        }
        i = i + 1;
    }
    r
}

/// The clamped counter table's exclusive prefix sums are the stored totals.
pub proof fn lemma_clamped_prefix(counts: Seq<u32>, clamped: Seq<u32>, k: nat, c: int)
    requires
        clamped.len() == counts.len(),
        forall|i: int| 0 <= i < counts.len() ==> clamped[i] == stored_count(counts[i], k),
        0 <= c <= counts.len(),
    ensures
        prefix_sum(clamped, c) == stored_total(counts, k, c),
    decreases c,
{
    if c > 0 {
        lemma_clamped_prefix(counts, clamped, k, c - 1);
    }
}

/// The scatter dispatch: copies each chunk's stored prefix into the shared
/// output array at the chunk's global offset, in chunk-index order. The
/// offsets must be the scan phase's exclusive prefix sums of the stored
/// counts; the output then equals the naive single-threaded compaction, and
/// every chunk's region begins exactly at its offset.
pub fn scatter_chunks(data: &Vec<OrbData>, counts: &Vec<u32>, offsets: &Vec<u32>, k: usize) -> (out:
    Vec<OrbData>)
    requires
        data@.len() == counts@.len() * k,
        offsets@.len() == counts@.len(),
        forall|c: int|
            0 <= c < counts@.len() ==> offsets@[c] == stored_total(counts@, k as nat, c),
        stored_total(counts@, k as nat, counts@.len() as int) <= u32::MAX,
    ensures
        out@ == compacted(data@, counts@, k as nat, counts@.len() as nat),
        out@.len() == stored_total(counts@, k as nat, counts@.len() as int),
{
    let n = counts.len();
    let dlen = data.len();
    let mut out: Vec<OrbData> = Vec::new();
    let mut base: usize = 0;
    let mut c: usize = 0;
    while c < n
        invariant
            c <= n,
            n == counts@.len(),
            data@.len() == n * k,
            data@.len() == dlen,
            offsets@.len() == n,
            forall|c2: int|
                0 <= c2 < counts@.len() ==> offsets@[c2] == stored_total(counts@, k as nat, c2),
            stored_total(counts@, k as nat, n as int) <= u32::MAX,
            base == c * k,
            out@ == compacted(data@, counts@, k as nat, c as nat),
        decreases n - c,
    {
        proof {
            assert(c * k + k == (c + 1) * k) by (nonlinear_arith);
            assert((c + 1) * k <= n * k) by (nonlinear_arith)
                requires
                    c + 1 <= n,
                    k >= 0,
            ;
            lemma_compacted_len(data@, counts@, k as nat, c as nat);
        }
        let local = counts[c];
        let stored: usize = if local as usize <= k {
            local as usize
        } else {
            k
        };
        // The next chunk's entries land exactly at its global offset.
        proof {
            assert(out@.len() == offsets@[c as int]);
        }
        let mut j: usize = 0;
        while j < stored
            invariant
                j <= stored,
                c < n,
                n == counts@.len(),
                data@.len() == n * k,
                data@.len() == dlen,
                base == c * k,
                base + k <= data@.len(),
                stored == stored_count(counts@[c as int], k as nat),
                stored <= k,
                out@ == compacted(data@, counts@, k as nat, c as nat) + data@.subrange(
                    base as int,
                    base + j,
                ),
            decreases stored - j,
        {
            let item = data[base + j];
            out.push(item);
            proof {
                assert(data@.subrange(base as int, base + j + 1) =~= data@.subrange(
                    base as int,
                    base + j,
                ).push(data@[base + j]));
            }
            j = j + 1;
        }
        proof {
            assert(data@.subrange(base as int, base + stored) == chunk_stored(
                data@,
                counts@,
                k as nat,
                c as int,
            ));
            assert(out@ == compacted(data@, counts@, k as nat, (c + 1) as nat));
        }
        proof {
            assert(base + k <= data@.len());
        }
        base = base + k;
        c = c + 1;
    }
    proof {
        lemma_compacted_len(data@, counts@, k as nat, n as nat);
    }
    out
}

/// The whole host-visible model of the compaction protocol: clamp the
/// counter table to the per-chunk capacity, scan the clamped copy into
/// global offsets (the counter table itself stays untouched), scatter every
/// chunk's stored prefix, and report the total. The output is the naive
/// in-order compaction of the chunks' stored results.
pub fn compact_results(data: &Vec<OrbData>, counts: &Vec<u32>, k: usize) -> (r: (Vec<OrbData>, u32))
    requires
        data@.len() == counts@.len() * k,
        counts@.len() <= usize::MAX / 2,
        k <= u32::MAX,
        stored_total(counts@, k as nat, counts@.len() as int) <= u32::MAX,
    ensures
        r.0@ == compacted(data@, counts@, k as nat, counts@.len() as nat),
        r.1 == stored_total(counts@, k as nat, counts@.len() as int),
        r.0@.len() == r.1,
{
    let clamped = clamp_counts(counts, k as u32);
    proof {
        lemma_clamped_prefix(counts@, clamped@, k as nat, counts@.len() as int);
        assert forall|c: int| 0 <= c < counts@.len() implies prefix_sum(clamped@, c)
            == stored_total(counts@, k as nat, c) by {
            lemma_clamped_prefix(counts@, clamped@, k as nat, c);
        }
    }
    let offsets = compaction_offsets(&clamped);
    let total = crate::scan::scan_total(&clamped);
    let out = scatter_chunks(data, counts, &offsets, k);
    (out, total)
}

/// Caps the compacted output at the configured maximum feature count:
/// detections beyond the output array's capacity are dropped, not reported
/// as an error.
pub fn take_prefix(v: &Vec<OrbData>, max: usize) -> (r: Vec<OrbData>)
    ensures
        r@ == v@.take(if max <= v@.len() { max as int } else { v@.len() as int }),
{
    let n = if max <= v.len() {
        max
    } else {
        v.len()
    };
    let mut r: Vec<OrbData> = Vec::new();
    let mut i: usize = 0;
    while i < n
        invariant
            i <= n,
            n <= v@.len(),
            r@.len() == i,
            forall|j: int| 0 <= j < i ==> r@[j] == v@[j],
        decreases n - i,
    {
        r.push(v[i]);
        i = i + 1;
    }
    proof {
        assert(r@ =~= v@.take(n as int));
    }
    r
}

} // verus!
