//! The two-phase parallel compaction's first phase: turning per-chunk result
//! counts into global write offsets with a Hillis–Steele scan.
//!
//! The offset table starts as a copy of the per-chunk counter table. Round
//! `r` adds to each entry the entry `2^r` positions earlier, for every index
//! at or above the stride; after `ceil(log2(n))` rounds each entry holds the
//! inclusive prefix sum, and one final shift turns that into the exclusive
//! prefix sum: the global offset at which each chunk's results begin. This
//! replaces a serializing global atomic counter with `O(log n)` rounds of
//! fully parallel, collision-free work.

use vstd::prelude::*;

verus! {

/// Sum of the entries `s[lo..hi)`, as an unbounded integer.
pub open spec fn sum_range(s: Seq<u32>, lo: int, hi: int) -> int
    decreases hi - lo,
{
    if lo >= hi {
        0
    } else {
        sum_range(s, lo, hi - 1) + s[hi - 1]
    }
}

/// Exclusive prefix sum: the sum of all entries strictly before `c`.
pub open spec fn prefix_sum(s: Seq<u32>, c: int) -> int {
    sum_range(s, 0, c)
}

/// Splitting a summed range at any interior point splits the sum.
pub proof fn lemma_sum_range_split(s: Seq<u32>, lo: int, mid: int, hi: int)
    requires
        lo <= mid <= hi,
    ensures
        sum_range(s, lo, hi) == sum_range(s, lo, mid) + sum_range(s, mid, hi),
    decreases hi - mid,
{
    if mid < hi {
        lemma_sum_range_split(s, lo, mid, hi - 1);
    }
}

/// A sum over in-bounds entries is never negative.
pub proof fn lemma_sum_range_nonneg(s: Seq<u32>, lo: int, hi: int)
    requires
        0 <= lo,
        hi <= s.len(),
    ensures
        sum_range(s, lo, hi) >= 0,
    decreases hi - lo,
{
    if lo < hi {
        lemma_sum_range_nonneg(s, lo, hi - 1);
    }
}

/// A sum over part of the table is at most the sum over the whole table.
pub proof fn lemma_sum_range_subrange(s: Seq<u32>, lo: int, hi: int)
    requires
        0 <= lo <= hi <= s.len(),
    ensures
        sum_range(s, lo, hi) <= sum_range(s, 0, s.len() as int),
{
    lemma_sum_range_split(s, 0, lo, hi);
    lemma_sum_range_split(s, 0, hi, s.len() as int);
    lemma_sum_range_nonneg(s, 0, lo);
    lemma_sum_range_nonneg(s, hi, s.len() as int);
}

/// Lower edge of the window an entry has accumulated after the rounds with
/// strides summing to `width`: entry `c` covers `s[win_lo(c, width)..c+1)`.
pub open spec fn win_lo(c: int, width: int) -> int {
    if c + 1 - width < 0 {
        0
    } else {
        c + 1 - width
    }
}

/// One compaction round at the given stride: every entry at index `c >=
/// stride` has the entry `stride` positions earlier added into it, exactly
/// the parallel sweep the device performs (all reads see the table as it was
/// before the round).
pub fn scan_round(t: &mut Vec<u32>, stride: usize)
    requires
        1 <= stride < old(t)@.len(),
        forall|c: int|
            stride <= c < old(t)@.len() ==> #[trigger] old(t)@[c] + old(t)@[c - stride] <= u32::MAX,
    ensures
        final(t)@.len() == old(t)@.len(),
        forall|c: int| 0 <= c < stride ==> final(t)@[c] == old(t)@[c],
        forall|c: int|
            stride <= c < old(t)@.len() ==> final(t)@[c] == old(t)@[c] + old(t)@[c - stride],
{
    let n = t.len();
    let mut i: usize = n;
    while i > stride
        invariant
            stride <= i <= n,
            1 <= stride < old(t)@.len(),
            n == t@.len(),
            n == old(t)@.len(),
            forall|c: int|
                stride <= c < old(t)@.len() ==> #[trigger] old(t)@[c] + old(t)@[c - stride] <= u32::MAX,
            forall|c: int| 0 <= c < i ==> t@[c] == old(t)@[c],
            forall|c: int| i <= c < n ==> t@[c] == old(t)@[c] + old(t)@[c - stride],
        decreases i,
    {
        i = i - 1;
        let v = t[i] + t[i - stride];
        t[i] = v;
    }
}

/// Byte-for-byte copy of a counter table into a fresh table, as the
/// buffer-to-buffer copy before round 0 produces it.
pub fn copy_table(src: &Vec<u32>) -> (r: Vec<u32>)
    ensures
        r@ == src@,
{
    let mut r: Vec<u32> = Vec::new();
    let mut i: usize = 0;
    while i < src.len()
        invariant
            i <= src@.len(),
            r@.len() == i,
            forall|j: int| 0 <= j < i ==> r@[j] == src@[j],
        decreases src@.len() - i,
    {
        r.push(src[i]);
        i = i + 1;
    }
    proof {
        assert(r@ =~= src@);
    }
    r
}

/// Runs the compaction rounds in place with strides 1, 2, 4, ... while the
/// stride is below the table length — `ceil(log2(n))` rounds in all — after
/// which every entry holds the inclusive prefix sum of the original table.
pub fn inclusive_scan(t: &mut Vec<u32>)
    requires
        old(t)@.len() <= usize::MAX / 2,
        sum_range(old(t)@, 0, old(t)@.len() as int) <= u32::MAX,
    ensures
        final(t)@.len() == old(t)@.len(),
        forall|c: int| 0 <= c < old(t)@.len() ==> final(t)@[c] == sum_range(old(t)@, 0, c + 1),
{
    let ghost s0 = old(t)@;
    let n = t.len();
    let mut stride: usize = 1;
    proof {
        assert forall|c: int| 0 <= c < n implies t@[c] == sum_range(s0, win_lo(c, 1), c + 1) by {
            assert(win_lo(c, 1) == c);
            assert(sum_range(s0, c, c + 1) == sum_range(s0, c, c) + s0[c]);
            assert(sum_range(s0, c, c) == 0);
        }
    }
    while stride < n
        invariant
            n == t@.len(),
            n == s0.len(),
            n <= usize::MAX / 2,
            1 <= stride,
            sum_range(s0, 0, n as int) <= u32::MAX,
            forall|c: int| 0 <= c < n ==> t@[c] == sum_range(s0, win_lo(c, stride as int), c + 1),
        decreases 2 * n - stride,
    {
        let ghost tpre = t@;
        let ghost d = stride as int;
        proof {
            // Every addition the round performs stays within `u32`: the two
            // windows are adjacent, so their sum is a sum over one in-bounds
            // range, bounded by the whole table's sum.
            assert forall|c: int| d <= c < n implies #[trigger] tpre[c] + tpre[c - d]
                <= u32::MAX by {
                assert(tpre[c] == sum_range(s0, win_lo(c, d), c + 1));
                assert(tpre[c - d] == sum_range(s0, win_lo(c - d, d), c - d + 1));
                assert(win_lo(c - d, d) == win_lo(c, 2 * d));
                assert(win_lo(c, d) == c + 1 - d);
                lemma_sum_range_split(s0, win_lo(c, 2 * d), c + 1 - d, c + 1);
                lemma_sum_range_subrange(s0, win_lo(c, 2 * d), c + 1);
            }
        }
        scan_round(t, stride);
        proof {
            // Re-establish the window invariant for the doubled stride.
            assert forall|c: int| 0 <= c < n implies t@[c] == sum_range(
                s0,
                win_lo(c, 2 * d),
                c + 1,
            ) by {
                if c < d {
                    assert(t@[c] == tpre[c]);
                    assert(win_lo(c, d) == 0 && win_lo(c, 2 * d) == 0);
                } else {
                    assert(t@[c] == tpre[c] + tpre[c - d]);
                    assert(win_lo(c - d, d) == win_lo(c, 2 * d));
                    assert(win_lo(c, d) == c + 1 - d);
                    lemma_sum_range_split(s0, win_lo(c, 2 * d), c + 1 - d, c + 1);
                }
            }
        }
        stride = stride * 2;
    }
    proof {
        assert forall|c: int| 0 <= c < n implies t@[c] == sum_range(s0, 0, c + 1) by {
            assert(t@[c] == sum_range(s0, win_lo(c, stride as int), c + 1));
            assert(win_lo(c, stride as int) == 0);
        }
    }
}

/// The first phase of the compaction protocol, whole: copies the per-chunk
/// counter table, runs the scan rounds on the copy, and shifts the inclusive
/// sums once so that entry `c` holds the exclusive prefix sum of all chunks
/// strictly before `c` — the global write offset at which chunk `c`'s
/// results begin once every chunk before it is laid out contiguously. The
/// counter table itself is left untouched for the scatter phase.
pub fn compaction_offsets(counts: &Vec<u32>) -> (r: Vec<u32>)
    requires
        counts@.len() <= usize::MAX / 2,
        sum_range(counts@, 0, counts@.len() as int) <= u32::MAX,
    ensures
        r@.len() == counts@.len(),
        forall|c: int| 0 <= c < counts@.len() ==> r@[c] == prefix_sum(counts@, c),
{
    let scanned = {
        let mut g = copy_table(counts);
        inclusive_scan(&mut g);
        g
    };
    let n = counts.len();
    let mut r: Vec<u32> = Vec::new();
    if n == 0 {
        return r;
    }
    r.push(0);
    let mut i: usize = 1;
    while i < n
        invariant
            1 <= i <= n,
            n == counts@.len(),
            scanned@.len() == n,
            forall|c: int| 0 <= c < n ==> scanned@[c] == sum_range(counts@, 0, c + 1),
            r@.len() == i,
            forall|c: int| 0 <= c < i ==> r@[c] == prefix_sum(counts@, c),
        decreases n - i,
    {
        r.push(scanned[i - 1]);
        i = i + 1;
    }
    r
}

/// Total number of results across all chunks: the sum of the counter table,
/// which the device reads back as the number of valid entries in the output
/// array.
pub fn scan_total(counts: &Vec<u32>) -> (r: u32)
    requires
        sum_range(counts@, 0, counts@.len() as int) <= u32::MAX,
    ensures
        r == sum_range(counts@, 0, counts@.len() as int),
{
    let mut acc: u32 = 0;
    let mut i: usize = 0;
    while i < counts.len()
        invariant
            i <= counts@.len(),
            sum_range(counts@, 0, counts@.len() as int) <= u32::MAX,
            acc == sum_range(counts@, 0, i as int),
        decreases counts@.len() - i,
    {
        proof {
            lemma_sum_range_subrange(counts@, 0, i + 1);
            lemma_sum_range_nonneg(counts@, 0, i as int);
        }
        acc = acc + counts[i];
        i = i + 1;
    }
    acc
}

} // verus!
