//! Sizes and work-group counts for the image pyramid and its chunk grid.
//!
//! A pyramid is one image with several mip levels; each level's dimensions are
//! the previous level's halved with floor. Dispatches are sized in 8x8 tiles
//! ("chunks"), so a dimension of `d` pixels needs `ceil(d / 8)` work groups.

use vstd::prelude::*;
use vstd::arithmetic::div_mod::lemma_div_denominator;
use vstd::arithmetic::power2::{
    lemma2_to64, lemma2_to64_rest, lemma_pow2_pos, lemma_pow2_strictly_increases,
    lemma_pow2_unfold, pow2,
};

verus! {

/// Dimension of pyramid level `level`: the base dimension halved (with floor)
/// once per level, exactly as the device derives each mip level from the one
/// above it.
pub open spec fn mip_dim(base: nat, level: nat) -> nat
    decreases level,
{
    if level == 0 {
        base
    } else {
        mip_dim(base, (level - 1) as nat) / 2
    }
}

/// Level `level` of a pyramid over a `base`-wide resource measures exactly
/// `floor(base / 2^level)`: iterated floor-halving equals one floor division
/// by the corresponding power of two.
pub proof fn lemma_mip_dim_closed_form(base: nat, level: nat)
    ensures
        mip_dim(base, level) == base / pow2(level),
    decreases level,
{
    if level == 0 {
        lemma2_to64();
    } else {
        let prev = (level - 1) as nat;
        lemma_mip_dim_closed_form(base, prev);
        lemma_pow2_pos(prev);
        lemma_div_denominator(base as int, pow2(prev) as int, 2);
        lemma_pow2_unfold(level);
    }
}

/// Pixel width or height of pyramid level `level`.
pub fn level_dim(base: u32, level: u32) -> (d: u32)
    ensures
        d == mip_dim(base as nat, level as nat),
{
    let mut d = base;
    let mut i: u32 = 0;
    while i < level
        invariant
            i <= level,
            d == mip_dim(base as nat, i as nat),
        decreases level - i,
    {
        d = d / 2;
        i = i + 1;
    }
    d
}

/// Number of 8-wide work groups needed to cover `dim` items: `ceil(dim / 8)`.
pub fn dispatch_groups(dim: u32) -> (g: u32)
    ensures
        g == (dim + 7) / 8,
{
    let wide: u64 = (dim as u64 + 7) / 8;
    wide as u32
}

/// Number of 8x8 chunks that tile a `width` x `height` image: the chunk grid
/// is the pair of per-axis group counts multiplied out.
pub fn chunk_count(width: u32, height: u32) -> (n: u64)
    ensures
        n == ((width + 7) / 8) * ((height + 7) / 8),
{
    let cx: u64 = (width as u64 + 7) / 8;
    let cy: u64 = (height as u64 + 7) / 8;
    proof {
        assert(cx <= 0x2000_0000 && cy <= 0x2000_0000);
        assert(cx * cy <= 0x2000_0000u64 * 0x2000_0000u64) by (nonlinear_arith)
            requires
                cx <= 0x2000_0000 && cy <= 0x2000_0000,
        ;
    }
    cx * cy
}

/// Holds exactly when `r` is the number of doubling rounds needed to reach
/// `n` starting from 1, i.e. the ceiling of the base-2 logarithm of `n`.
pub open spec fn is_ceil_log2(r: nat, n: nat) -> bool {
    &&& pow2(r) >= n
    &&& r > 0 ==> pow2((r - 1) as nat) < n
}

/// Ceiling of the base-2 logarithm: how many doubling rounds a scan over `n`
/// chunks needs (stride 1, 2, 4, ... until the stride reaches `n`).
pub fn ceil_log2(n: u64) -> (r: u32)
    requires
        1 <= n <= 0x8000_0000_0000_0000u64,
    ensures
        is_ceil_log2(r as nat, n as nat),
{
    let mut stride: u64 = 1;
    let mut r: u32 = 0;
    proof {
        lemma2_to64();
    }
    while stride < n
        invariant
            1 <= n <= 0x8000_0000_0000_0000u64,
            1 <= stride,
            stride == pow2(r as nat),
            r > 0 ==> pow2((r - 1) as nat) < n,
        decreases 2 * n - stride,
    {
        proof {
            lemma2_to64_rest();
            if r >= 63 {
                if r > 63 {
                    lemma_pow2_strictly_increases(63, r as nat);
                }
                assert(stride >= 0x8000_0000_0000_0000u64);
                assert(false);
            }
            lemma_pow2_unfold((r + 1) as nat);
        }
        stride = stride * 2;
        r = r + 1;
    }
    r
}

} // verus!
