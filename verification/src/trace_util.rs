//! Trace-shape helpers: powers of two and the next-power-of-two rounding
//! that fixes every chip's trace height.
use vstd::prelude::*;

verus! {

/// Two to the power `k`.
pub open spec fn spec_pow2(k: nat) -> nat
    decreases k,
{
    if k == 0 {
        1
    } else {
        2 * spec_pow2((k - 1) as nat)
    }
}

/// Powers of two are positive.
pub proof fn lemma_pow2_pos(k: nat)
    ensures
        spec_pow2(k) >= 1,
    decreases k,
{
    if k > 0 {
        lemma_pow2_pos((k - 1) as nat);
    }
}

/// Powers of two grow monotonically with the exponent.
pub proof fn lemma_pow2_mono(a: nat, b: nat)
    requires
        a <= b,
    ensures
        spec_pow2(a) <= spec_pow2(b),
    decreases b,
{
    if a < b {
        lemma_pow2_mono(a, (b - 1) as nat);
        lemma_pow2_pos((b - 1) as nat);
    }
}

/// Powers of two with exponents up to thirty fit well below the
/// machine-word bound.
#[verifier::rlimit(100)]
pub proof fn lemma_pow2_bound(k: nat)
    requires
        k <= 30,
    ensures
        1 <= spec_pow2(k) <= 0x4000_0000,
{
    lemma_pow2_pos(k);
    lemma_pow2_mono(k, 30);
    assert(spec_pow2(30) == 0x4000_0000) by {
        reveal_with_fuel(spec_pow2, 32);
    };
}

/// Computes two to the power `k`.
#[verifier::loop_isolation(false)]
pub fn exec_pow2(k: usize) -> (r: usize)
    requires
        k <= 30,
    ensures
        r == spec_pow2(k as nat),
{
    let mut h: usize = 1;
    let mut i: usize = 0;
    while i < k
        invariant
            0 <= i <= k,
            h == spec_pow2(i as nat),
        decreases k - i,
    {
        proof {
            lemma_pow2_bound(i as nat);
            lemma_pow2_bound((i + 1) as nat);
            assert(spec_pow2((i + 1) as nat) == 2 * spec_pow2(i as nat));
        }
        h = h * 2;
        i += 1;
    }
    h
}

/// The least power of two at or above `n`, found by doubling from `p`.
pub open spec fn spec_next_pow2_from(p: int, n: int) -> int
    decreases (if n - p >= 0 {
        n - p
    } else {
        0int
    }),
    when p >= 1
{
    if p >= n {
        p
    } else {
        spec_next_pow2_from(2 * p, n)
    }
}

/// The least power of two at or above `n` (one for `n` at most one).
pub open spec fn spec_next_pow2(n: int) -> int {
    spec_next_pow2_from(1, n)
}

/// The next power of two is at least `n` and at least the starting point.
pub proof fn lemma_next_pow2_from_ge(p: int, n: int)
    requires
        p >= 1,
    ensures
        spec_next_pow2_from(p, n) >= n,
        spec_next_pow2_from(p, n) >= p,
    decreases (if n - p >= 0 {
        n - p
    } else {
        0int
    }),
{
    if p < n {
        lemma_next_pow2_from_ge(2 * p, n);
    }
}

/// Computes the least power of two at or above `n`.
#[verifier::loop_isolation(false)]
pub fn next_pow2(n: usize) -> (r: usize)
    requires
        n <= 0x4000_0000,
    ensures
        r == spec_next_pow2(n as int),
        r >= n,
{
    let mut p: usize = 1;
    while p < n
        invariant
            1 <= p,
            p <= 0x8000_0000,
            spec_next_pow2(n as int) == spec_next_pow2_from(p as int, n as int),
        decreases 2 * (n as int) - p,
    {
        p = p * 2;
    }
    proof {
        lemma_next_pow2_from_ge(1, n as int);
    }
    p
}

/// A row-major matrix of field elements: the shape every chip hands to the
/// proving engine. The height is the cell count divided by the fixed width.
pub struct RowMajorMatrix {
    /// The cells, row by row.
    pub values: Vec<u32>,
    /// The fixed row width.
    pub width: usize,
}

impl RowMajorMatrix {
    /// Creates a matrix over `values` with rows of `width` cells.
    pub fn new(values: Vec<u32>, width: usize) -> (r: RowMajorMatrix)
        ensures
            r.values == values,
            r.width == width,
    {
        RowMajorMatrix { values, width }
    }
}

} // verus!
