//! The circulant embedding itself: sizing, the first row of the circulant
//! matrix, and the slot layout of the synthesized spectrum.

use vstd::prelude::*;
use vstd::arithmetic::power2::{lemma2_to64, lemma_pow2_strictly_increases, lemma_pow2_unfold, pow2};

verus! {

/// An embedding size `m` fits a target of `n` correlated values when it is a
/// power of two, large enough to hold the symmetrized covariance row
/// (`m >= 2 * (n - 1)`), large enough that `n + 1` entries can be read off the
/// transformed sequence, and minimal among such sizes.
pub open spec fn good_embedding_size(n: int, m: int) -> bool {
    &&& (exists|e: nat| m == pow2(e))
    &&& m >= 2 * (n - 1)
    &&& m >= n + 1
    &&& m % 2 == 0
    &&& forall|e: nat| pow2(e) >= 2 * (n - 1) && pow2(e) >= n + 1 ==> m <= pow2(e)
}

/// Smallest power of two that accommodates both the symmetrized covariance
/// row of a target of `n` values and the `n + 1` entries later read off the
/// inverse transform.
pub fn embedding_size(n: usize) -> (m: usize)
    requires
        1 <= n,
        n <= usize::MAX / 4,
    ensures
        good_embedding_size(n as int, m as int),
{
    let needed: usize = if 2 * (n - 1) >= n + 1 {
        2 * (n - 1)
    } else {
        n + 1
    };
    let mut m: usize = 2;
    let ghost mut e: nat = 1;
    proof {
        lemma2_to64();
    }
    while m < needed
        invariant
            2 <= needed <= usize::MAX / 2,
            1 <= e,
            m == pow2(e),
            2 <= m,
            pow2((e - 1) as nat) < needed,
        decreases (if m < needed { needed - m } else { 0int }),
    {
        proof {
            lemma_pow2_unfold((e + 1) as nat);
        }
        m = m * 2;
        proof {
            e = e + 1;
        }
    }
    proof {
        lemma_pow2_unfold(e);
        assert forall|f: nat| pow2(f) >= 2 * (n as int - 1) && pow2(f) >= n as int + 1
            implies m <= pow2(f) by {
            if f < e {
                if f < (e - 1) as nat {
                    lemma_pow2_strictly_increases(f, (e - 1) as nat);
                }
                assert(pow2(f) <= pow2((e - 1) as nat));
            } else if e < f {
                lemma_pow2_strictly_increases(e, f);
            }
        }
    }
    m
}

/// Covariance lag carried by entry `j` of the length-`m` circulant first
/// row: `j` on the leading half, folding back to `m - j` on the trailing
/// half, so the row reads `γ(0), γ(1), …, γ(m/2), …, γ(2), γ(1)`.
pub open spec fn lag_at(m: int, j: int) -> int {
    if j <= m - j {
        j
    } else {
        m - j
    }
}

/// First row of the circulant matrix, as lags: entry `j` tells at which lag
/// the stationary covariance is to be evaluated to fill the row.
pub fn circulant_row_lags(m: usize) -> (lags: Vec<usize>)
    ensures
        lags@.len() == m,
        forall|j: int| 0 <= j < m ==> lags@[j] == lag_at(m as int, j),
{
    let mut lags: Vec<usize> = Vec::new();
    let mut j: usize = 0;
    while j < m
        invariant
            j <= m,
            lags@.len() == j,
            forall|i: int| 0 <= i < j ==> lags@[i] == lag_at(m as int, i),
        decreases m - j,
    {
        let lag = if j <= m - j {
            j
        } else {
            m - j
        };
        lags.push(lag);
        j += 1;
    }
    lags
}

/// The circulant first row is even-symmetric: entries `j` and `m - j` carry
/// the same lag, so the symmetric extension `γ(-τ) = γ(τ)` of the stationary
/// covariance is exactly what the embedding realizes.
pub proof fn lemma_row_symmetric(m: int, j: int)
    requires
        1 <= j < m,
    ensures
        lag_at(m, j) == lag_at(m, m - j),
{
}

/// On the leading half of the row the lag is the index itself: the row
/// begins with the covariance sequence `γ(0), γ(1), …` in order.
pub proof fn lemma_row_prefix(m: int, j: int)
    requires
        0 <= j,
        j <= m - j,
    ensures
        lag_at(m, j) == j,
{
}

/// For an embedding sized to a target of `n` values, the leading `n` entries
/// of the circulant row carry the lags `0, 1, …, n - 1` in order: the target
/// covariance sequence enters the embedding unchanged.
pub proof fn lemma_row_leads_with_target(n: int, m: int, j: int)
    requires
        1 <= n,
        good_embedding_size(n, m),
        0 <= j < n,
    ensures
        lag_at(m, j) == j,
{
}

/// No entry of the row asks for a lag beyond `m / 2`: the covariance is only
/// ever evaluated on lags the embedding can represent without wrap-around.
pub proof fn lemma_lag_bounds(m: int, j: int)
    requires
        0 <= j < m,
    ensures
        0 <= lag_at(m, j) <= m / 2,
{
}

/// How one entry of the length-`m` spectrum is synthesized from independent
/// standard-normal draws. Draws are numbered in the order they are taken.
#[derive(Clone, Copy, PartialEq, Eq, Structural, Debug)]
pub enum Slot {
    /// A purely real entry (index `0` or `m / 2`): one draw, scaled by
    /// `sqrt(λ_k / m)`.
    Anchor { draw: usize },
    /// An interior entry (`0 < k < m / 2`): two draws form one complex
    /// value, scaled by `sqrt(λ_k / (2 m))`.
    Pair { draw_re: usize, draw_im: usize },
    /// A trailing entry (`m / 2 < k < m`): the complex conjugate of the
    /// entry at index `source`, taking no draw of its own.
    Mirror { source: usize },
}

/// Slot layout of the spectrum for an even embedding size `m`.
pub open spec fn slot_at(m: int, k: int) -> Slot {
    if k == 0 {
        Slot::Anchor { draw: 0 }
    } else if k < m / 2 {
        Slot::Pair { draw_re: (2 * k - 1) as usize, draw_im: (2 * k) as usize }
    } else if k == m / 2 {
        Slot::Anchor { draw: (m - 1) as usize }
    } else {
        Slot::Mirror { source: (m - k) as usize }
    }
}

/// The synthesis plan for a length-`m` spectrum: which draws feed entry `k`,
/// or which earlier entry it mirrors.
pub fn spectrum_slots(m: usize) -> (slots: Vec<Slot>)
    requires
        2 <= m,
        m % 2 == 0,
    ensures
        slots@.len() == m,
        forall|k: int| 0 <= k < m ==> slots@[k] == slot_at(m as int, k),
{
    let half = m / 2;
    let mut slots: Vec<Slot> = Vec::new();
    let mut k: usize = 0;
    while k < m
        invariant
            k <= m,
            half == m / 2,
            2 <= m,
            slots@.len() == k,
            forall|i: int| 0 <= i < k ==> slots@[i] == slot_at(m as int, i),
        decreases m - k,
    {
        let slot = if k == 0 {
            Slot::Anchor { draw: 0 }
        } else if k < half {
            Slot::Pair { draw_re: 2 * k - 1, draw_im: 2 * k }
        } else if k == half {
            Slot::Anchor { draw: m - 1 }
        } else {
            Slot::Mirror { source: m - k }
        };
        slots.push(slot);
        k += 1;
    }
    slots
}

/// Which draw indices an entry consumes.
pub open spec fn slot_uses(s: Slot, d: int) -> bool {
    match s {
        Slot::Anchor { draw } => d == draw,
        Slot::Pair { draw_re, draw_im } => d == draw_re || d == draw_im,
        Slot::Mirror { .. } => false,
    }
}

/// Entry that consumes draw `d` in a length-`m` spectrum.
pub open spec fn draw_slot(m: int, d: int) -> int {
    if d == 0 {
        0
    } else if d == m - 1 {
        m / 2
    } else {
        (d + 1) / 2
    }
}

/// Hermitian symmetry of the synthesized spectrum: every entry strictly
/// between `0` and `m / 2` is a full complex draw, and its opposite entry
/// `m - k` is exactly its conjugate mirror — so the inverse transform of the
/// spectrum is real.
pub proof fn lemma_hermitian_pairing(m: int, k: int)
    requires
        2 <= m,
        m % 2 == 0,
        0 < k < m / 2,
    ensures
        slot_at(m, k) is Pair,
        slot_at(m, m - k) == (Slot::Mirror { source: k as usize }),
{
}

/// The two entries that admit no imaginary part — index `0` and index
/// `m / 2` — each take a single real draw.
pub proof fn lemma_anchors_real(m: int)
    requires
        2 <= m,
        m % 2 == 0,
    ensures
        slot_at(m, 0) == (Slot::Anchor { draw: 0 }),
        slot_at(m, m / 2) == (Slot::Anchor { draw: (m - 1) as usize }),
{
}

/// Every mirror entry copies a pair entry that stands strictly earlier in
/// the sequence, so the spectrum can be synthesized in one left-to-right
/// pass.
pub proof fn lemma_mirror_source(m: int, k: int)
    requires
        2 <= m <= usize::MAX,
        m % 2 == 0,
        m / 2 < k < m,
    ensures
        slot_at(m, k) matches Slot::Mirror { source } && 0 < source < k && slot_at(
            m,
            source as int,
        ) is Pair,
{
}

/// The synthesis consumes exactly `m` independent standard-normal draws:
/// each draw index below `m` feeds exactly one entry of the spectrum, and no
/// entry asks for a draw at or beyond `m`.
pub proof fn lemma_draw_partition(m: int, d: int)
    requires
        2 <= m <= usize::MAX,
        m % 2 == 0,
        0 <= d < m,
    ensures
        0 <= draw_slot(m, d) < m,
        slot_uses(slot_at(m, draw_slot(m, d)), d),
        forall|k: int| 0 <= k < m && slot_uses(slot_at(m, k), d) ==> k == draw_slot(m, d),
{
    let k0 = draw_slot(m, d);
    if 1 <= d && d < m - 1 {
        assert(k0 == (d + 1) / 2);
        if d % 2 == 1 {
            assert(d + 1 == 2 * (d / 2) + 2);
            assert(k0 == d / 2 + 1);
            assert(2 * k0 - 1 == d);
        } else {
            assert(k0 == d / 2);
            assert(2 * k0 == d);
        }
        assert(0 < k0 && k0 < m / 2);
        assert(slot_at(m, k0) == (Slot::Pair {
            draw_re: (2 * k0 - 1) as usize,
            draw_im: (2 * k0) as usize,
        }));
    }
    assert forall|k: int| 0 <= k < m && slot_uses(slot_at(m, k), d) implies k == k0 by {
        if k != 0 && k < m / 2 {
            assert(slot_at(m, k) == (Slot::Pair {
                draw_re: (2 * k - 1) as usize,
                draw_im: (2 * k) as usize,
            }));
            assert(d == 2 * k - 1 || d == 2 * k);
            assert((d + 1) / 2 == k);
            assert(1 <= d && d < m - 1);
        }
    }
}

/// Draw indices never reach `m`: the plan stays within the draw budget.
pub proof fn lemma_draws_in_range(m: int, k: int, d: int)
    requires
        2 <= m,
        m % 2 == 0,
        0 <= k < m,
        slot_uses(slot_at(m, k), d),
    ensures
        0 <= d < m,
{
}

} // verus!
