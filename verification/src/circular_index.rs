//! A bounded circular counter over `[0, max)`.
//!
//! The temporal buffer uses one of these to pick which history slot the next
//! incoming frame overwrites: the index advances by a signed delta, wrapping
//! negative results forward so the value never leaves `[0, max)`.
use vstd::arithmetic::div_mod::{
    lemma_fundamental_div_mod, lemma_fundamental_div_mod_converse_mod, lemma_mod_bound,
    lemma_mod_multiples_vanish, lemma_small_mod,
};
use vstd::prelude::*;

verus! {

/// The value of an index `i` advanced by `by`, wrapped into `[0, n)`:
/// the remainder is taken after adding `n`, so a negative delta wraps
/// forward and the result is never negative.
pub open spec fn wrapped_index(i: int, by: int, n: int) -> int
    recommends
        n > 0,
{
    ((i + by) % n + n) % n
}

/// The wrap-forward form equals the plain euclidean remainder.
pub proof fn lemma_wrapped_index_is_mod(i: int, by: int, n: int)
    requires
        n > 0,
    ensures
        wrapped_index(i, by, n) == (i + by) % n,
        0 <= wrapped_index(i, by, n) < n,
{
    let b = (i + by) % n;
    lemma_mod_bound(i + by, n);
    lemma_mod_multiples_vanish(1, b, n);
    lemma_small_mod(b as nat, n as nat);
}

/// A circular counter: `current` always stays in `[0, max)`.
#[derive(Debug, Clone, Copy, PartialEq, Eq, Structural)]
pub struct UCircularIndex {
    pub current: usize,
    pub max: usize,
}

impl UCircularIndex {
    /// The counter is well formed when its bound is positive and its value
    /// lies inside the bound.
    pub open spec fn wf(self) -> bool {
        self.max > 0 && self.current < self.max
    }

    pub fn new(current: usize, max: usize) -> (r: Self)
        requires
            max > 0,
            current < max,
        ensures
            r == (UCircularIndex { current, max }),
            r.wf(),
    {
        Self { current, max }
    }

    /// Advance the counter by a signed delta, modulo `max`; a negative delta
    /// is wrapped forward, so the result never leaves `[0, max)`.
    pub fn add_assign(&mut self, rhs: i32)
        requires
            old(self).wf(),
        ensures
            final(self).max == old(self).max,
            final(self).current == wrapped_index(
                old(self).current as int,
                rhs as int,
                old(self).max as int,
            ),
            final(self).wf(),
    {
        let m = self.max;
        // Reduce the delta to an equivalent non-negative shift below `max`.
        let shift: usize = if rhs >= 0 {
            (rhs as usize) % m
        } else {
            let neg = ((-(rhs as i64)) as usize) % m;
            if neg == 0 {
                0
            } else {
                m - neg
            }
        };
        let next = if self.current >= m - shift {
            self.current - (m - shift)
        } else {
            self.current + shift
        };
        proof {
            let i = self.current as int;
            let n = m as int;
            let r = rhs as int;
            let s = shift as int;
            // `next` is the remainder of `i + s` by `n`.
            let q: int = if i >= n - s {
                1
            } else {
                0
            };
            lemma_fundamental_div_mod_converse_mod(i + s, n, q, next as int);
            // `s` differs from `r` by an exact multiple of `n`,
            // so the two remainders agree.
            if r >= 0 {
                let d = r / n;
                lemma_fundamental_div_mod(r, n);
                assert(n * (-d) == -(n * d)) by (nonlinear_arith);
                assert(i + s == n * (-d) + (i + r));
                lemma_mod_multiples_vanish(-d, i + r, n);
            } else {
                let e = (-r) / n;
                lemma_fundamental_div_mod(-r, n);
                if (-r) % n == 0 {
                    assert(i + s == n * e + (i + r));
                    lemma_mod_multiples_vanish(e, i + r, n);
                } else {
                    assert(n * (e + 1) == n * e + n) by (nonlinear_arith);
                    assert(i + s == n * (e + 1) + (i + r));
                    lemma_mod_multiples_vanish(e + 1, i + r, n);
                }
            }
            lemma_wrapped_index_is_mod(i, r, n);
        }
        self.current = next;
    }

    /// The slot the next frame will be written to.
    pub fn value(&self) -> (r: usize)
        ensures
            r == self.current,
    {
        self.current
    }
}

/// The index after `k` single-step advances from `i`, all modulo `n`.
pub open spec fn iter_advance(i: int, k: nat, n: int) -> int
    recommends
        n > 0,
    decreases k,
{
    if k == 0 {
        i
    } else {
        wrapped_index(iter_advance(i, (k - 1) as nat, n), 1, n)
    }
}

/// Advancing never leaves `[0, n)`.
pub proof fn lemma_advance_in_range(i: int, by: int, n: int)
    requires
        n > 0,
    ensures
        0 <= wrapped_index(i, by, n) < n,
{
    lemma_wrapped_index_is_mod(i, by, n);
}

/// `k` single-step advances move the index by `k`, wrapped once at the end.
pub proof fn lemma_iter_advance_unrolled(i: int, k: nat, n: int)
    requires
        n > 0,
        0 <= i < n,
    ensures
        iter_advance(i, k, n) == wrapped_index(i, k as int, n),
    decreases k,
{
    if k == 0 {
        lemma_small_mod(i as nat, n as nat);
        lemma_wrapped_index_is_mod(i, 0, n);
    } else {
        lemma_iter_advance_unrolled(i, (k - 1) as nat, n);
        let prev = wrapped_index(i, k as int - 1, n);
        lemma_wrapped_index_is_mod(i, k as int - 1, n);
        lemma_wrapped_index_is_mod(prev, 1, n);
        lemma_wrapped_index_is_mod(i, k as int, n);
        // prev == (i + k - 1) - q * n, so prev + 1 == (i + k) - q * n.
        let q = (i + k - 1) / n;
        lemma_fundamental_div_mod(i + k - 1, n);
        assert(n * (-q) == -(n * q)) by (nonlinear_arith);
        assert(prev + 1 == n * (-q) + (i + k));
        lemma_mod_multiples_vanish(-q, i + k, n);
    }
}

/// Periodicity: after exactly `n` single-step advances the counter returns
/// to its starting value.
pub proof fn lemma_advance_periodicity(i: int, n: int)
    requires
        n > 0,
        0 <= i < n,
    ensures
        iter_advance(i, n as nat, n) == i,
{
    lemma_iter_advance_unrolled(i, n as nat, n);
    lemma_wrapped_index_is_mod(i, n, n);
    lemma_mod_multiples_vanish(1, i, n);
    lemma_small_mod(i as nat, n as nat);
}

} // verus!
