//! Call identifiers.
use vstd::prelude::*;

verus! {

/// The identifier handed out by the `i`-th call of `next_id` on a counter
/// that started at `start`; the counter wraps on overflow.
pub open spec fn id_after(start: u64, i: nat) -> u64 {
    ((start as nat + i) % 0x1_0000_0000_0000_0000) as u64
}

/// A monotonic source of call identifiers, starting at 0 and wrapping
/// silently on overflow. Identifiers are never reclaimed or reset.
pub struct IdCounter {
    pub next: u64,
}

impl IdCounter {
    /// A counter whose first identifier is 0.
    pub fn new() -> (r: IdCounter)
        ensures
            r.next == 0,
    {
        IdCounter { next: 0 }
    }

    /// Hands out the current identifier and advances the counter by one.
    pub fn next_id(&mut self) -> (r: u64)
        ensures
            r == old(self).next,
            final(self).next == id_after(old(self).next, 1),
    {
        let r = self.next;
        self.next = self.next.wrapping_add(1);
        r
    }
}

/// Advancing by `i` and then by one more is advancing by `i + 1`.
pub proof fn lemma_id_after_step(start: u64, i: nat)
    ensures
        id_after(id_after(start, i), 1) == id_after(start, i + 1),
{
    let m: int = 0x1_0000_0000_0000_0000;
    let a: int = start as int + i;
    assert((a % m + 1) % m == (a + 1) % m) by {
        vstd::arithmetic::div_mod::lemma_add_mod_noop(a, 1, m);
        vstd::arithmetic::div_mod::lemma_small_mod(1, m as nat);
    }
}

/// Any `n` identifiers handed out in a row by one counter, with `n` at most
/// 2^64, are pairwise distinct.
pub proof fn lemma_ids_distinct(start: u64, i: nat, j: nat)
    requires
        i < j < 0x1_0000_0000_0000_0000,
    ensures
        id_after(start, i) != id_after(start, j),
{
    let m: int = 0x1_0000_0000_0000_0000;
    let a: int = start as int + i;
    let b: int = start as int + j;
    if a % m == b % m {
        vstd::arithmetic::div_mod::lemma_fundamental_div_mod(a, m);
        vstd::arithmetic::div_mod::lemma_fundamental_div_mod(b, m);
        assert(m * (b / m) - m * (a / m) == b - a);
        vstd::arithmetic::mul::lemma_mul_is_distributive_sub(m, b / m, a / m);
        assert(0 < b - a < m);
        if b / m - a / m >= 1 {
            vstd::arithmetic::mul::lemma_mul_inequality(1, b / m - a / m, m);
            vstd::arithmetic::mul::lemma_mul_is_commutative(m, b / m - a / m);
        } else {
            vstd::arithmetic::mul::lemma_mul_inequality(b / m - a / m, 0, m);
            vstd::arithmetic::mul::lemma_mul_is_commutative(m, b / m - a / m);
        }
    }
}

} // verus!
