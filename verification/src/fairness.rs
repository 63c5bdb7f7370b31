//! Round-robin fairness: over any window of consecutive selections on one
//! tier, every peer of the tier is chosen almost equally often.
//!
//! The selector's postcondition pins each single selection to the position
//! `counter % len` of the tier; this module reasons about whole windows of
//! such selections. [`rr_index_window`] is the sequence of positions a window
//! yields, and [`lemma_round_robin_fairness`] shows that each position occurs
//! either `n / len` or `n / len + 1` times in a window of `n` selections.

use vstd::prelude::*;
use vstd::arithmetic::div_mod::{
    lemma_basic_div,
    lemma_div_is_ordered,
    lemma_fundamental_div_mod,
    lemma_fundamental_div_mod_converse,
    lemma_hoist_over_denominator,
    lemma_mod_add_multiples_vanish,
    lemma_mod_bound,
    lemma_mod_equivalence,
    lemma_mod_multiples_vanish,
    lemma_small_mod,
};
use vstd::multiset::{axiom_multiset_empty, lemma_multiset_empty_len};
use crate::selector::rr_index;

verus! {

/// The tier positions a window of `n` consecutive selections yields on a
/// tier of length `len`, starting at counter value `start`: the `i`-th
/// selection of the window is served by the peer at `(start + i) % len`.
pub open spec fn rr_index_window(start: nat, n: nat, len: nat) -> Seq<nat>
    recommends
        len > 0,
{
    Seq::new(n, |i: int| rr_index((start + i) as nat, len))
}

/// How many times `j` occurs in `s`.
pub open spec fn occurrences(s: Seq<nat>, j: nat) -> nat
    decreases s.len(),
{
    if s.len() == 0 {
        0
    } else {
        occurrences(s.drop_last(), j) + (if s.last() == j {
            1nat
        } else {
            0nat
        })
    }
}

/// How far into the rotation that starts at counter `start` the position `j`
/// is first reached.
pub open spec fn rr_phase(start: nat, j: nat, len: nat) -> int
    recommends
        len > 0,
{
    (j - start) % (len as int)
}

/// The exact occurrence count: over a window of `n` selections starting at
/// counter `start`, position `j` of the tier is chosen exactly
/// `(n + len - 1 - rr_phase(start, j, len)) / len` times.
pub proof fn lemma_rr_occurrences_exact(start: nat, n: nat, len: nat, j: nat)
    requires
        len > 0,
        j < len,
    ensures
        occurrences(rr_index_window(start, n, len), j) == (n + len - 1 - rr_phase(start, j, len))
            / (len as int),
    decreases n,
{
    let l = len as int;
    let d = rr_phase(start, j, len);
    lemma_mod_bound(j - start, l);
    if n == 0 {
        assert(rr_index_window(start, 0, len).len() == 0);
        lemma_basic_div(l - 1 - d, l);
    } else {
        let w = rr_index_window(start, n, len);
        let wp = rr_index_window(start, (n - 1) as nat, len);
        assert(w.drop_last() =~= wp);
        lemma_rr_occurrences_exact(start, (n - 1) as nat, len, j);

        // The window's last selection hits `j` exactly when the window length
        // has run a whole number of rotations past the phase of `j`.
        assert(w.last() == rr_index((start + n - 1) as nat, len));
        lemma_small_mod(j, len);
        lemma_mod_equivalence(start + n - 1, j as int, l);
        let q = (j - start) / l;
        lemma_fundamental_div_mod(j - start, l);
        assert(start + n - 1 - j == (-q) * l + (n - 1 - d)) by (nonlinear_arith)
            requires
                j - start == q * l + d,
        ;
        lemma_mod_multiples_vanish(-q, n - 1 - d, l);
        assert((start + n - 1 - j) % l == (n - 1 - d) % l);
        assert(w.last() == j <==> (n - 1 - d) % l == 0);

        // One more selection raises the quotient exactly when it lands on `j`.
        let m = n - 1 + l - 1 - d;
        let mq = m / l;
        let mr = m % l;
        lemma_fundamental_div_mod(m, l);
        lemma_mod_bound(m, l);
        lemma_mod_add_multiples_vanish(n - 1 - d, l);
        assert((m + 1) % l == (n - 1 - d) % l);
        if mr == l - 1 {
            assert(m + 1 == (mq + 1) * l + 0) by (nonlinear_arith)
                requires
                    m == l * mq + mr,
                    mr == l - 1,
            ;
            lemma_fundamental_div_mod_converse(m + 1, l, mq + 1, 0);
            assert(w.last() == j);
        } else {
            assert(m + 1 == mq * l + (mr + 1)) by (nonlinear_arith)
                requires
                    m == l * mq + mr,
            ;
            lemma_fundamental_div_mod_converse(m + 1, l, mq, mr + 1);
            assert(w.last() != j);
        }
    }
}

/// Round-robin fairness: over any window of `n` consecutive selections on a
/// tier of length `len >= 1`, the peer at each position `j` of the tier is
/// chosen either `n / len` times (rounded down) or one more time than that.
pub proof fn lemma_round_robin_fairness(start: nat, n: nat, len: nat, j: nat)
    requires
        len >= 1,
        j < len,
    ensures
        occurrences(rr_index_window(start, n, len), j) == n / len || occurrences(
            rr_index_window(start, n, len),
            j,
        ) == n / len + 1,
{
    let l = len as int;
    let d = rr_phase(start, j, len);
    lemma_mod_bound(j - start, l);
    lemma_rr_occurrences_exact(start, n, len, j);
    lemma_div_is_ordered(n as int, n + l - 1 - d, l);
    lemma_div_is_ordered(n + l - 1 - d, n + l, l);
    lemma_hoist_over_denominator(n as int, 1, len);
    assert((n as int) / l == n / len);
}

/// Occurrence counting agrees with the window's multiset: the law above is a
/// statement about the multiset of positions a window yields.
pub proof fn lemma_occurrences_is_multiset_count(s: Seq<nat>, j: nat)
    ensures
        occurrences(s, j) == s.to_multiset().count(j),
    decreases s.len(),
{
    broadcast use vstd::seq_lib::group_to_multiset_ensures;
    broadcast use vstd::multiset::group_multiset_properties;

    if s.len() == 0 {
        lemma_multiset_empty_len(s.to_multiset());
        axiom_multiset_empty(j);
    } else {
        lemma_occurrences_is_multiset_count(s.drop_last(), j);
        assert(s =~= s.drop_last().push(s.last()));
    }
}

/// Round-robin fairness stated over the window's multiset: in the multiset
/// of tier positions that a window of `n` selections yields, each position
/// `j` of the tier has multiplicity `n / len` or `n / len + 1`.
pub proof fn lemma_fairness_of_window_multiset(start: nat, n: nat, len: nat, j: nat)
    requires
        len >= 1,
        j < len,
    ensures
        rr_index_window(start, n, len).to_multiset().count(j) == n / len || rr_index_window(
            start,
            n,
            len,
        ).to_multiset().count(j) == n / len + 1,
{
    lemma_occurrences_is_multiset_count(rr_index_window(start, n, len), j);
    lemma_round_robin_fairness(start, n, len, j);
}

/// Single-peer degeneration: on a tier of length 1, every counter value
/// selects position 0, so round-robin reduces to fixed routing.
pub proof fn lemma_single_peer_degeneration(counter: nat)
    ensures
        rr_index(counter, 1) == 0,
{
    lemma_mod_bound(counter as int, 1);
}

} // verus!
