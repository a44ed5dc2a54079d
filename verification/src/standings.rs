//! Validity of contest standings.
//!
//! A standings entry carries an inclusive, 0-indexed range `lo..=hi` of tied
//! finishing positions. Across one contest the ranges must partition
//! `0..n-1` consistently with a ranking: every range lies inside the field,
//! two ranges either coincide or are disjoint, and a tie block of width `w`
//! is occupied by exactly `w` entries.

use vstd::prelude::*;
use vstd::set::axiom_set_insert_len;
use vstd::set::axiom_set_remove_finite;
use vstd::set::axiom_set_remove_len;
use vstd::set_lib::lemma_int_range;
use vstd::set_lib::lemma_len_subset;
use vstd::set_lib::set_int_range;

use crate::model::Player;

verus! {

/// The tie ranges of a standings list: entry `i` occupies positions
/// `ranks[i].0 ..= ranks[i].1`.
pub open spec fn ranks_of(standings: Seq<(Player, usize, usize)>) -> Seq<(usize, usize)> {
    Seq::new(standings.len(), |i: int| (standings[i].1, standings[i].2))
}

/// The range of entry `i` is well formed and lies inside the field.
pub open spec fn rank_range_ok(ranks: Seq<(usize, usize)>, i: int) -> bool {
    ranks[i].0 <= ranks[i].1 < ranks.len()
}

/// Two inclusive ranges share at least one position.
pub open spec fn ranges_overlap(a: (usize, usize), b: (usize, usize)) -> bool {
    a.0 <= b.1 && b.0 <= a.1
}

/// How many of the first `k` entries carry exactly the range `x`.
pub open spec fn count_range(ranks: Seq<(usize, usize)>, x: (usize, usize), k: int) -> int
    decreases k,
{
    if k <= 0 {
        0
    } else {
        count_range(ranks, x, k - 1) + if ranks[k - 1] == x {
            1int
        } else {
            0int
        }
    }
}

/// The ranges describe a valid ranking of a non-empty field: each lies
/// inside the field, overlapping ranges coincide, and each tie block is
/// occupied by exactly as many entries as it has positions. Together these
/// force the blocks to partition `0..n-1`: no two distinct blocks share a
/// position, and [`lemma_valid_standings_cover`] shows no position is left
/// out.
pub open spec fn valid_standings(ranks: Seq<(usize, usize)>) -> bool {
    &&& ranks.len() > 0
    &&& forall|i: int| 0 <= i < ranks.len() ==> rank_range_ok(ranks, i)
    &&& forall|i: int, j: int|
        0 <= i < ranks.len() && 0 <= j < ranks.len() && #[trigger] ranges_overlap(ranks[i], ranks[j])
            ==> ranks[i] == ranks[j]
    &&& forall|i: int|
        0 <= i < ranks.len()
            ==> #[trigger] count_range(ranks, ranks[i], ranks.len() as int) == ranks[i].1 - ranks[i].0
            + 1
}

/// Decides whether the standings' tie ranges form a valid ranking.
pub fn verify_standings(standings: &Vec<(Player, usize, usize)>) -> (ok: bool)
    ensures
        ok == valid_standings(ranks_of(standings@)),
{
    let ghost ranks = ranks_of(standings@);
    let n = standings.len();
    if n == 0 {
        return false;
    }
    let mut i: usize = 0;
    while i < n
        invariant
            n == standings@.len(),
            ranks == ranks_of(standings@),
            i <= n,
            forall|k: int| 0 <= k < i ==> rank_range_ok(ranks, k),
        decreases n - i,
    {
        let lo = standings[i].1;
        let hi = standings[i].2;
        if !(lo <= hi && hi < n) {
            assert(!rank_range_ok(ranks, i as int));
            return false;
        }
        assert(rank_range_ok(ranks, i as int));
        i = i + 1;
    }
    let mut i: usize = 0;
    while i < n
        invariant
            n == standings@.len(),
            ranks == ranks_of(standings@),
            i <= n,
            forall|k: int| 0 <= k < n ==> rank_range_ok(ranks, k),
            forall|k: int, j: int|
                0 <= k < i && 0 <= j < n && #[trigger] ranges_overlap(ranks[k], ranks[j])
                    ==> ranks[k] == ranks[j],
            forall|k: int|
                0 <= k < i ==> #[trigger] count_range(ranks, ranks[k], n as int) == ranks[k].1
                    - ranks[k].0 + 1,
        decreases n - i,
    {
        let lo = standings[i].1;
        let hi = standings[i].2;
        proof {
            assert(rank_range_ok(ranks, i as int));
            assert(ranks[i as int] == (lo, hi));
        }
        let mut count: usize = 0;
        let mut j: usize = 0;
        while j < n
            invariant
                n == standings@.len(),
                ranks == ranks_of(standings@),
                i < n,
                j <= n,
                count <= j,
                lo <= hi < n,
                (lo, hi) == ranks[i as int],
                count as int == count_range(ranks, ranks[i as int], j as int),
                forall|t: int|
                    0 <= t < j && #[trigger] ranges_overlap(ranks[i as int], ranks[t])
                        ==> ranks[i as int] == ranks[t],
            decreases n - j,
        {
            let jlo = standings[j].1;
            let jhi = standings[j].2;
            proof {
                assert(ranks[j as int] == (jlo, jhi));
            }
            if lo <= jhi && jlo <= hi {
                assert(ranges_overlap(ranks[i as int], ranks[j as int]));
                if !(jlo == lo && jhi == hi) {
                    assert(ranks[i as int] != ranks[j as int]);
                    return false;
                }
                assert(ranks[j as int] == ranks[i as int]);
                count = count + 1;
            } else {
                proof {
                    if ranks[j as int] == ranks[i as int] {
                        assert(ranges_overlap(ranks[i as int], ranks[j as int]));
                    }
                }
            }
            j = j + 1;
        }
        if !(count == hi - lo + 1) {
            assert(count_range(ranks, ranks[i as int], n as int) != ranks[i as int].1 - ranks[i as int].0
                + 1);
            return false;
        }
        i = i + 1;
    }
    true
}

/// Counting a longer prefix never counts fewer entries.
proof fn lemma_count_range_monotone(ranks: Seq<(usize, usize)>, x: (usize, usize), k1: int, k2: int)
    requires
        0 <= k1 <= k2,
    ensures
        count_range(ranks, x, k1) <= count_range(ranks, x, k2),
    decreases k2 - k1,
{
    if k1 < k2 {
        lemma_count_range_monotone(ranks, x, k1, k2 - 1);
    }
}

/// The set of values the first `k` elements of a sequence take.
spec fn seq_value_set(s: Seq<int>, k: int) -> Set<int> {
    Set::new(|v: int| exists|i: int| 0 <= i < k && s[i] == v)
}

/// A sequence without repeats takes exactly as many values as it has
/// elements.
proof fn lemma_distinct_values_card(s: Seq<int>, k: int)
    requires
        0 <= k <= s.len(),
        forall|i: int, j: int| 0 <= i < j < s.len() ==> s[i] != s[j],
    ensures
        seq_value_set(s, k).finite(),
        seq_value_set(s, k).len() == k,
    decreases k,
{
    if k == 0 {
        assert(seq_value_set(s, 0) =~= Set::empty());
    } else {
        lemma_distinct_values_card(s, k - 1);
        assert(seq_value_set(s, k) =~= seq_value_set(s, k - 1).insert(s[k - 1]));
        assert(!seq_value_set(s, k - 1).contains(s[k - 1]));
        axiom_set_insert_len(seq_value_set(s, k - 1), s[k - 1]);
    }
}

/// Valid tie ranges leave no gap: every position of `0..n-1` lies inside
/// some entry's range, so the tie blocks partition the whole field. Each
/// entry is assigned the position of its own block's start plus the number
/// of earlier entries of its block; these `n` positions are pairwise
/// distinct and each lies inside its entry's block, so a position inside no
/// block would leave only `n - 1` positions for `n` entries.
pub proof fn lemma_valid_standings_cover(ranks: Seq<(usize, usize)>, p: int)
    requires
        valid_standings(ranks),
        0 <= p < ranks.len(),
    ensures
        exists|i: int| 0 <= i < ranks.len() && (#[trigger] ranks[i]).0 <= p <= ranks[i].1,
{
    let n = ranks.len() as int;
    if !(exists|i: int| 0 <= i < n && (#[trigger] ranks[i]).0 <= p <= ranks[i].1) {
        let pi = Seq::new(n as nat, |i: int| ranks[i].0 as int + count_range(ranks, ranks[i], i));
        assert forall|i: int| #![trigger pi[i]] 0 <= i < n implies ranks[i].0 <= pi[i] <= ranks[i].1 by {
            assert(rank_range_ok(ranks, i));
            lemma_count_range_monotone(ranks, ranks[i], 0, i);
            assert(count_range(ranks, ranks[i], i + 1) == count_range(ranks, ranks[i], i) + 1);
            lemma_count_range_monotone(ranks, ranks[i], i + 1, n);
            assert(count_range(ranks, ranks[i], n) == ranks[i].1 - ranks[i].0 + 1);
        }
        assert forall|i: int, j: int| #![trigger pi[i], pi[j]] 0 <= i < j < n implies pi[i] != pi[j] by {
            if pi[i] == pi[j] {
                assert(ranges_overlap(ranks[i], ranks[j]));
                assert(ranks[i] == ranks[j]);
                assert(count_range(ranks, ranks[i], i + 1) == count_range(ranks, ranks[i], i) + 1);
                lemma_count_range_monotone(ranks, ranks[i], i + 1, j);
            }
        }
        lemma_distinct_values_card(pi, n);
        lemma_int_range(0, n);
        let target = set_int_range(0, n).remove(p);
        axiom_set_remove_finite(set_int_range(0, n), p);
        axiom_set_remove_len(set_int_range(0, n), p);
        assert forall|v: int| seq_value_set(pi, n).contains(v) implies target.contains(v) by {
            let i = choose|i: int| 0 <= i < n && pi[i] == v;
            assert(rank_range_ok(ranks, i));
            assert(ranks[i].0 <= v <= ranks[i].1);
            assert(v != p);
        }
        assert(seq_value_set(pi, n).subset_of(target));
        lemma_len_subset(seq_value_set(pi, n), target);
        assert(false);
    }
}

} // verus!
