//! Counting the stars that stand at a branch, given the branch of every star in
//! catalogue order.
use super::branch::{lemma_branch_index, Branch};
use super::chart::ziwei::spec_stars_at;
use vstd::prelude::*;

verus! {

/// Number of positions `k` in `lo..hi` with `star_branches[k] == b`.
pub open spec fn spec_count_at(star_branches: Seq<Branch>, b: Branch, lo: int, hi: int) -> int
    decreases hi - lo,
{
    if hi <= lo {
        0
    } else {
        spec_count_at(star_branches, b, lo, hi - 1) + if star_branches[hi - 1] == b { 1int } else { 0int }
    }
}

/// Stars among the first `n` counted over the branches `Branch::at(0)` to
/// `Branch::at(m - 1)`.
pub open spec fn spec_count_over_ring(star_branches: Seq<Branch>, n: int, m: int) -> int
    decreases m,
{
    if m <= 0 {
        0
    } else {
        spec_count_over_ring(star_branches, n, m - 1) + spec_count_at(star_branches, Branch::at(m - 1), 0, n)
    }
}

/// Lengths of the star lists of the branches `Branch::at(0)` to `Branch::at(m - 1)`,
/// taken over the whole catalogue, added up.
pub open spec fn spec_listed_over_ring(star_branches: Seq<Branch>, m: int) -> int
    decreases m,
{
    if m <= 0 {
        0
    } else {
        spec_listed_over_ring(star_branches, m - 1) + spec_stars_at(star_branches, Branch::at(m - 1), 18).len()
    }
}

/// Number of ring positions `0..m` that hold branch `x`.
spec fn hits(x: Branch, m: int) -> int
    decreases m,
{
    if m <= 0 {
        0
    } else {
        hits(x, m - 1) + if Branch::at(m - 1) == x { 1int } else { 0int }
    }
}

/// The list of stars at a branch is as long as the count of stars there.
pub proof fn lemma_stars_at_len(star_branches: Seq<Branch>, b: Branch, n: int)
    requires
        0 <= n,
    ensures
        spec_stars_at(star_branches, b, n).len() == spec_count_at(star_branches, b, 0, n),
    decreases n,
{
    if n > 0 {
        lemma_stars_at_len(star_branches, b, n - 1);
    }
}

/// A count over `lo..hi` is the count over `lo..mid` plus the count over `mid..hi`.
pub proof fn lemma_count_split(star_branches: Seq<Branch>, b: Branch, lo: int, mid: int, hi: int)
    requires
        lo <= mid <= hi,
    ensures
        spec_count_at(star_branches, b, lo, hi) == spec_count_at(star_branches, b, lo, mid) + spec_count_at(star_branches, b, mid, hi),
    decreases hi - mid,
{
    if hi > mid {
        lemma_count_split(star_branches, b, lo, mid, hi - 1);
    }
}

/// A count over `lo..hi` is at most the number of positions.
pub proof fn lemma_count_bound(star_branches: Seq<Branch>, b: Branch, lo: int, hi: int)
    requires
        lo <= hi,
    ensures
        0 <= spec_count_at(star_branches, b, lo, hi) <= hi - lo,
    decreases hi - lo,
{
    if hi > lo {
        lemma_count_bound(star_branches, b, lo, hi - 1);
    }
}

/// A positive count has a witness.
proof fn lemma_count_witness(star_branches: Seq<Branch>, b: Branch, lo: int, hi: int)
    requires
        spec_count_at(star_branches, b, lo, hi) > 0,
    ensures
        exists|k: int| lo <= k < hi && star_branches[k] == b,
    decreases hi - lo,
{
    if hi > lo && star_branches[hi - 1] != b {
        lemma_count_witness(star_branches, b, lo, hi - 1);
    }
}

/// Positions with pairwise different branches hold each branch at most once.
pub proof fn lemma_count_distinct(star_branches: Seq<Branch>, b: Branch, lo: int, hi: int)
    requires
        lo <= hi,
        forall|i: int, j: int| lo <= i < j < hi ==> star_branches[i] != star_branches[j],
    ensures
        spec_count_at(star_branches, b, lo, hi) <= 1,
    decreases hi - lo,
{
    if hi > lo {
        lemma_count_distinct(star_branches, b, lo, hi - 1);
        if star_branches[hi - 1] == b && spec_count_at(star_branches, b, lo, hi - 1) > 0 {
            lemma_count_witness(star_branches, b, lo, hi - 1);
            let k = choose|k: int| lo <= k < hi - 1 && star_branches[k] == b;
            assert(star_branches[k] == star_branches[hi - 1]);
        }
    }
}

/// Each branch stands at exactly one of the twelve ring positions.
proof fn lemma_hits(x: Branch, m: int)
    requires
        0 <= m <= 12,
    ensures
        hits(x, m) == if x.idx() < m { 1int } else { 0int },
    decreases m,
{
    lemma_branch_index(x, 0);
    if m > 0 {
        lemma_hits(x, m - 1);
        lemma_branch_index(Branch::at(m - 1), m - 1);
        crate::branch::lemma_branch_index_injective(Branch::at(m - 1), x);
    }
}

/// Adding star `n - 1` to the count over the first `m` ring positions adds one exactly
/// when its branch is among them.
proof fn lemma_count_over_ring_step(star_branches: Seq<Branch>, n: int, m: int)
    requires
        n > 0,
        0 <= m,
    ensures
        spec_count_over_ring(star_branches, n, m) == spec_count_over_ring(star_branches, n - 1, m) + hits(star_branches[n - 1], m),
    decreases m,
{
    if m > 0 {
        lemma_count_over_ring_step(star_branches, n, m - 1);
    }
}

/// Counted over the whole ring, the first `n` stars number `n`.
pub proof fn lemma_count_over_ring(star_branches: Seq<Branch>, n: int)
    requires
        0 <= n,
    ensures
        spec_count_over_ring(star_branches, n, 12) == n,
    decreases n,
{
    if n == 0 {
        lemma_count_over_ring_zero(star_branches, 12);
    } else {
        lemma_count_over_ring(star_branches, n - 1);
        lemma_count_over_ring_step(star_branches, n, 12);
        lemma_hits(star_branches[n - 1], 12);
        lemma_branch_index(star_branches[n - 1], 0);
    }
}

/// The star lists over the ring add up to the counts over the ring.
pub proof fn lemma_listed_over_ring(star_branches: Seq<Branch>, m: int)
    requires
        0 <= m,
    ensures
        spec_listed_over_ring(star_branches, m) == spec_count_over_ring(star_branches, 18, m),
    decreases m,
{
    if m > 0 {
        lemma_listed_over_ring(star_branches, m - 1);
        lemma_stars_at_len(star_branches, Branch::at(m - 1), 18);
    }
}

/// No star, no count.
proof fn lemma_count_over_ring_zero(star_branches: Seq<Branch>, m: int)
    requires
        0 <= m,
    ensures
        spec_count_over_ring(star_branches, 0, m) == 0,
    decreases m,
{
    if m > 0 {
        lemma_count_over_ring_zero(star_branches, m - 1);
    }
}

} // verus!
