//! Ring positions of the twelve palaces and the two zero points.
//!
//! The public index counts from 子 = 0; the placement rules count on a ring that
//! starts at 寅 = 0 (寅环).  The conversions are
//! `yin0 = (index + 10) mod 12` and `index = (yin0 + 2) mod 12`.
use super::branch::Branch;
use vstd::arithmetic::div_mod::lemma_mod_multiples_vanish;
use vstd::prelude::*;

verus! {

/// Folds any offset back onto the twelve-palace ring (Euclidean remainder), so that
/// `-1 → 11` and `12 → 0`.
pub fn twelve_index(index: i32) -> (r: u8)
    ensures
        r == index as int % 12,
        r < 12,
{
    // 12 · 2^31 is a multiple of twelve that makes every i32 non-negative.
    let shifted: i64 = index as i64 + 25769803776i64;
    proof {
        lemma_mod_multiples_vanish(2147483648, index as int, 12);
    }
    ((shifted as u64) % 12) as u8
}

/// 子-based index → 寅-based ring position: 子 → 10 … 寅 → 0 … 亥 → 9.
pub fn branch_index_to_yin0(branch_index: u8) -> (r: u8)
    ensures
        r == (branch_index as int % 12 + 10) % 12,
        r < 12,
{
    (branch_index % 12 + 10) % 12
}

/// 寅-based ring position → 子-based index: 寅 → 2 … 子 → 0, 丑 → 1.
pub fn yin0_to_branch_index(yin0: u8) -> (r: u8)
    ensures
        r == (yin0 as int % 12 + 2) % 12,
        r < 12,
{
    (yin0 % 12 + 2) % 12
}

/// Branch at a position of the 寅-based ring.
pub open spec fn spec_branch_from_yin0(yin0: int) -> Branch {
    Branch::at(yin0 + 2)
}

/// Branch at a position of the 寅-based ring.
pub fn branch_from_yin0(yin0: u8) -> (r: Branch)
    ensures
        r == spec_branch_from_yin0(yin0 as int),
        r.yin0() == yin0 as int % 12,
{
    Branch::from_index(yin0_to_branch_index(yin0))
}

/// Going from a branch to its 寅-ring position and back returns the branch.
pub proof fn lemma_yin0_round_trip(b: Branch, y: int)
    ensures
        spec_branch_from_yin0(b.yin0()) == b,
        spec_branch_from_yin0(y).yin0() == y % 12,
        spec_branch_from_yin0(y) == spec_branch_from_yin0(y % 12),
{
}

} // verus!
