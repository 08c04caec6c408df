//! The twelve zodiac animals (生肖).
use super::branch::Branch;
use vstd::prelude::*;

verus! {

/// The twelve zodiac animals.
#[derive(Debug, Clone, Copy, PartialEq, Eq, Hash, Structural)]
pub enum Zodiac {
    /// 鼠.
    Rat,
    /// 牛.
    Ox,
    /// 虎.
    Tiger,
    /// 兔.
    Rabbit,
    /// 龙.
    Dragon,
    /// 蛇.
    Snake,
    /// 马.
    Horse,
    /// 羊.
    Goat,
    /// 猴.
    Monkey,
    /// 鸡.
    Rooster,
    /// 狗.
    Dog,
    /// 猪.
    Pig,
}

impl Zodiac {
    /// Zodiac animal of a birth-year branch.
    pub open spec fn spec_from_branch(branch: Branch) -> Zodiac {
        match branch {
            Branch::Zi => Zodiac::Rat,
            Branch::Chou => Zodiac::Ox,
            Branch::Yin => Zodiac::Tiger,
            Branch::Mao => Zodiac::Rabbit,
            Branch::Chen => Zodiac::Dragon,
            Branch::Si => Zodiac::Snake,
            Branch::Wu => Zodiac::Horse,
            Branch::Wei => Zodiac::Goat,
            Branch::Shen => Zodiac::Monkey,
            Branch::You => Zodiac::Rooster,
            Branch::Xu => Zodiac::Dog,
            Branch::Hai => Zodiac::Pig,
        }
    }

    /// Zodiac animal of a birth-year branch: 子 → 鼠 … 亥 → 猪.
    pub fn from_branch(branch: Branch) -> (r: Zodiac)
        ensures
            r == Zodiac::spec_from_branch(branch),
    {
        match branch {
            Branch::Zi => Zodiac::Rat,
            Branch::Chou => Zodiac::Ox,
            Branch::Yin => Zodiac::Tiger,
            Branch::Mao => Zodiac::Rabbit,
            Branch::Chen => Zodiac::Dragon,
            Branch::Si => Zodiac::Snake,
            Branch::Wu => Zodiac::Horse,
            Branch::Wei => Zodiac::Goat,
            Branch::Shen => Zodiac::Monkey,
            Branch::You => Zodiac::Rooster,
            Branch::Xu => Zodiac::Dog,
            Branch::Hai => Zodiac::Pig,
        }
    }
}

} // verus!
