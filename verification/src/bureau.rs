//! The five-element bureau (五行局) of a chart.
use super::branch::Branch;
use super::stem::Stem;
use vstd::prelude::*;

verus! {

/// The five-element bureau; its number is 2 to 6.
#[derive(Debug, Clone, Copy, PartialEq, Eq, Hash, Structural)]
pub enum FiveElementBureau {
    /// 水二局 (number 2).
    WaterTwo,
    /// 木三局 (number 3).
    WoodThree,
    /// 金四局 (number 4).
    MetalFour,
    /// 土五局 (number 5).
    EarthFive,
    /// 火六局 (number 6).
    FireSix,
}

/// Bureau of the 纳音 table for a stem group (甲乙 = 0 … 壬癸 = 4) and a
/// branch group (子丑 = 0 … 戌亥 = 5).
pub open spec fn spec_bureau_table(stem_group: int, branch_group: int) -> FiveElementBureau {
    if stem_group == 0 && branch_group == 0 {
        FiveElementBureau::MetalFour
    } else if stem_group == 0 && branch_group == 1 {
        FiveElementBureau::WaterTwo
    } else if stem_group == 0 && branch_group == 2 {
        FiveElementBureau::FireSix
    } else if stem_group == 0 && branch_group == 3 {
        FiveElementBureau::MetalFour
    } else if stem_group == 0 && branch_group == 4 {
        FiveElementBureau::WaterTwo
    } else if stem_group == 0 && branch_group == 5 {
        FiveElementBureau::FireSix
    } else if stem_group == 1 && branch_group == 0 {
        FiveElementBureau::WaterTwo
    } else if stem_group == 1 && branch_group == 1 {
        FiveElementBureau::FireSix
    } else if stem_group == 1 && branch_group == 2 {
        FiveElementBureau::EarthFive
    } else if stem_group == 1 && branch_group == 3 {
        FiveElementBureau::WaterTwo
    } else if stem_group == 1 && branch_group == 4 {
        FiveElementBureau::FireSix
    } else if stem_group == 1 && branch_group == 5 {
        FiveElementBureau::EarthFive
    } else if stem_group == 2 && branch_group == 0 {
        FiveElementBureau::FireSix
    } else if stem_group == 2 && branch_group == 1 {
        FiveElementBureau::EarthFive
    } else if stem_group == 2 && branch_group == 2 {
        FiveElementBureau::WoodThree
    } else if stem_group == 2 && branch_group == 3 {
        FiveElementBureau::FireSix
    } else if stem_group == 2 && branch_group == 4 {
        FiveElementBureau::EarthFive
    } else if stem_group == 2 && branch_group == 5 {
        FiveElementBureau::WoodThree
    } else if stem_group == 3 && branch_group == 0 {
        FiveElementBureau::EarthFive
    } else if stem_group == 3 && branch_group == 1 {
        FiveElementBureau::WoodThree
    } else if stem_group == 3 && branch_group == 2 {
        FiveElementBureau::MetalFour
    } else if stem_group == 3 && branch_group == 3 {
        FiveElementBureau::EarthFive
    } else if stem_group == 3 && branch_group == 4 {
        FiveElementBureau::WoodThree
    } else if stem_group == 3 && branch_group == 5 {
        FiveElementBureau::MetalFour
    } else if stem_group == 4 && branch_group == 0 {
        FiveElementBureau::WoodThree
    } else if stem_group == 4 && branch_group == 1 {
        FiveElementBureau::MetalFour
    } else if stem_group == 4 && branch_group == 2 {
        FiveElementBureau::WaterTwo
    } else if stem_group == 4 && branch_group == 3 {
        FiveElementBureau::WoodThree
    } else if stem_group == 4 && branch_group == 4 {
        FiveElementBureau::MetalFour
    } else if stem_group == 4 && branch_group == 5 {
        FiveElementBureau::WaterTwo
    } else {
        FiveElementBureau::WaterTwo
    }
}

/// Stems in pairs: 甲乙 = 0 … 壬癸 = 4.
fn stem_group_index(stem: Stem) -> (r: usize)
    ensures
        r == stem.idx() / 2,
{
    match stem {
        Stem::Jia | Stem::Yi => 0,
        Stem::Bing | Stem::Ding => 1,
        Stem::Wu | Stem::Ji => 2,
        Stem::Geng | Stem::Xin => 3,
        Stem::Ren | Stem::Gui => 4,
    }
}

/// Branches in pairs: 子丑 = 0 … 戌亥 = 5.
fn branch_group_index(branch: Branch) -> (r: usize)
    ensures
        r == branch.idx() / 2,
{
    match branch {
        Branch::Zi | Branch::Chou => 0,
        Branch::Yin | Branch::Mao => 1,
        Branch::Chen | Branch::Si => 2,
        Branch::Wu | Branch::Wei => 3,
        Branch::Shen | Branch::You => 4,
        Branch::Xu | Branch::Hai => 5,
    }
}

impl FiveElementBureau {
    /// Number of the bureau.
    pub open spec fn spec_number(self) -> int {
        match self {
            FiveElementBureau::WaterTwo => 2,
            FiveElementBureau::WoodThree => 3,
            FiveElementBureau::MetalFour => 4,
            FiveElementBureau::EarthFive => 5,
            FiveElementBureau::FireSix => 6,
        }
    }

    /// Bureau of a palace with the given stem and branch (纳音局), looked up by the
    /// stem pair and the branch pair.
    pub open spec fn spec_from_ming_palace(stem: Stem, branch: Branch) -> FiveElementBureau {
        spec_bureau_table(stem.idx() / 2, branch.idx() / 2)
    }

    /// Bureau of the 命宫 from its stem and branch, by the 5 × 6 纳音 table.
    pub fn from_ming_palace(stem: Stem, branch: Branch) -> (r: FiveElementBureau)
        ensures
            r == FiveElementBureau::spec_from_ming_palace(stem, branch),
    {
        let stem_group = stem_group_index(stem);
        let branch_group = branch_group_index(branch);
        if stem_group == 0 && branch_group == 0 {
            FiveElementBureau::MetalFour
        } else if stem_group == 0 && branch_group == 1 {
            FiveElementBureau::WaterTwo
        } else if stem_group == 0 && branch_group == 2 {
            FiveElementBureau::FireSix
        } else if stem_group == 0 && branch_group == 3 {
            FiveElementBureau::MetalFour
        } else if stem_group == 0 && branch_group == 4 {
            FiveElementBureau::WaterTwo
        } else if stem_group == 0 && branch_group == 5 {
            FiveElementBureau::FireSix
        } else if stem_group == 1 && branch_group == 0 {
            FiveElementBureau::WaterTwo
        } else if stem_group == 1 && branch_group == 1 {
            FiveElementBureau::FireSix
        } else if stem_group == 1 && branch_group == 2 {
            FiveElementBureau::EarthFive
        } else if stem_group == 1 && branch_group == 3 {
            FiveElementBureau::WaterTwo
        } else if stem_group == 1 && branch_group == 4 {
            FiveElementBureau::FireSix
        } else if stem_group == 1 && branch_group == 5 {
            FiveElementBureau::EarthFive
        } else if stem_group == 2 && branch_group == 0 {
            FiveElementBureau::FireSix
        } else if stem_group == 2 && branch_group == 1 {
            FiveElementBureau::EarthFive
        } else if stem_group == 2 && branch_group == 2 {
            FiveElementBureau::WoodThree
        } else if stem_group == 2 && branch_group == 3 {
            FiveElementBureau::FireSix
        } else if stem_group == 2 && branch_group == 4 {
            FiveElementBureau::EarthFive
        } else if stem_group == 2 && branch_group == 5 {
            FiveElementBureau::WoodThree
        } else if stem_group == 3 && branch_group == 0 {
            FiveElementBureau::EarthFive
        } else if stem_group == 3 && branch_group == 1 {
            FiveElementBureau::WoodThree
        } else if stem_group == 3 && branch_group == 2 {
            FiveElementBureau::MetalFour
        } else if stem_group == 3 && branch_group == 3 {
            FiveElementBureau::EarthFive
        } else if stem_group == 3 && branch_group == 4 {
            FiveElementBureau::WoodThree
        } else if stem_group == 3 && branch_group == 5 {
            FiveElementBureau::MetalFour
        } else if stem_group == 4 && branch_group == 0 {
            FiveElementBureau::WoodThree
        } else if stem_group == 4 && branch_group == 1 {
            FiveElementBureau::MetalFour
        } else if stem_group == 4 && branch_group == 2 {
            FiveElementBureau::WaterTwo
        } else if stem_group == 4 && branch_group == 3 {
            FiveElementBureau::WoodThree
        } else if stem_group == 4 && branch_group == 4 {
            FiveElementBureau::MetalFour
        } else if stem_group == 4 && branch_group == 5 {
            FiveElementBureau::WaterTwo
        } else {
            FiveElementBureau::WaterTwo
        }
    }

    /// Number of the bureau: 2, 3, 4, 5 or 6.
    pub fn number(self) -> (r: u8)
        ensures
            r == self.spec_number(),
            2 <= r <= 6,
    {
        match self {
            FiveElementBureau::WaterTwo => 2,
            FiveElementBureau::WoodThree => 3,
            FiveElementBureau::MetalFour => 4,
            FiveElementBureau::EarthFive => 5,
            FiveElementBureau::FireSix => 6,
        }
    }
}

} // verus!
