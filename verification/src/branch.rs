//! The twelve earthly branches (地支) and their ring order.
use vstd::prelude::*;

verus! {

/// One of the twelve earthly branches; the variant order is 子, 丑, 寅 … 亥.
#[derive(Debug, Clone, Copy, PartialEq, Eq, Structural)]
pub enum Branch {
    /// 子.
    Zi,
    /// 丑.
    Chou,
    /// 寅.
    Yin,
    /// 卯.
    Mao,
    /// 辰.
    Chen,
    /// 巳.
    Si,
    /// 午.
    Wu,
    /// 未.
    Wei,
    /// 申.
    Shen,
    /// 酉.
    You,
    /// 戌.
    Xu,
    /// 亥.
    Hai,
}

impl Branch {

    /// The Chinese character of the branch.
    pub open spec fn spec_chinese(self) -> Seq<char> {
        match self {
            Branch::Zi => "子"@,
            Branch::Chou => "丑"@,
            Branch::Yin => "寅"@,
            Branch::Mao => "卯"@,
            Branch::Chen => "辰"@,
            Branch::Si => "巳"@,
            Branch::Wu => "午"@,
            Branch::Wei => "未"@,
            Branch::Shen => "申"@,
            Branch::You => "酉"@,
            Branch::Xu => "戌"@,
            Branch::Hai => "亥"@,
        }
    }

    /// The Chinese character of the branch, such as 子.
    pub fn chinese(self) -> (r: &'static str)
        ensures
            r@ == self.spec_chinese(),
    {
        match self {
            Branch::Zi => "子",
            Branch::Chou => "丑",
            Branch::Yin => "寅",
            Branch::Mao => "卯",
            Branch::Chen => "辰",
            Branch::Si => "巳",
            Branch::Wu => "午",
            Branch::Wei => "未",
            Branch::Shen => "申",
            Branch::You => "酉",
            Branch::Xu => "戌",
            Branch::Hai => "亥",
        }
    }
    /// Position of the branch counted from 子 = 0 to 亥 = 11.
    pub open spec fn idx(self) -> int {
        match self {
            Branch::Zi => 0,
            Branch::Chou => 1,
            Branch::Yin => 2,
            Branch::Mao => 3,
            Branch::Chen => 4,
            Branch::Si => 5,
            Branch::Wu => 6,
            Branch::Wei => 7,
            Branch::Shen => 8,
            Branch::You => 9,
            Branch::Xu => 10,
            Branch::Hai => 11,
        }
    }


    /// Branch at position `i` of the ring, counted from 子 = 0 and taken modulo twelve.
    pub open spec fn at(i: int) -> Branch {
        let k = i % 12;
        if k == 0 {
            Branch::Zi
        } else if k == 1 {
            Branch::Chou
        } else if k == 2 {
            Branch::Yin
        } else if k == 3 {
            Branch::Mao
        } else if k == 4 {
            Branch::Chen
        } else if k == 5 {
            Branch::Si
        } else if k == 6 {
            Branch::Wu
        } else if k == 7 {
            Branch::Wei
        } else if k == 8 {
            Branch::Shen
        } else if k == 9 {
            Branch::You
        } else if k == 10 {
            Branch::Xu
        } else {
            Branch::Hai
        }
    }

    /// The branch six steps away on the ring (对宫): 子 ↔ 午, 丑 ↔ 未, …
    pub open spec fn spec_opposite(self) -> Branch {
        Branch::at(self.idx() + 6)
    }

    /// Position on the ring that starts at 寅 = 0 (寅环), used by the placement rules.
    pub open spec fn yin0(self) -> int {
        (self.idx() + 10) % 12
    }

    /// Public zero-based index, 子 = 0 … 亥 = 11.
    pub fn index(self) -> (r: usize)
        ensures
            r == self.idx(),
            r < 12,
    {
        match self {
            Branch::Zi => 0,
            Branch::Chou => 1,
            Branch::Yin => 2,
            Branch::Mao => 3,
            Branch::Chen => 4,
            Branch::Si => 5,
            Branch::Wu => 6,
            Branch::Wei => 7,
            Branch::Shen => 8,
            Branch::You => 9,
            Branch::Xu => 10,
            Branch::Hai => 11,
        }
    }

    /// Rebuilds a branch from a 子-based index; the index is first reduced modulo twelve.
    pub fn from_index(index: u8) -> (r: Branch)
        ensures
            r == Branch::at(index as int),
    {
        let k = index % 12;
        if k == 0 {
            Branch::Zi
        } else if k == 1 {
            Branch::Chou
        } else if k == 2 {
            Branch::Yin
        } else if k == 3 {
            Branch::Mao
        } else if k == 4 {
            Branch::Chen
        } else if k == 5 {
            Branch::Si
        } else if k == 6 {
            Branch::Wu
        } else if k == 7 {
            Branch::Wei
        } else if k == 8 {
            Branch::Shen
        } else if k == 9 {
            Branch::You
        } else if k == 10 {
            Branch::Xu
        } else {
            Branch::Hai
        }
    }

    /// The opposite branch (对宫), six steps away.
    pub fn opposite(self) -> (r: Branch)
        ensures
            r == self.spec_opposite(),
    {
        Branch::from_index((self.index() + 6) as u8)
    }

    /// The twelve branches in 子-based order.
    pub fn all() -> (r: [Branch; 12])
        ensures
            forall|i: int| 0 <= i < 12 ==> #[trigger] r@[i] == Branch::at(i),
    {
        let r = [
            Branch::Zi,
            Branch::Chou,
            Branch::Yin,
            Branch::Mao,
            Branch::Chen,
            Branch::Si,
            Branch::Wu,
            Branch::Wei,
            Branch::Shen,
            Branch::You,
            Branch::Xu,
            Branch::Hai,
        ];
        r
    }

    /// Position of this branch on the 寅-based ring: 寅 = 0 … 丑 = 11.
    pub fn index_from_yin(self) -> (r: u8)
        ensures
            r == self.yin0(),
    {
        ((self.index() + 10) % 12) as u8
    }
}

/// The index of a branch determines it, and every ring position holds exactly one branch.
pub proof fn lemma_branch_index(b: Branch, i: int)
    ensures
        0 <= b.idx() < 12,
        Branch::at(b.idx()) == b,
        Branch::at(i).idx() == i % 12,
        Branch::at(i) == Branch::at(i % 12),
{
}

/// Two branches with the same index are the same branch.
pub proof fn lemma_branch_index_injective(a: Branch, b: Branch)
    ensures
        a.idx() == b.idx() <==> a == b,
{
}

/// Taking the opposite branch twice returns the branch itself.
pub proof fn lemma_opposite_involution(b: Branch)
    ensures
        b.spec_opposite().spec_opposite() == b,
        b.spec_opposite() != b,
{
}

} // verus!
