//! The twelve palace names (宫职) in their classical order from 命宫.
use vstd::prelude::*;

verus! {

/// Stable identity of one of the twelve palace names.
#[derive(Debug, Clone, Copy, PartialEq, Eq, Hash, Structural)]
pub enum PalaceName {
    /// 命宫.
    Ming,
    /// 兄弟.
    XiongDi,
    /// 夫妻.
    FuQi,
    /// 子女.
    ZiNv,
    /// 财帛.
    CaiBo,
    /// 疾厄.
    JiE,
    /// 迁移.
    QianYi,
    /// 交友.
    JiaoYou,
    /// 官禄.
    GuanLu,
    /// 田宅.
    TianZhai,
    /// 福德.
    FuDe,
    /// 父母.
    FuMu,
}

impl PalaceName {
    /// The twelve names in order 命, 兄, 夫, 子, 财, 疾, 迁, 友, 官, 田, 福, 父.
    pub const ALL: [PalaceName; 12] = [
        PalaceName::Ming,
        PalaceName::XiongDi,
        PalaceName::FuQi,
        PalaceName::ZiNv,
        PalaceName::CaiBo,
        PalaceName::JiE,
        PalaceName::QianYi,
        PalaceName::JiaoYou,
        PalaceName::GuanLu,
        PalaceName::TianZhai,
        PalaceName::FuDe,
        PalaceName::FuMu,
    ];

    /// Position of the name counted from 命宫 = 0.
    pub open spec fn idx(self) -> int {
        match self {
            PalaceName::Ming => 0,
            PalaceName::XiongDi => 1,
            PalaceName::FuQi => 2,
            PalaceName::ZiNv => 3,
            PalaceName::CaiBo => 4,
            PalaceName::JiE => 5,
            PalaceName::QianYi => 6,
            PalaceName::JiaoYou => 7,
            PalaceName::GuanLu => 8,
            PalaceName::TianZhai => 9,
            PalaceName::FuDe => 10,
            PalaceName::FuMu => 11,
        }
    }

    /// Name at position `i`, taken modulo twelve.
    pub open spec fn at(i: int) -> PalaceName {
        let k = i % 12;
        if k == 0 {
            PalaceName::Ming
        } else if k == 1 {
            PalaceName::XiongDi
        } else if k == 2 {
            PalaceName::FuQi
        } else if k == 3 {
            PalaceName::ZiNv
        } else if k == 4 {
            PalaceName::CaiBo
        } else if k == 5 {
            PalaceName::JiE
        } else if k == 6 {
            PalaceName::QianYi
        } else if k == 7 {
            PalaceName::JiaoYou
        } else if k == 8 {
            PalaceName::GuanLu
        } else if k == 9 {
            PalaceName::TianZhai
        } else if k == 10 {
            PalaceName::FuDe
        } else {
            PalaceName::FuMu
        }
    }

    /// Position of the name counted from 命宫 = 0.
    pub fn index(self) -> (r: usize)
        ensures
            r == self.idx(),
            r < 12,
    {
        match self {
            PalaceName::Ming => 0,
            PalaceName::XiongDi => 1,
            PalaceName::FuQi => 2,
            PalaceName::ZiNv => 3,
            PalaceName::CaiBo => 4,
            PalaceName::JiE => 5,
            PalaceName::QianYi => 6,
            PalaceName::JiaoYou => 7,
            PalaceName::GuanLu => 8,
            PalaceName::TianZhai => 9,
            PalaceName::FuDe => 10,
            PalaceName::FuMu => 11,
        }
    }

    /// Name at position `index`, taken modulo twelve.
    pub fn from_index(index: usize) -> (r: PalaceName)
        ensures
            r == PalaceName::at(index as int),
    {
        let k = index % 12;
        if k == 0 {
            PalaceName::Ming
        } else if k == 1 {
            PalaceName::XiongDi
        } else if k == 2 {
            PalaceName::FuQi
        } else if k == 3 {
            PalaceName::ZiNv
        } else if k == 4 {
            PalaceName::CaiBo
        } else if k == 5 {
            PalaceName::JiE
        } else if k == 6 {
            PalaceName::QianYi
        } else if k == 7 {
            PalaceName::JiaoYou
        } else if k == 8 {
            PalaceName::GuanLu
        } else if k == 9 {
            PalaceName::TianZhai
        } else if k == 10 {
            PalaceName::FuDe
        } else {
            PalaceName::FuMu
        }
    }
}

/// The position of a palace name determines it.
pub proof fn lemma_palace_name_index(a: PalaceName, b: PalaceName, i: int)
    ensures
        0 <= a.idx() < 12,
        PalaceName::at(a.idx()) == a,
        PalaceName::at(i).idx() == i % 12,
        a.idx() == b.idx() <==> a == b,
{
}


/// Display text of a palace duty: its natal name and its short period and year forms.
#[derive(Debug, Clone, Copy, PartialEq, Eq)]
pub struct PalaceRoleLabel {
    /// Natal name of the duty, such as 命宫 or 兄弟.
    pub name: &'static str,
    /// Short form used for a ten-year period, such as 大命.
    pub decade: &'static str,
    /// Short form used for a year, such as 流命.
    pub yearly: &'static str,
}

impl PalaceName {
    /// Simplified Chinese natal name, such as 命宫.
    pub open spec fn spec_natal_hans(self) -> Seq<char> {
        match self {
            PalaceName::Ming => "命宫"@,
            PalaceName::XiongDi => "兄弟"@,
            PalaceName::FuQi => "夫妻"@,
            PalaceName::ZiNv => "子女"@,
            PalaceName::CaiBo => "财帛"@,
            PalaceName::JiE => "疾厄"@,
            PalaceName::QianYi => "迁移"@,
            PalaceName::JiaoYou => "交友"@,
            PalaceName::GuanLu => "官禄"@,
            PalaceName::TianZhai => "田宅"@,
            PalaceName::FuDe => "福德"@,
            PalaceName::FuMu => "父母"@,
        }
    }

    /// Traditional Chinese natal name, such as 命宮.
    pub open spec fn spec_natal_hant(self) -> Seq<char> {
        match self {
            PalaceName::Ming => "命宮"@,
            PalaceName::XiongDi => "兄弟"@,
            PalaceName::FuQi => "夫妻"@,
            PalaceName::ZiNv => "子女"@,
            PalaceName::CaiBo => "財帛"@,
            PalaceName::JiE => "疾厄"@,
            PalaceName::QianYi => "遷移"@,
            PalaceName::JiaoYou => "交友"@,
            PalaceName::GuanLu => "官祿"@,
            PalaceName::TianZhai => "田宅"@,
            PalaceName::FuDe => "福德"@,
            PalaceName::FuMu => "父母"@,
        }
    }

    /// Simplified Chinese ten-year short name, such as 大命.
    pub open spec fn spec_decade_hans(self) -> Seq<char> {
        match self {
            PalaceName::Ming => "大命"@,
            PalaceName::XiongDi => "大兄"@,
            PalaceName::FuQi => "大夫"@,
            PalaceName::ZiNv => "大子"@,
            PalaceName::CaiBo => "大财"@,
            PalaceName::JiE => "大疾"@,
            PalaceName::QianYi => "大迁"@,
            PalaceName::JiaoYou => "大友"@,
            PalaceName::GuanLu => "大官"@,
            PalaceName::TianZhai => "大田"@,
            PalaceName::FuDe => "大福"@,
            PalaceName::FuMu => "大父"@,
        }
    }

    /// Traditional Chinese ten-year short name, such as 大財.
    pub open spec fn spec_decade_hant(self) -> Seq<char> {
        match self {
            PalaceName::Ming => "大命"@,
            PalaceName::XiongDi => "大兄"@,
            PalaceName::FuQi => "大夫"@,
            PalaceName::ZiNv => "大子"@,
            PalaceName::CaiBo => "大財"@,
            PalaceName::JiE => "大疾"@,
            PalaceName::QianYi => "大遷"@,
            PalaceName::JiaoYou => "大友"@,
            PalaceName::GuanLu => "大官"@,
            PalaceName::TianZhai => "大田"@,
            PalaceName::FuDe => "大福"@,
            PalaceName::FuMu => "大父"@,
        }
    }

    /// Simplified Chinese yearly short name, such as 流命.
    pub open spec fn spec_yearly_hans(self) -> Seq<char> {
        match self {
            PalaceName::Ming => "流命"@,
            PalaceName::XiongDi => "流兄"@,
            PalaceName::FuQi => "流夫"@,
            PalaceName::ZiNv => "流子"@,
            PalaceName::CaiBo => "流财"@,
            PalaceName::JiE => "流疾"@,
            PalaceName::QianYi => "流迁"@,
            PalaceName::JiaoYou => "流友"@,
            PalaceName::GuanLu => "流官"@,
            PalaceName::TianZhai => "流田"@,
            PalaceName::FuDe => "流福"@,
            PalaceName::FuMu => "流父"@,
        }
    }

    /// Traditional Chinese yearly short name, such as 流財.
    pub open spec fn spec_yearly_hant(self) -> Seq<char> {
        match self {
            PalaceName::Ming => "流命"@,
            PalaceName::XiongDi => "流兄"@,
            PalaceName::FuQi => "流夫"@,
            PalaceName::ZiNv => "流子"@,
            PalaceName::CaiBo => "流財"@,
            PalaceName::JiE => "流疾"@,
            PalaceName::QianYi => "流遷"@,
            PalaceName::JiaoYou => "流友"@,
            PalaceName::GuanLu => "流官"@,
            PalaceName::TianZhai => "流田"@,
            PalaceName::FuDe => "流福"@,
            PalaceName::FuMu => "流父"@,
        }
    }

    /// Simplified Chinese display text of the duty.
    pub fn simplified_chinese(self) -> (r: PalaceRoleLabel)
        ensures
            r.name@ == self.spec_natal_hans(),
            r.decade@ == self.spec_decade_hans(),
            r.yearly@ == self.spec_yearly_hans(),
    {
        match self {
            PalaceName::Ming => PalaceRoleLabel { name: "命宫", decade: "大命", yearly: "流命" },
            PalaceName::XiongDi => PalaceRoleLabel { name: "兄弟", decade: "大兄", yearly: "流兄" },
            PalaceName::FuQi => PalaceRoleLabel { name: "夫妻", decade: "大夫", yearly: "流夫" },
            PalaceName::ZiNv => PalaceRoleLabel { name: "子女", decade: "大子", yearly: "流子" },
            PalaceName::CaiBo => PalaceRoleLabel { name: "财帛", decade: "大财", yearly: "流财" },
            PalaceName::JiE => PalaceRoleLabel { name: "疾厄", decade: "大疾", yearly: "流疾" },
            PalaceName::QianYi => PalaceRoleLabel { name: "迁移", decade: "大迁", yearly: "流迁" },
            PalaceName::JiaoYou => PalaceRoleLabel { name: "交友", decade: "大友", yearly: "流友" },
            PalaceName::GuanLu => PalaceRoleLabel { name: "官禄", decade: "大官", yearly: "流官" },
            PalaceName::TianZhai => PalaceRoleLabel { name: "田宅", decade: "大田", yearly: "流田" },
            PalaceName::FuDe => PalaceRoleLabel { name: "福德", decade: "大福", yearly: "流福" },
            PalaceName::FuMu => PalaceRoleLabel { name: "父母", decade: "大父", yearly: "流父" },
        }
    }

    /// Traditional Chinese display text of the duty.
    pub fn traditional_chinese(self) -> (r: PalaceRoleLabel)
        ensures
            r.name@ == self.spec_natal_hant(),
            r.decade@ == self.spec_decade_hant(),
            r.yearly@ == self.spec_yearly_hant(),
    {
        match self {
            PalaceName::Ming => PalaceRoleLabel { name: "命宮", decade: "大命", yearly: "流命" },
            PalaceName::XiongDi => PalaceRoleLabel { name: "兄弟", decade: "大兄", yearly: "流兄" },
            PalaceName::FuQi => PalaceRoleLabel { name: "夫妻", decade: "大夫", yearly: "流夫" },
            PalaceName::ZiNv => PalaceRoleLabel { name: "子女", decade: "大子", yearly: "流子" },
            PalaceName::CaiBo => PalaceRoleLabel { name: "財帛", decade: "大財", yearly: "流財" },
            PalaceName::JiE => PalaceRoleLabel { name: "疾厄", decade: "大疾", yearly: "流疾" },
            PalaceName::QianYi => PalaceRoleLabel { name: "遷移", decade: "大遷", yearly: "流遷" },
            PalaceName::JiaoYou => PalaceRoleLabel { name: "交友", decade: "大友", yearly: "流友" },
            PalaceName::GuanLu => PalaceRoleLabel { name: "官祿", decade: "大官", yearly: "流官" },
            PalaceName::TianZhai => PalaceRoleLabel { name: "田宅", decade: "大田", yearly: "流田" },
            PalaceName::FuDe => PalaceRoleLabel { name: "福德", decade: "大福", yearly: "流福" },
            PalaceName::FuMu => PalaceRoleLabel { name: "父母", decade: "大父", yearly: "流父" },
        }
    }
}

} // verus!
