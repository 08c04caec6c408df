//! The eighteen stars of the first catalogue and the star facts of a placed chart.
use super::transformation::Transformation;
use vstd::prelude::*;

verus! {

/// Stable identity of one of the eighteen supported stars.
///
/// The variant order is the catalogue order used for placement arrays and for the
/// order of stars inside a palace.
#[derive(Debug, Clone, Copy, PartialEq, Eq, Hash, Structural)]
pub enum StarName {
    /// 紫微.
    ZiWei,
    /// 天机.
    TianJi,
    /// 太阳.
    TaiYang,
    /// 武曲.
    WuQu,
    /// 天同.
    TianTong,
    /// 廉贞.
    LianZhen,
    /// 天府.
    TianFu,
    /// 太阴.
    TaiYin,
    /// 贪狼.
    TanLang,
    /// 巨门.
    JuMen,
    /// 天相.
    TianXiang,
    /// 天梁.
    TianLiang,
    /// 七杀.
    QiSha,
    /// 破军.
    PoJun,
    /// 左辅.
    ZuoFu,
    /// 右弼.
    YouBi,
    /// 文昌.
    WenChang,
    /// 文曲.
    WenQu,
}

/// Category of a star.
#[derive(Debug, Clone, Copy, PartialEq, Eq, Hash, Structural)]
pub enum StarCategory {
    /// One of the fourteen major stars.
    Major,
    /// One of the four minor stars 左辅, 右弼, 文昌, 文曲.
    Minor,
    /// Any other auxiliary star; the first catalogue has none.
    Auxiliary,
}

/// Star group (斗系).
#[derive(Debug, Clone, Copy, PartialEq, Eq, Hash, Structural)]
pub enum StarGalaxy {
    /// 南斗.
    South,
    /// 北斗.
    North,
    /// 中斗.
    Central,
}

/// Display text of a star: full name and one-character abbreviation.
#[derive(Debug, Clone, Copy, PartialEq, Eq)]
pub struct StarLabel {
    /// Full name of the star.
    pub name: &'static str,
    /// One-character abbreviation.
    pub abbreviation: &'static str,
}

impl StarName {
    /// The eighteen stars in catalogue order.
    pub const ALL: [StarName; 18] = [
        StarName::ZiWei,
        StarName::TianJi,
        StarName::TaiYang,
        StarName::WuQu,
        StarName::TianTong,
        StarName::LianZhen,
        StarName::TianFu,
        StarName::TaiYin,
        StarName::TanLang,
        StarName::JuMen,
        StarName::TianXiang,
        StarName::TianLiang,
        StarName::QiSha,
        StarName::PoJun,
        StarName::ZuoFu,
        StarName::YouBi,
        StarName::WenChang,
        StarName::WenQu,
    ];

    /// Catalogue position, aligned with [`StarName::ALL`].
    pub open spec fn idx(self) -> int {
        match self {
            StarName::ZiWei => 0,
            StarName::TianJi => 1,
            StarName::TaiYang => 2,
            StarName::WuQu => 3,
            StarName::TianTong => 4,
            StarName::LianZhen => 5,
            StarName::TianFu => 6,
            StarName::TaiYin => 7,
            StarName::TanLang => 8,
            StarName::JuMen => 9,
            StarName::TianXiang => 10,
            StarName::TianLiang => 11,
            StarName::QiSha => 12,
            StarName::PoJun => 13,
            StarName::ZuoFu => 14,
            StarName::YouBi => 15,
            StarName::WenChang => 16,
            StarName::WenQu => 17,
        }
    }

    /// Star at catalogue position `i` (0 ≤ i < 18).
    pub open spec fn at(i: int) -> StarName {
        if i == 0 {
            StarName::ZiWei
        } else if i == 1 {
            StarName::TianJi
        } else if i == 2 {
            StarName::TaiYang
        } else if i == 3 {
            StarName::WuQu
        } else if i == 4 {
            StarName::TianTong
        } else if i == 5 {
            StarName::LianZhen
        } else if i == 6 {
            StarName::TianFu
        } else if i == 7 {
            StarName::TaiYin
        } else if i == 8 {
            StarName::TanLang
        } else if i == 9 {
            StarName::JuMen
        } else if i == 10 {
            StarName::TianXiang
        } else if i == 11 {
            StarName::TianLiang
        } else if i == 12 {
            StarName::QiSha
        } else if i == 13 {
            StarName::PoJun
        } else if i == 14 {
            StarName::ZuoFu
        } else if i == 15 {
            StarName::YouBi
        } else if i == 16 {
            StarName::WenChang
        } else {
            StarName::WenQu
        }
    }

    /// Catalogue position, aligned with [`StarName::ALL`].
    pub fn index(self) -> (r: usize)
        ensures
            r == self.idx(),
            r < 18,
    {
        match self {
            StarName::ZiWei => 0,
            StarName::TianJi => 1,
            StarName::TaiYang => 2,
            StarName::WuQu => 3,
            StarName::TianTong => 4,
            StarName::LianZhen => 5,
            StarName::TianFu => 6,
            StarName::TaiYin => 7,
            StarName::TanLang => 8,
            StarName::JuMen => 9,
            StarName::TianXiang => 10,
            StarName::TianLiang => 11,
            StarName::QiSha => 12,
            StarName::PoJun => 13,
            StarName::ZuoFu => 14,
            StarName::YouBi => 15,
            StarName::WenChang => 16,
            StarName::WenQu => 17,
        }
    }

    /// The eighteen stars in catalogue order, as an array value.
    pub fn all() -> (r: [StarName; 18])
        ensures
            forall|i: int| 0 <= i < 18 ==> #[trigger] r@[i] == StarName::at(i),
    {
        [
            StarName::ZiWei,
            StarName::TianJi,
            StarName::TaiYang,
            StarName::WuQu,
            StarName::TianTong,
            StarName::LianZhen,
            StarName::TianFu,
            StarName::TaiYin,
            StarName::TanLang,
            StarName::JuMen,
            StarName::TianXiang,
            StarName::TianLiang,
            StarName::QiSha,
            StarName::PoJun,
            StarName::ZuoFu,
            StarName::YouBi,
            StarName::WenChang,
            StarName::WenQu,
        ]
    }

    /// Simplified Chinese display text of the star.
    pub fn simplified_chinese(self) -> (r: StarLabel)
        ensures
            r.name@ == match self {
                StarName::ZiWei => "紫微"@,
                StarName::TianJi => "天机"@,
                StarName::TaiYang => "太阳"@,
                StarName::WuQu => "武曲"@,
                StarName::TianTong => "天同"@,
                StarName::LianZhen => "廉贞"@,
                StarName::TianFu => "天府"@,
                StarName::TaiYin => "太阴"@,
                StarName::TanLang => "贪狼"@,
                StarName::JuMen => "巨门"@,
                StarName::TianXiang => "天相"@,
                StarName::TianLiang => "天梁"@,
                StarName::QiSha => "七杀"@,
                StarName::PoJun => "破军"@,
                StarName::ZuoFu => "左辅"@,
                StarName::YouBi => "右弼"@,
                StarName::WenChang => "文昌"@,
                StarName::WenQu => "文曲"@,
            },
            r.abbreviation@ == match self {
                StarName::ZiWei => "紫"@,
                StarName::TianJi => "机"@,
                StarName::TaiYang => "阳"@,
                StarName::WuQu => "武"@,
                StarName::TianTong => "同"@,
                StarName::LianZhen => "廉"@,
                StarName::TianFu => "府"@,
                StarName::TaiYin => "阴"@,
                StarName::TanLang => "贪"@,
                StarName::JuMen => "巨"@,
                StarName::TianXiang => "相"@,
                StarName::TianLiang => "梁"@,
                StarName::QiSha => "杀"@,
                StarName::PoJun => "破"@,
                StarName::ZuoFu => "左"@,
                StarName::YouBi => "右"@,
                StarName::WenChang => "昌"@,
                StarName::WenQu => "曲"@,
            },
    {
        match self {
            StarName::ZiWei => StarLabel { name: "紫微", abbreviation: "紫" },
            StarName::TianJi => StarLabel { name: "天机", abbreviation: "机" },
            StarName::TaiYang => StarLabel { name: "太阳", abbreviation: "阳" },
            StarName::WuQu => StarLabel { name: "武曲", abbreviation: "武" },
            StarName::TianTong => StarLabel { name: "天同", abbreviation: "同" },
            StarName::LianZhen => StarLabel { name: "廉贞", abbreviation: "廉" },
            StarName::TianFu => StarLabel { name: "天府", abbreviation: "府" },
            StarName::TaiYin => StarLabel { name: "太阴", abbreviation: "阴" },
            StarName::TanLang => StarLabel { name: "贪狼", abbreviation: "贪" },
            StarName::JuMen => StarLabel { name: "巨门", abbreviation: "巨" },
            StarName::TianXiang => StarLabel { name: "天相", abbreviation: "相" },
            StarName::TianLiang => StarLabel { name: "天梁", abbreviation: "梁" },
            StarName::QiSha => StarLabel { name: "七杀", abbreviation: "杀" },
            StarName::PoJun => StarLabel { name: "破军", abbreviation: "破" },
            StarName::ZuoFu => StarLabel { name: "左辅", abbreviation: "左" },
            StarName::YouBi => StarLabel { name: "右弼", abbreviation: "右" },
            StarName::WenChang => StarLabel { name: "文昌", abbreviation: "昌" },
            StarName::WenQu => StarLabel { name: "文曲", abbreviation: "曲" },
        }
    }

    /// Traditional Chinese display text of the star.
    pub fn traditional_chinese(self) -> (r: StarLabel)
        ensures
            r.name@ == match self {
                StarName::ZiWei => "紫微"@,
                StarName::TianJi => "天機"@,
                StarName::TaiYang => "太陽"@,
                StarName::WuQu => "武曲"@,
                StarName::TianTong => "天同"@,
                StarName::LianZhen => "廉貞"@,
                StarName::TianFu => "天府"@,
                StarName::TaiYin => "太陰"@,
                StarName::TanLang => "貪狼"@,
                StarName::JuMen => "巨門"@,
                StarName::TianXiang => "天相"@,
                StarName::TianLiang => "天梁"@,
                StarName::QiSha => "七殺"@,
                StarName::PoJun => "破軍"@,
                StarName::ZuoFu => "左輔"@,
                StarName::YouBi => "右弼"@,
                StarName::WenChang => "文昌"@,
                StarName::WenQu => "文曲"@,
            },
            r.abbreviation@ == match self {
                StarName::ZiWei => "紫"@,
                StarName::TianJi => "機"@,
                StarName::TaiYang => "陽"@,
                StarName::WuQu => "武"@,
                StarName::TianTong => "同"@,
                StarName::LianZhen => "廉"@,
                StarName::TianFu => "府"@,
                StarName::TaiYin => "陰"@,
                StarName::TanLang => "貪"@,
                StarName::JuMen => "巨"@,
                StarName::TianXiang => "相"@,
                StarName::TianLiang => "梁"@,
                StarName::QiSha => "殺"@,
                StarName::PoJun => "破"@,
                StarName::ZuoFu => "左"@,
                StarName::YouBi => "右"@,
                StarName::WenChang => "昌"@,
                StarName::WenQu => "曲"@,
            },
    {
        match self {
            StarName::ZiWei => StarLabel { name: "紫微", abbreviation: "紫" },
            StarName::TianJi => StarLabel { name: "天機", abbreviation: "機" },
            StarName::TaiYang => StarLabel { name: "太陽", abbreviation: "陽" },
            StarName::WuQu => StarLabel { name: "武曲", abbreviation: "武" },
            StarName::TianTong => StarLabel { name: "天同", abbreviation: "同" },
            StarName::LianZhen => StarLabel { name: "廉貞", abbreviation: "廉" },
            StarName::TianFu => StarLabel { name: "天府", abbreviation: "府" },
            StarName::TaiYin => StarLabel { name: "太陰", abbreviation: "陰" },
            StarName::TanLang => StarLabel { name: "貪狼", abbreviation: "貪" },
            StarName::JuMen => StarLabel { name: "巨門", abbreviation: "巨" },
            StarName::TianXiang => StarLabel { name: "天相", abbreviation: "相" },
            StarName::TianLiang => StarLabel { name: "天梁", abbreviation: "梁" },
            StarName::QiSha => StarLabel { name: "七殺", abbreviation: "殺" },
            StarName::PoJun => StarLabel { name: "破軍", abbreviation: "破" },
            StarName::ZuoFu => StarLabel { name: "左輔", abbreviation: "左" },
            StarName::YouBi => StarLabel { name: "右弼", abbreviation: "右" },
            StarName::WenChang => StarLabel { name: "文昌", abbreviation: "昌" },
            StarName::WenQu => StarLabel { name: "文曲", abbreviation: "曲" },
        }
    }
}

/// The catalogue position identifies the star.
pub proof fn lemma_star_index(s: StarName, t: StarName)
    ensures
        0 <= s.idx() < 18,
        StarName::at(s.idx()) == s,
        s.idx() == t.idx() <==> s == t,
{
}

/// Category that a star has in the first catalogue.
pub open spec fn spec_star_category(name: StarName) -> StarCategory {
    match name {
        StarName::ZuoFu | StarName::YouBi | StarName::WenChang | StarName::WenQu => StarCategory::Minor,
        _ => StarCategory::Major,
    }
}

/// Star group (斗系) of a star; 天府, 天相 and 七杀 have none.
pub open spec fn spec_star_galaxy(name: StarName) -> Option<StarGalaxy> {
    match name {
        StarName::ZiWei | StarName::ZuoFu | StarName::YouBi | StarName::WenChang | StarName::WenQu => Some(StarGalaxy::Central),
        StarName::TianJi | StarName::TaiYang | StarName::WuQu | StarName::TianTong | StarName::LianZhen => Some(StarGalaxy::North),
        StarName::TaiYin | StarName::TanLang | StarName::JuMen | StarName::TianLiang | StarName::PoJun => Some(StarGalaxy::South),
        StarName::TianFu | StarName::TianXiang | StarName::QiSha => None,
    }
}

/// Category of a star: the four 辅星 are minor, the fourteen others major.
pub fn star_category(name: StarName) -> (r: StarCategory)
    ensures
        r == spec_star_category(name),
{
    match name {
        StarName::ZuoFu | StarName::YouBi | StarName::WenChang | StarName::WenQu => StarCategory::Minor,
        _ => StarCategory::Major,
    }
}

/// Star group (斗系) of a star; `None` for 天府, 天相 and 七杀.
pub fn star_galaxy(name: StarName) -> (r: Option<StarGalaxy>)
    ensures
        r == spec_star_galaxy(name),
{
    match name {
        StarName::ZiWei | StarName::ZuoFu | StarName::YouBi | StarName::WenChang | StarName::WenQu => Some(StarGalaxy::Central),
        StarName::TianJi | StarName::TaiYang | StarName::WuQu | StarName::TianTong | StarName::LianZhen => Some(StarGalaxy::North),
        StarName::TaiYin | StarName::TanLang | StarName::JuMen | StarName::TianLiang | StarName::PoJun => Some(StarGalaxy::South),
        StarName::TianFu | StarName::TianXiang | StarName::QiSha => None,
    }
}

impl StarName {
    /// Stable snake-case identifier of the star, such as `zi_wei`.
    pub open spec fn spec_as_str(self) -> Seq<char> {
        match self {
            StarName::ZiWei => "zi_wei"@,
            StarName::TianJi => "tian_ji"@,
            StarName::TaiYang => "tai_yang"@,
            StarName::WuQu => "wu_qu"@,
            StarName::TianTong => "tian_tong"@,
            StarName::LianZhen => "lian_zhen"@,
            StarName::TianFu => "tian_fu"@,
            StarName::TaiYin => "tai_yin"@,
            StarName::TanLang => "tan_lang"@,
            StarName::JuMen => "ju_men"@,
            StarName::TianXiang => "tian_xiang"@,
            StarName::TianLiang => "tian_liang"@,
            StarName::QiSha => "qi_sha"@,
            StarName::PoJun => "po_jun"@,
            StarName::ZuoFu => "zuo_fu"@,
            StarName::YouBi => "you_bi"@,
            StarName::WenChang => "wen_chang"@,
            StarName::WenQu => "wen_qu"@,
        }
    }

    /// Stable snake-case identifier of the star, such as `zi_wei`.
    pub fn as_str(self) -> (r: &'static str)
        ensures
            r@ == self.spec_as_str(),
    {
        match self {
            StarName::ZiWei => "zi_wei",
            StarName::TianJi => "tian_ji",
            StarName::TaiYang => "tai_yang",
            StarName::WuQu => "wu_qu",
            StarName::TianTong => "tian_tong",
            StarName::LianZhen => "lian_zhen",
            StarName::TianFu => "tian_fu",
            StarName::TaiYin => "tai_yin",
            StarName::TanLang => "tan_lang",
            StarName::JuMen => "ju_men",
            StarName::TianXiang => "tian_xiang",
            StarName::TianLiang => "tian_liang",
            StarName::QiSha => "qi_sha",
            StarName::PoJun => "po_jun",
            StarName::ZuoFu => "zuo_fu",
            StarName::YouBi => "you_bi",
            StarName::WenChang => "wen_chang",
            StarName::WenQu => "wen_qu",
        }
    }

    /// Category (type) of the star: the four stars 左辅, 右弼, 文昌, 文曲 are minor, the
    /// fourteen others major.
    pub fn star_type(self) -> (r: StarCategory)
        ensures
            r == spec_star_category(self),
    {
        star_category(self)
    }

    /// Group (斗系) of the star, when it has one.
    pub fn galaxy(self) -> (r: Option<StarGalaxy>)
        ensures
            r == spec_star_galaxy(self),
    {
        star_galaxy(self)
    }
}

/// The inward and outward self-transformations of one star.
#[derive(Debug, Clone, Copy, PartialEq, Eq, Structural)]
pub struct StarSelfTransformations {
    inward: Option<Transformation>,
    outward: Option<Transformation>,
}

impl StarSelfTransformations {
    /// Inward self-transformation held in the value.
    pub closed spec fn spec_inward(self) -> Option<Transformation> {
        self.inward
    }

    /// Outward self-transformation held in the value.
    pub closed spec fn spec_outward(self) -> Option<Transformation> {
        self.outward
    }

    /// Builds the pair from its two directions.
    pub fn new(inward: Option<Transformation>, outward: Option<Transformation>) -> (r: Self)
        ensures
            r.spec_inward() == inward,
            r.spec_outward() == outward,
    {
        StarSelfTransformations { inward, outward }
    }

    /// Inward self-transformation (向心): the star is transformed from the opposite palace.
    pub fn inward(self) -> (r: Option<Transformation>)
        ensures
            r == self.spec_inward(),
    {
        self.inward
    }

    /// Outward self-transformation (离心): the star is transformed from its own palace.
    pub fn outward(self) -> (r: Option<Transformation>)
        ensures
            r == self.spec_outward(),
    {
        self.outward
    }
}

/// The facts of one star inside a concrete chart.
#[derive(Debug, Clone, Copy, PartialEq, Eq, Structural)]
pub struct Star {
    name: StarName,
    category: StarCategory,
    galaxy: Option<StarGalaxy>,
    origin_transformation: Option<Transformation>,
    self_transformations: StarSelfTransformations,
}

impl Star {
    /// Identity of the star.
    pub closed spec fn spec_name(self) -> StarName {
        self.name
    }

    /// Category held in the star fact.
    pub closed spec fn spec_category(self) -> StarCategory {
        self.category
    }

    /// Star group held in the star fact.
    pub closed spec fn spec_galaxy(self) -> Option<StarGalaxy> {
        self.galaxy
    }

    /// Birth transformation held in the star fact.
    pub closed spec fn spec_origin_transformation(self) -> Option<Transformation> {
        self.origin_transformation
    }

    /// Self-transformations held in the star fact.
    pub closed spec fn spec_self_transformations(self) -> StarSelfTransformations {
        self.self_transformations
    }

    /// Assembles a star fact from its parts.
    pub fn new(
        name: StarName,
        category: StarCategory,
        galaxy: Option<StarGalaxy>,
        origin_transformation: Option<Transformation>,
        self_transformations: StarSelfTransformations,
    ) -> (r: Self)
        ensures
            r.spec_name() == name,
            r.spec_category() == category,
            r.spec_galaxy() == galaxy,
            r.spec_origin_transformation() == origin_transformation,
            r.spec_self_transformations() == self_transformations,
    {
        Star { name, category, galaxy, origin_transformation, self_transformations }
    }

    /// Identity of the star.
    pub fn name(self) -> (r: StarName)
        ensures
            r == self.spec_name(),
    {
        self.name
    }

    /// Category of the star.
    pub fn category(self) -> (r: StarCategory)
        ensures
            r == self.spec_category(),
    {
        self.category
    }

    /// Star group; `None` for a star without one.
    pub fn galaxy(self) -> (r: Option<StarGalaxy>)
        ensures
            r == self.spec_galaxy(),
    {
        self.galaxy
    }

    /// Birth transformation (生年四化) carried by the star, if any.
    pub fn origin_transformation(self) -> (r: Option<Transformation>)
        ensures
            r == self.spec_origin_transformation(),
    {
        self.origin_transformation
    }

    /// Inward and outward self-transformations of the star.
    pub fn self_transformations(self) -> (r: StarSelfTransformations)
        ensures
            r == self.spec_self_transformations(),
    {
        self.self_transformations
    }
}

/// Two star facts that agree on every published field are the same value.
pub proof fn lemma_star_ext(a: Star, b: Star)
    requires
        a.spec_name() == b.spec_name(),
        a.spec_category() == b.spec_category(),
        a.spec_galaxy() == b.spec_galaxy(),
        a.spec_origin_transformation() == b.spec_origin_transformation(),
        a.spec_self_transformations().spec_inward() == b.spec_self_transformations().spec_inward(),
        a.spec_self_transformations().spec_outward() == b.spec_self_transformations().spec_outward(),
    ensures
        a == b,
{
}

} // verus!
