//! A star as the domain model of a natal chart holds it: identity, display names,
//! category, group and transformations.
use crate::star::{StarCategory, StarGalaxy, StarName, StarSelfTransformations};
use crate::transformation::Transformation;
use vstd::prelude::*;

verus! {

/// Simplified Chinese name of a star, such as 紫微.
pub open spec fn spec_name_hans(key: StarName) -> Seq<char> {
    match key {
        StarName::ZiWei => "紫微"@,
        StarName::TianJi => "天机"@,
        StarName::TaiYang => "太阳"@,
        StarName::WuQu => "武曲"@,
        StarName::TianTong => "天同"@,
        StarName::LianZhen => "廉贞"@,
        StarName::TianFu => "天府"@,
        StarName::TaiYin => "太阴"@,
        StarName::TanLang => "贪狼"@,
        StarName::JuMen => "巨门"@,
        StarName::TianXiang => "天相"@,
        StarName::TianLiang => "天梁"@,
        StarName::QiSha => "七杀"@,
        StarName::PoJun => "破军"@,
        StarName::ZuoFu => "左辅"@,
        StarName::YouBi => "右弼"@,
        StarName::WenChang => "文昌"@,
        StarName::WenQu => "文曲"@,
    }
}

/// Traditional Chinese name of a star, such as 天機.
pub open spec fn spec_name_hant(key: StarName) -> Seq<char> {
    match key {
        StarName::ZiWei => "紫微"@,
        StarName::TianJi => "天機"@,
        StarName::TaiYang => "太陽"@,
        StarName::WuQu => "武曲"@,
        StarName::TianTong => "天同"@,
        StarName::LianZhen => "廉貞"@,
        StarName::TianFu => "天府"@,
        StarName::TaiYin => "太陰"@,
        StarName::TanLang => "貪狼"@,
        StarName::JuMen => "巨門"@,
        StarName::TianXiang => "天相"@,
        StarName::TianLiang => "天梁"@,
        StarName::QiSha => "七殺"@,
        StarName::PoJun => "破軍"@,
        StarName::ZuoFu => "左輔"@,
        StarName::YouBi => "右弼"@,
        StarName::WenChang => "文昌"@,
        StarName::WenQu => "文曲"@,
    }
}

/// Simplified Chinese one-character abbreviation of a star on the board, such as 辅.
pub open spec fn spec_abbr_hans(key: StarName) -> Seq<char> {
    match key {
        StarName::ZiWei => "紫"@,
        StarName::TianJi => "机"@,
        StarName::TaiYang => "阳"@,
        StarName::WuQu => "武"@,
        StarName::TianTong => "同"@,
        StarName::LianZhen => "廉"@,
        StarName::TianFu => "府"@,
        StarName::TaiYin => "阴"@,
        StarName::TanLang => "贪"@,
        StarName::JuMen => "巨"@,
        StarName::TianXiang => "相"@,
        StarName::TianLiang => "梁"@,
        StarName::QiSha => "杀"@,
        StarName::PoJun => "破"@,
        StarName::ZuoFu => "辅"@,
        StarName::YouBi => "弼"@,
        StarName::WenChang => "昌"@,
        StarName::WenQu => "曲"@,
    }
}

/// Traditional Chinese one-character abbreviation of a star on the board, such as 輔.
pub open spec fn spec_abbr_hant(key: StarName) -> Seq<char> {
    match key {
        StarName::ZiWei => "紫"@,
        StarName::TianJi => "機"@,
        StarName::TaiYang => "陽"@,
        StarName::WuQu => "武"@,
        StarName::TianTong => "同"@,
        StarName::LianZhen => "廉"@,
        StarName::TianFu => "府"@,
        StarName::TaiYin => "陰"@,
        StarName::TanLang => "貪"@,
        StarName::JuMen => "巨"@,
        StarName::TianXiang => "相"@,
        StarName::TianLiang => "梁"@,
        StarName::QiSha => "殺"@,
        StarName::PoJun => "破"@,
        StarName::ZuoFu => "輔"@,
        StarName::YouBi => "弼"@,
        StarName::WenChang => "昌"@,
        StarName::WenQu => "曲"@,
    }
}

/// Simplified Chinese name of a star.
fn name_hans_of(key: StarName) -> (r: &'static str)
    ensures
        r@ == spec_name_hans(key),
{
    match key {
        StarName::ZiWei => "紫微",
        StarName::TianJi => "天机",
        StarName::TaiYang => "太阳",
        StarName::WuQu => "武曲",
        StarName::TianTong => "天同",
        StarName::LianZhen => "廉贞",
        StarName::TianFu => "天府",
        StarName::TaiYin => "太阴",
        StarName::TanLang => "贪狼",
        StarName::JuMen => "巨门",
        StarName::TianXiang => "天相",
        StarName::TianLiang => "天梁",
        StarName::QiSha => "七杀",
        StarName::PoJun => "破军",
        StarName::ZuoFu => "左辅",
        StarName::YouBi => "右弼",
        StarName::WenChang => "文昌",
        StarName::WenQu => "文曲",
    }
}

/// Traditional Chinese name of a star.
fn name_hant_of(key: StarName) -> (r: &'static str)
    ensures
        r@ == spec_name_hant(key),
{
    match key {
        StarName::ZiWei => "紫微",
        StarName::TianJi => "天機",
        StarName::TaiYang => "太陽",
        StarName::WuQu => "武曲",
        StarName::TianTong => "天同",
        StarName::LianZhen => "廉貞",
        StarName::TianFu => "天府",
        StarName::TaiYin => "太陰",
        StarName::TanLang => "貪狼",
        StarName::JuMen => "巨門",
        StarName::TianXiang => "天相",
        StarName::TianLiang => "天梁",
        StarName::QiSha => "七殺",
        StarName::PoJun => "破軍",
        StarName::ZuoFu => "左輔",
        StarName::YouBi => "右弼",
        StarName::WenChang => "文昌",
        StarName::WenQu => "文曲",
    }
}

/// Simplified Chinese abbreviation of a star.
fn abbr_hans_of(key: StarName) -> (r: &'static str)
    ensures
        r@ == spec_abbr_hans(key),
{
    match key {
        StarName::ZiWei => "紫",
        StarName::TianJi => "机",
        StarName::TaiYang => "阳",
        StarName::WuQu => "武",
        StarName::TianTong => "同",
        StarName::LianZhen => "廉",
        StarName::TianFu => "府",
        StarName::TaiYin => "阴",
        StarName::TanLang => "贪",
        StarName::JuMen => "巨",
        StarName::TianXiang => "相",
        StarName::TianLiang => "梁",
        StarName::QiSha => "杀",
        StarName::PoJun => "破",
        StarName::ZuoFu => "辅",
        StarName::YouBi => "弼",
        StarName::WenChang => "昌",
        StarName::WenQu => "曲",
    }
}

/// Traditional Chinese abbreviation of a star.
fn abbr_hant_of(key: StarName) -> (r: &'static str)
    ensures
        r@ == spec_abbr_hant(key),
{
    match key {
        StarName::ZiWei => "紫",
        StarName::TianJi => "機",
        StarName::TaiYang => "陽",
        StarName::WuQu => "武",
        StarName::TianTong => "同",
        StarName::LianZhen => "廉",
        StarName::TianFu => "府",
        StarName::TaiYin => "陰",
        StarName::TanLang => "貪",
        StarName::JuMen => "巨",
        StarName::TianXiang => "相",
        StarName::TianLiang => "梁",
        StarName::QiSha => "殺",
        StarName::PoJun => "破",
        StarName::ZuoFu => "輔",
        StarName::YouBi => "弼",
        StarName::WenChang => "昌",
        StarName::WenQu => "曲",
    }
}

/// The immutable natal fact of one star.
#[derive(Debug, Clone, Copy, PartialEq, Eq)]
pub struct Star {
    key: StarName,
    name_hans: &'static str,
    name_hant: &'static str,
    abbr_hans: &'static str,
    abbr_hant: &'static str,
    category: StarCategory,
    galaxy: StarGalaxy,
    birth_transformation: Option<Transformation>,
    self_transformations: StarSelfTransformations,
}

impl Star {
    /// The display names always belong to the key.
    #[verifier::type_invariant]
    closed spec fn names_follow_key(self) -> bool {
        &&& self.name_hans@ == spec_name_hans(self.key)
        &&& self.name_hant@ == spec_name_hant(self.key)
        &&& self.abbr_hans@ == spec_abbr_hans(self.key)
        &&& self.abbr_hant@ == spec_abbr_hant(self.key)
    }

    /// Identity held.
    pub closed spec fn spec_key(self) -> StarName {
        self.key
    }

    /// Category held.
    pub closed spec fn spec_category(self) -> StarCategory {
        self.category
    }

    /// Group held.
    pub closed spec fn spec_galaxy(self) -> StarGalaxy {
        self.galaxy
    }

    /// Birth transformation held.
    pub closed spec fn spec_birth_transformation(self) -> Option<Transformation> {
        self.birth_transformation
    }

    /// Self-transformations held.
    pub closed spec fn spec_self_transformations(self) -> StarSelfTransformations {
        self.self_transformations
    }

    /// The fact of a star; its display names follow from the key.
    pub fn new(
        key: StarName,
        category: StarCategory,
        galaxy: StarGalaxy,
        birth_transformation: Option<Transformation>,
        self_transformations: StarSelfTransformations,
    ) -> (r: Star)
        ensures
            r.spec_key() == key,
            r.spec_category() == category,
            r.spec_galaxy() == galaxy,
            r.spec_birth_transformation() == birth_transformation,
            r.spec_self_transformations() == self_transformations,
    {
        Star {
            key,
            name_hans: name_hans_of(key),
            name_hant: name_hant_of(key),
            abbr_hans: abbr_hans_of(key),
            abbr_hant: abbr_hant_of(key),
            category,
            galaxy,
            birth_transformation,
            self_transformations,
        }
    }

    /// Identity of the star.
    pub fn key(&self) -> (r: StarName)
        ensures
            r == self.spec_key(),
    {
        self.key
    }

    /// Simplified Chinese name.
    pub fn name_hans(&self) -> (r: &'static str)
        ensures
            r@ == spec_name_hans(self.spec_key()),
    {
        proof {
            use_type_invariant(self);
        }
        self.name_hans
    }

    /// Traditional Chinese name.
    pub fn name_hant(&self) -> (r: &'static str)
        ensures
            r@ == spec_name_hant(self.spec_key()),
    {
        proof {
            use_type_invariant(self);
        }
        self.name_hant
    }

    /// Simplified Chinese one-character abbreviation.
    pub fn abbr_hans(&self) -> (r: &'static str)
        ensures
            r@ == spec_abbr_hans(self.spec_key()),
    {
        proof {
            use_type_invariant(self);
        }
        self.abbr_hans
    }

    /// Traditional Chinese one-character abbreviation.
    pub fn abbr_hant(&self) -> (r: &'static str)
        ensures
            r@ == spec_abbr_hant(self.spec_key()),
    {
        proof {
            use_type_invariant(self);
        }
        self.abbr_hant
    }

    /// Category of the star.
    pub fn category(&self) -> (r: StarCategory)
        ensures
            r == self.spec_category(),
    {
        self.category
    }

    /// Group (斗系) of the star.
    pub fn galaxy(&self) -> (r: StarGalaxy)
        ensures
            r == self.spec_galaxy(),
    {
        self.galaxy
    }

    /// Birth transformation received by the star.
    pub fn birth_transformation(&self) -> (r: Option<Transformation>)
        ensures
            r == self.spec_birth_transformation(),
    {
        self.birth_transformation
    }

    /// Inward and outward self-transformations of the star.
    pub fn self_transformations(&self) -> (r: StarSelfTransformations)
        ensures
            r == self.spec_self_transformations(),
    {
        self.self_transformations
    }
}

} // verus!
