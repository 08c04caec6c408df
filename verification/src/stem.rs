//! The ten heavenly stems (天干) and the rules that a birth stem determines:
//! the transformation table (四化), the origin palace (来因宫) and the
//! five-tiger rule (五虎遁) for palace stems.
use super::branch::Branch;
use super::star::StarName;
use super::transformation::Transformation;
use vstd::prelude::*;

verus! {

/// One of the ten heavenly stems, in the order 甲 … 癸.
#[derive(Debug, Clone, Copy, PartialEq, Eq, Hash, Structural)]
pub enum Stem {
    /// 甲.
    Jia,
    /// 乙.
    Yi,
    /// 丙.
    Bing,
    /// 丁.
    Ding,
    /// 戊.
    Wu,
    /// 己.
    Ji,
    /// 庚.
    Geng,
    /// 辛.
    Xin,
    /// 壬.
    Ren,
    /// 癸.
    Gui,
}

impl Stem {

    /// The Chinese character of the stem.
    pub open spec fn spec_chinese(self) -> Seq<char> {
        match self {
            Stem::Jia => "甲"@,
            Stem::Yi => "乙"@,
            Stem::Bing => "丙"@,
            Stem::Ding => "丁"@,
            Stem::Wu => "戊"@,
            Stem::Ji => "己"@,
            Stem::Geng => "庚"@,
            Stem::Xin => "辛"@,
            Stem::Ren => "壬"@,
            Stem::Gui => "癸"@,
        }
    }

    /// The Chinese character of the stem, such as 甲.
    pub fn chinese(self) -> (r: &'static str)
        ensures
            r@ == self.spec_chinese(),
    {
        match self {
            Stem::Jia => "甲",
            Stem::Yi => "乙",
            Stem::Bing => "丙",
            Stem::Ding => "丁",
            Stem::Wu => "戊",
            Stem::Ji => "己",
            Stem::Geng => "庚",
            Stem::Xin => "辛",
            Stem::Ren => "壬",
            Stem::Gui => "癸",
        }
    }
    /// Palace stems of the five-tiger rule (五虎遁), one row per stem group
    /// (甲己, 乙庚, 丙辛, 丁壬, 戊癸), twelve columns from 寅 to 丑.
    pub const FIVE_TIGER_DUN_PALACE_STEMS: [[Stem; 12]; 5] = [
        [Stem::Bing, Stem::Ding, Stem::Wu, Stem::Ji, Stem::Geng, Stem::Xin, Stem::Ren, Stem::Gui, Stem::Jia, Stem::Yi, Stem::Bing, Stem::Ding],
        [Stem::Wu, Stem::Ji, Stem::Geng, Stem::Xin, Stem::Ren, Stem::Gui, Stem::Jia, Stem::Yi, Stem::Bing, Stem::Ding, Stem::Wu, Stem::Ji],
        [Stem::Geng, Stem::Xin, Stem::Ren, Stem::Gui, Stem::Jia, Stem::Yi, Stem::Bing, Stem::Ding, Stem::Wu, Stem::Ji, Stem::Geng, Stem::Xin],
        [Stem::Ren, Stem::Gui, Stem::Jia, Stem::Yi, Stem::Bing, Stem::Ding, Stem::Wu, Stem::Ji, Stem::Geng, Stem::Xin, Stem::Ren, Stem::Gui],
        [Stem::Jia, Stem::Yi, Stem::Bing, Stem::Ding, Stem::Wu, Stem::Ji, Stem::Geng, Stem::Xin, Stem::Ren, Stem::Gui, Stem::Jia, Stem::Yi],
    ];

    /// Position of the stem: 甲 = 0 … 癸 = 9.
    pub open spec fn idx(self) -> int {
        match self {
            Stem::Jia => 0,
            Stem::Yi => 1,
            Stem::Bing => 2,
            Stem::Ding => 3,
            Stem::Wu => 4,
            Stem::Ji => 5,
            Stem::Geng => 6,
            Stem::Xin => 7,
            Stem::Ren => 8,
            Stem::Gui => 9,
        }
    }

    /// Stem at position `i`, taken modulo ten.
    pub open spec fn at(i: int) -> Stem {
        let k = i % 10;
        if k == 0 {
            Stem::Jia
        } else if k == 1 {
            Stem::Yi
        } else if k == 2 {
            Stem::Bing
        } else if k == 3 {
            Stem::Ding
        } else if k == 4 {
            Stem::Wu
        } else if k == 5 {
            Stem::Ji
        } else if k == 6 {
            Stem::Geng
        } else if k == 7 {
            Stem::Xin
        } else if k == 8 {
            Stem::Ren
        } else {
            Stem::Gui
        }
    }

    /// The transformation table (四化表): the star that this stem transforms.
    pub open spec fn spec_transformation_star(self, transformation: Transformation) -> StarName {
        match self {
            Stem::Jia => match transformation {
                Transformation::A => StarName::LianZhen,
                Transformation::B => StarName::PoJun,
                Transformation::C => StarName::WuQu,
                Transformation::D => StarName::TaiYang,
            },
            Stem::Yi => match transformation {
                Transformation::A => StarName::TianJi,
                Transformation::B => StarName::TianLiang,
                Transformation::C => StarName::ZiWei,
                Transformation::D => StarName::TaiYin,
            },
            Stem::Bing => match transformation {
                Transformation::A => StarName::TianTong,
                Transformation::B => StarName::TianJi,
                Transformation::C => StarName::WenChang,
                Transformation::D => StarName::LianZhen,
            },
            Stem::Ding => match transformation {
                Transformation::A => StarName::TaiYin,
                Transformation::B => StarName::TianTong,
                Transformation::C => StarName::TianJi,
                Transformation::D => StarName::JuMen,
            },
            Stem::Wu => match transformation {
                Transformation::A => StarName::TanLang,
                Transformation::B => StarName::TaiYin,
                Transformation::C => StarName::YouBi,
                Transformation::D => StarName::TianJi,
            },
            Stem::Ji => match transformation {
                Transformation::A => StarName::WuQu,
                Transformation::B => StarName::TanLang,
                Transformation::C => StarName::TianLiang,
                Transformation::D => StarName::WenQu,
            },
            Stem::Geng => match transformation {
                Transformation::A => StarName::TaiYang,
                Transformation::B => StarName::WuQu,
                Transformation::C => StarName::TaiYin,
                Transformation::D => StarName::TianTong,
            },
            Stem::Xin => match transformation {
                Transformation::A => StarName::JuMen,
                Transformation::B => StarName::TaiYang,
                Transformation::C => StarName::WenQu,
                Transformation::D => StarName::WenChang,
            },
            Stem::Ren => match transformation {
                Transformation::A => StarName::TianLiang,
                Transformation::B => StarName::ZiWei,
                Transformation::C => StarName::ZuoFu,
                Transformation::D => StarName::WuQu,
            },
            Stem::Gui => match transformation {
                Transformation::A => StarName::PoJun,
                Transformation::B => StarName::JuMen,
                Transformation::C => StarName::TaiYin,
                Transformation::D => StarName::TanLang,
            },
        }
    }

    /// The origin-palace branch (来因宫) fixed by a birth stem.
    pub open spec fn spec_origin_palace_branch(self) -> Branch {
        match self {
            Stem::Jia => Branch::Xu,
            Stem::Yi => Branch::You,
            Stem::Bing => Branch::Shen,
            Stem::Ding => Branch::Wei,
            Stem::Wu => Branch::Wu,
            Stem::Ji => Branch::Si,
            Stem::Geng => Branch::Chen,
            Stem::Xin => Branch::Mao,
            Stem::Ren => Branch::Yin,
            Stem::Gui => Branch::Hai,
        }
    }

    /// The older fixed origin table in which 丙 maps to 辰.
    pub open spec fn spec_laiyin_branch(self) -> Branch {
        match self {
            Stem::Jia => Branch::Xu,
            Stem::Yi => Branch::You,
            Stem::Bing => Branch::Chen,
            Stem::Ding => Branch::Wei,
            Stem::Wu => Branch::Wu,
            Stem::Ji => Branch::Si,
            Stem::Geng => Branch::Chen,
            Stem::Xin => Branch::Mao,
            Stem::Ren => Branch::Yin,
            Stem::Gui => Branch::Hai,
        }
    }

    /// Yang stems are 甲, 丙, 戊, 庚, 壬 (even positions).
    pub open spec fn spec_is_yang(self) -> bool {
        self.idx() % 2 == 0
    }

    /// Stem of the 寅 palace by the five-tiger rule (五虎遁).
    pub open spec fn spec_yin_head_stem(self) -> Stem {
        match self {
            Stem::Jia => Stem::Bing,
            Stem::Yi => Stem::Wu,
            Stem::Bing => Stem::Geng,
            Stem::Ding => Stem::Ren,
            Stem::Wu => Stem::Jia,
            Stem::Ji => Stem::Bing,
            Stem::Geng => Stem::Wu,
            Stem::Xin => Stem::Geng,
            Stem::Ren => Stem::Ren,
            Stem::Gui => Stem::Jia,
        }
    }

    /// Position of the stem: 甲 = 0 … 癸 = 9.
    pub fn index(self) -> (r: usize)
        ensures
            r == self.idx(),
            r < 10,
    {
        match self {
            Stem::Jia => 0,
            Stem::Yi => 1,
            Stem::Bing => 2,
            Stem::Ding => 3,
            Stem::Wu => 4,
            Stem::Ji => 5,
            Stem::Geng => 6,
            Stem::Xin => 7,
            Stem::Ren => 8,
            Stem::Gui => 9,
        }
    }

    /// Rebuilds a stem from an index; the index is first reduced modulo ten.
    pub fn from_index(index: u8) -> (r: Stem)
        ensures
            r == Stem::at(index as int),
    {
        let k = index % 10;
        if k == 0 {
            Stem::Jia
        } else if k == 1 {
            Stem::Yi
        } else if k == 2 {
            Stem::Bing
        } else if k == 3 {
            Stem::Ding
        } else if k == 4 {
            Stem::Wu
        } else if k == 5 {
            Stem::Ji
        } else if k == 6 {
            Stem::Geng
        } else if k == 7 {
            Stem::Xin
        } else if k == 8 {
            Stem::Ren
        } else {
            Stem::Gui
        }
    }

    /// The star that this stem transforms with the given transformation (四化表).
    pub fn transformation_star(self, transformation: Transformation) -> (r: StarName)
        ensures
            r == self.spec_transformation_star(transformation),
    {
        match self {
            Stem::Jia => match transformation {
                Transformation::A => StarName::LianZhen,
                Transformation::B => StarName::PoJun,
                Transformation::C => StarName::WuQu,
                Transformation::D => StarName::TaiYang,
            },
            Stem::Yi => match transformation {
                Transformation::A => StarName::TianJi,
                Transformation::B => StarName::TianLiang,
                Transformation::C => StarName::ZiWei,
                Transformation::D => StarName::TaiYin,
            },
            Stem::Bing => match transformation {
                Transformation::A => StarName::TianTong,
                Transformation::B => StarName::TianJi,
                Transformation::C => StarName::WenChang,
                Transformation::D => StarName::LianZhen,
            },
            Stem::Ding => match transformation {
                Transformation::A => StarName::TaiYin,
                Transformation::B => StarName::TianTong,
                Transformation::C => StarName::TianJi,
                Transformation::D => StarName::JuMen,
            },
            Stem::Wu => match transformation {
                Transformation::A => StarName::TanLang,
                Transformation::B => StarName::TaiYin,
                Transformation::C => StarName::YouBi,
                Transformation::D => StarName::TianJi,
            },
            Stem::Ji => match transformation {
                Transformation::A => StarName::WuQu,
                Transformation::B => StarName::TanLang,
                Transformation::C => StarName::TianLiang,
                Transformation::D => StarName::WenQu,
            },
            Stem::Geng => match transformation {
                Transformation::A => StarName::TaiYang,
                Transformation::B => StarName::WuQu,
                Transformation::C => StarName::TaiYin,
                Transformation::D => StarName::TianTong,
            },
            Stem::Xin => match transformation {
                Transformation::A => StarName::JuMen,
                Transformation::B => StarName::TaiYang,
                Transformation::C => StarName::WenQu,
                Transformation::D => StarName::WenChang,
            },
            Stem::Ren => match transformation {
                Transformation::A => StarName::TianLiang,
                Transformation::B => StarName::ZiWei,
                Transformation::C => StarName::ZuoFu,
                Transformation::D => StarName::WuQu,
            },
            Stem::Gui => match transformation {
                Transformation::A => StarName::PoJun,
                Transformation::B => StarName::JuMen,
                Transformation::C => StarName::TaiYin,
                Transformation::D => StarName::TanLang,
            },
        }
    }

    /// The origin-palace branch (来因宫) fixed by a birth stem:
    /// 甲戌, 乙酉, 丙申, 丁未, 戊午, 己巳, 庚辰, 辛卯, 壬寅, 癸亥.
    pub fn origin_palace_branch(self) -> (r: Branch)
        ensures
            r == self.spec_origin_palace_branch(),
    {
        match self {
            Stem::Jia => Branch::Xu,
            Stem::Yi => Branch::You,
            Stem::Bing => Branch::Shen,
            Stem::Ding => Branch::Wei,
            Stem::Wu => Branch::Wu,
            Stem::Ji => Branch::Si,
            Stem::Geng => Branch::Chen,
            Stem::Xin => Branch::Mao,
            Stem::Ren => Branch::Yin,
            Stem::Gui => Branch::Hai,
        }
    }

    /// The origin branch of the older fixed table (来因地支):
    /// 甲戌, 乙酉, 丙辰, 丁未, 戊午, 己巳, 庚辰, 辛卯, 壬寅, 癸亥.
    pub fn laiyin_branch(self) -> (r: Branch)
        ensures
            r == self.spec_laiyin_branch(),
    {
        match self {
            Stem::Jia => Branch::Xu,
            Stem::Yi => Branch::You,
            Stem::Bing => Branch::Chen,
            Stem::Ding => Branch::Wei,
            Stem::Wu => Branch::Wu,
            Stem::Ji => Branch::Si,
            Stem::Geng => Branch::Chen,
            Stem::Xin => Branch::Mao,
            Stem::Ren => Branch::Yin,
            Stem::Gui => Branch::Hai,
        }
    }

    /// Whether the stem is yang (甲, 丙, 戊, 庚, 壬).
    pub fn is_yang(self) -> (r: bool)
        ensures
            r == self.spec_is_yang(),
    {
        match self {
            Stem::Jia | Stem::Bing | Stem::Wu | Stem::Geng | Stem::Ren => true,
            _ => false,
        }
    }

    /// Stem of the 寅 palace by the five-tiger rule: 甲己丙作首, 乙庚戊为头,
    /// 丙辛寻庚起, 丁壬壬顺流, 戊癸甲寅求.
    pub fn yin_head_stem(self) -> (r: Stem)
        ensures
            r == self.spec_yin_head_stem(),
    {
        match self {
            Stem::Jia => Stem::Bing,
            Stem::Yi => Stem::Wu,
            Stem::Bing => Stem::Geng,
            Stem::Ding => Stem::Ren,
            Stem::Wu => Stem::Jia,
            Stem::Ji => Stem::Bing,
            Stem::Geng => Stem::Wu,
            Stem::Xin => Stem::Geng,
            Stem::Ren => Stem::Ren,
            Stem::Gui => Stem::Jia,
        }
    }
}

/// The transformation with which a stem transforms a star, if it transforms it at all.
pub open spec fn spec_find_transformation(stem: Stem, star: StarName) -> Option<Transformation> {
    if stem.spec_transformation_star(Transformation::A) == star {
        Some(Transformation::A)
    } else if stem.spec_transformation_star(Transformation::B) == star {
        Some(Transformation::B)
    } else if stem.spec_transformation_star(Transformation::C) == star {
        Some(Transformation::C)
    } else if stem.spec_transformation_star(Transformation::D) == star {
        Some(Transformation::D)
    } else {
        None
    }
}

/// The stem at a position of the ten-stem cycle has that position, taken modulo ten.
pub proof fn lemma_stem_at(i: int)
    ensures
        Stem::at(i).idx() == i % 10,
{
}

/// The four stars of every row of the transformation table are pairwise distinct,
/// so a stem transforms each star at most once.
pub proof fn lemma_transformation_row_distinct(stem: Stem, a: Transformation, b: Transformation)
    ensures
        stem.spec_transformation_star(a) == stem.spec_transformation_star(b) ==> a == b,
{
}

/// A stem transforms a star with `t` exactly when `t` of the stem's row is that star.
pub proof fn lemma_find_transformation(stem: Stem, star: StarName, t: Transformation)
    ensures
        spec_find_transformation(stem, star) == Some(t) <==> stem.spec_transformation_star(t) == star,
{
    lemma_transformation_row_distinct(stem, t, Transformation::A);
    lemma_transformation_row_distinct(stem, t, Transformation::B);
    lemma_transformation_row_distinct(stem, t, Transformation::C);
    lemma_transformation_row_distinct(stem, t, Transformation::D);
}

} // verus!
