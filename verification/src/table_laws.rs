//! The fixed tables and ranges of the rules, stated value by value.
use super::bureau::FiveElementBureau;
use super::decade::DecadeDirection;
use super::input::{spec_branch_from_year, spec_stem_from_year, spec_birth_error, spec_input_error, spec_month_day_hour_error, Gender, ZiweiInputError};
use super::branch::Branch;
use super::star::{spec_star_category, spec_star_galaxy, StarCategory, StarGalaxy, StarName};
use super::stem::Stem;
use super::transformation::Transformation;
use super::zodiac::Zodiac;
use super::placement::{spec_palace_stem, spec_star_branch, spec_tian_fu_yin0, spec_zi_wei_yin0};
use super::branch::lemma_branch_index;
use vstd::arithmetic::div_mod::{lemma_add_mod_noop, lemma_add_mod_noop_right};
use vstd::prelude::*;

verus! {

/// The star groups (斗系): 紫微, 左辅, 右弼, 文昌 and 文曲 belong to the central group;
/// 天机, 太阳, 武曲, 天同 and 廉贞 to the northern; 太阴, 贪狼, 巨门, 天梁 and 破军 to the
/// southern; 天府, 天相 and 七杀 to none.
pub proof fn law_star_groups()
    ensures
        spec_star_galaxy(StarName::ZiWei) == Some(StarGalaxy::Central),
        spec_star_galaxy(StarName::ZuoFu) == Some(StarGalaxy::Central),
        spec_star_galaxy(StarName::YouBi) == Some(StarGalaxy::Central),
        spec_star_galaxy(StarName::WenChang) == Some(StarGalaxy::Central),
        spec_star_galaxy(StarName::WenQu) == Some(StarGalaxy::Central),
        spec_star_galaxy(StarName::TianJi) == Some(StarGalaxy::North),
        spec_star_galaxy(StarName::TaiYang) == Some(StarGalaxy::North),
        spec_star_galaxy(StarName::WuQu) == Some(StarGalaxy::North),
        spec_star_galaxy(StarName::TianTong) == Some(StarGalaxy::North),
        spec_star_galaxy(StarName::LianZhen) == Some(StarGalaxy::North),
        spec_star_galaxy(StarName::TaiYin) == Some(StarGalaxy::South),
        spec_star_galaxy(StarName::TanLang) == Some(StarGalaxy::South),
        spec_star_galaxy(StarName::JuMen) == Some(StarGalaxy::South),
        spec_star_galaxy(StarName::TianLiang) == Some(StarGalaxy::South),
        spec_star_galaxy(StarName::PoJun) == Some(StarGalaxy::South),
        spec_star_galaxy(StarName::TianFu) == None::<StarGalaxy>,
        spec_star_galaxy(StarName::TianXiang) == None::<StarGalaxy>,
        spec_star_galaxy(StarName::QiSha) == None::<StarGalaxy>,
{
}

/// The four stars 左辅, 右弼, 文昌 and 文曲 are minor; the other fourteen are major.
pub proof fn law_star_categories(s: StarName)
    ensures
        spec_star_category(s) == StarCategory::Minor <==> (s == StarName::ZuoFu || s == StarName::YouBi
            || s == StarName::WenChang || s == StarName::WenQu),
        spec_star_category(s) == StarCategory::Major <==> !(s == StarName::ZuoFu || s == StarName::YouBi
            || s == StarName::WenChang || s == StarName::WenQu),
{
}

/// Month, day and hour are accepted exactly when the month is 0 to 11 (正月 = 0), the day
/// 1 to 30 and the hour 0 to 11 (子 = 0); the first field out of range, in that order,
/// names the error.
pub proof fn law_month_day_hour_ranges(month: u8, day: u8, hour: u8)
    ensures
        spec_month_day_hour_error(month, day, hour) is None <==> month <= 11 && 1 <= day <= 30 && hour <= 11,
        month > 11 ==> spec_month_day_hour_error(month, day, hour) == Some(ZiweiInputError::MonthOutOfRange { value: month }),
        month <= 11 && (day < 1 || day > 30) ==> spec_month_day_hour_error(month, day, hour)
            == Some(ZiweiInputError::DayOutOfRange { value: day }),
        month <= 11 && 1 <= day <= 30 && hour > 11 ==> spec_month_day_hour_error(month, day, hour)
            == Some(ZiweiInputError::HourOutOfRange { value: hour }),
{
}

/// A birth record is accepted exactly when its month, day and hour are in range and its
/// lunar year is at most 2147483523; a raw input exactly when its month, day and hour
/// are in range and its stem and branch positions have the same parity.
pub proof fn law_birth_data_accepted(year: i32, stem: Stem, branch: Branch, month: u8, day: u8, hour: u8)
    ensures
        spec_birth_error(year, month, day, hour) is None
            <==> month <= 11 && 1 <= day <= 30 && hour <= 11 && year <= 2147483523,
        month <= 11 && 1 <= day <= 30 && hour <= 11 && year > 2147483523 ==> spec_birth_error(year, month, day, hour)
            == Some(ZiweiInputError::YearOutOfRange { value: year }),
        spec_input_error(stem, branch, month, day, hour) is None
            <==> month <= 11 && 1 <= day <= 30 && hour <= 11 && (stem.idx() + branch.idx()) % 2 == 0,
        month <= 11 && 1 <= day <= 30 && hour <= 11 && (stem.idx() + branch.idx()) % 2 == 1
            ==> spec_input_error(stem, branch, month, day, hour) == Some(ZiweiInputError::InvalidYearPillar { stem, branch }),
{
}

/// The periods run forward exactly when the polarity of the birth stem (甲, 丙, 戊, 庚,
/// 壬 are yang) agrees with the gender (male is yang): yang stem with a man or yin stem
/// with a woman.
pub proof fn law_period_direction(gender: Gender, stem: Stem)
    ensures
        DecadeDirection::spec_from_birth_facts(gender, stem) == DecadeDirection::Forward
            <==> ((stem == Stem::Jia || stem == Stem::Bing || stem == Stem::Wu || stem == Stem::Geng || stem == Stem::Ren)
                == (gender == Gender::Yang)),
{
}

/// The bureau numbers: 水二 2, 木三 3, 金四 4, 土五 5, 火六 6.
pub proof fn law_bureau_numbers()
    ensures
        FiveElementBureau::WaterTwo.spec_number() == 2,
        FiveElementBureau::WoodThree.spec_number() == 3,
        FiveElementBureau::MetalFour.spec_number() == 4,
        FiveElementBureau::EarthFive.spec_number() == 5,
        FiveElementBureau::FireSix.spec_number() == 6,
{
}

/// The transformation table (四化): for each birth stem, the stars it transforms with
/// 禄, 权, 科 and 忌.
pub proof fn law_transformation_table()
    ensures
        Stem::Jia.spec_transformation_star(Transformation::A) == StarName::LianZhen,
        Stem::Jia.spec_transformation_star(Transformation::B) == StarName::PoJun,
        Stem::Jia.spec_transformation_star(Transformation::C) == StarName::WuQu,
        Stem::Jia.spec_transformation_star(Transformation::D) == StarName::TaiYang,
        Stem::Yi.spec_transformation_star(Transformation::A) == StarName::TianJi,
        Stem::Yi.spec_transformation_star(Transformation::B) == StarName::TianLiang,
        Stem::Yi.spec_transformation_star(Transformation::C) == StarName::ZiWei,
        Stem::Yi.spec_transformation_star(Transformation::D) == StarName::TaiYin,
        Stem::Bing.spec_transformation_star(Transformation::A) == StarName::TianTong,
        Stem::Bing.spec_transformation_star(Transformation::B) == StarName::TianJi,
        Stem::Bing.spec_transformation_star(Transformation::C) == StarName::WenChang,
        Stem::Bing.spec_transformation_star(Transformation::D) == StarName::LianZhen,
        Stem::Ding.spec_transformation_star(Transformation::A) == StarName::TaiYin,
        Stem::Ding.spec_transformation_star(Transformation::B) == StarName::TianTong,
        Stem::Ding.spec_transformation_star(Transformation::C) == StarName::TianJi,
        Stem::Ding.spec_transformation_star(Transformation::D) == StarName::JuMen,
        Stem::Wu.spec_transformation_star(Transformation::A) == StarName::TanLang,
        Stem::Wu.spec_transformation_star(Transformation::B) == StarName::TaiYin,
        Stem::Wu.spec_transformation_star(Transformation::C) == StarName::YouBi,
        Stem::Wu.spec_transformation_star(Transformation::D) == StarName::TianJi,
        Stem::Ji.spec_transformation_star(Transformation::A) == StarName::WuQu,
        Stem::Ji.spec_transformation_star(Transformation::B) == StarName::TanLang,
        Stem::Ji.spec_transformation_star(Transformation::C) == StarName::TianLiang,
        Stem::Ji.spec_transformation_star(Transformation::D) == StarName::WenQu,
        Stem::Geng.spec_transformation_star(Transformation::A) == StarName::TaiYang,
        Stem::Geng.spec_transformation_star(Transformation::B) == StarName::WuQu,
        Stem::Geng.spec_transformation_star(Transformation::C) == StarName::TaiYin,
        Stem::Geng.spec_transformation_star(Transformation::D) == StarName::TianTong,
        Stem::Xin.spec_transformation_star(Transformation::A) == StarName::JuMen,
        Stem::Xin.spec_transformation_star(Transformation::B) == StarName::TaiYang,
        Stem::Xin.spec_transformation_star(Transformation::C) == StarName::WenQu,
        Stem::Xin.spec_transformation_star(Transformation::D) == StarName::WenChang,
        Stem::Ren.spec_transformation_star(Transformation::A) == StarName::TianLiang,
        Stem::Ren.spec_transformation_star(Transformation::B) == StarName::ZiWei,
        Stem::Ren.spec_transformation_star(Transformation::C) == StarName::ZuoFu,
        Stem::Ren.spec_transformation_star(Transformation::D) == StarName::WuQu,
        Stem::Gui.spec_transformation_star(Transformation::A) == StarName::PoJun,
        Stem::Gui.spec_transformation_star(Transformation::B) == StarName::JuMen,
        Stem::Gui.spec_transformation_star(Transformation::C) == StarName::TaiYin,
        Stem::Gui.spec_transformation_star(Transformation::D) == StarName::TanLang,
{
}

/// The origin palace (来因宫) of each birth stem.
pub proof fn law_origin_palaces()
    ensures
        Stem::Jia.spec_origin_palace_branch() == Branch::Xu,
        Stem::Yi.spec_origin_palace_branch() == Branch::You,
        Stem::Bing.spec_origin_palace_branch() == Branch::Shen,
        Stem::Ding.spec_origin_palace_branch() == Branch::Wei,
        Stem::Wu.spec_origin_palace_branch() == Branch::Wu,
        Stem::Ji.spec_origin_palace_branch() == Branch::Si,
        Stem::Geng.spec_origin_palace_branch() == Branch::Chen,
        Stem::Xin.spec_origin_palace_branch() == Branch::Mao,
        Stem::Ren.spec_origin_palace_branch() == Branch::Yin,
        Stem::Gui.spec_origin_palace_branch() == Branch::Hai,
{
}

/// The zodiac animal of each birth-year branch.
pub proof fn law_zodiac_animals()
    ensures
        Zodiac::spec_from_branch(Branch::Zi) == Zodiac::Rat,
        Zodiac::spec_from_branch(Branch::Chou) == Zodiac::Ox,
        Zodiac::spec_from_branch(Branch::Yin) == Zodiac::Tiger,
        Zodiac::spec_from_branch(Branch::Mao) == Zodiac::Rabbit,
        Zodiac::spec_from_branch(Branch::Chen) == Zodiac::Dragon,
        Zodiac::spec_from_branch(Branch::Si) == Zodiac::Snake,
        Zodiac::spec_from_branch(Branch::Wu) == Zodiac::Horse,
        Zodiac::spec_from_branch(Branch::Wei) == Zodiac::Goat,
        Zodiac::spec_from_branch(Branch::Shen) == Zodiac::Monkey,
        Zodiac::spec_from_branch(Branch::You) == Zodiac::Rooster,
        Zodiac::spec_from_branch(Branch::Xu) == Zodiac::Dog,
        Zodiac::spec_from_branch(Branch::Hai) == Zodiac::Pig,
{
}

/// The five-tiger rule (五虎遁): the 寅 palace of a birth stem at position `i` (甲 = 0)
/// takes the stem at position `2 i + 2` modulo ten, so 甲 and 己 start at 丙, 乙 and 庚
/// at 戊, 丙 and 辛 at 庚, 丁 and 壬 at 壬, 戊 and 癸 at 甲; the stems run on around the
/// ring from there.
pub proof fn law_five_tigers(stem: Stem, b: Branch)
    ensures
        stem.spec_yin_head_stem().idx() == (2 * stem.idx() + 2) % 10,
        spec_palace_stem(stem, b).idx() == (2 * stem.idx() + 2 + (b.idx() + 10) % 12) % 10,
{
    crate::stem::lemma_stem_at(stem.spec_yin_head_stem().idx() + b.yin0());
}

/// The star rules on the ring counted from 子 = 0: 左辅 at 辰 moved forward by the month,
/// 右弼 at 戌 moved back by the month, 文昌 at 戌 moved back by the hour, 文曲 at 辰 moved
/// forward by the hour; the 紫微 series stands behind 紫微 by 1 (天机), 3 (太阳),
/// 4 (武曲), 5 (天同) and 8 (廉贞); the 天府 series ahead of 天府 by 1 (太阴), 2 (贪狼),
/// 3 (巨门), 4 (天相), 5 (天梁), 6 (七杀) and 10 (破军); 天府 mirrors 紫微 about the
/// 寅–申 axis.
pub proof fn law_star_rules(day: int, bureau_number: int, month: int, hour: int)
    ensures
        spec_star_branch(StarName::ZuoFu, day, bureau_number, month, hour).idx() == (month + 4) % 12,
        spec_star_branch(StarName::YouBi, day, bureau_number, month, hour).idx() == (10 - month) % 12,
        spec_star_branch(StarName::WenChang, day, bureau_number, month, hour).idx() == (10 - hour) % 12,
        spec_star_branch(StarName::WenQu, day, bureau_number, month, hour).idx() == (4 + hour) % 12,
        spec_star_branch(StarName::TianJi, day, bureau_number, month, hour).idx()
            == (spec_star_branch(StarName::ZiWei, day, bureau_number, month, hour).idx() - 1) % 12,
        spec_star_branch(StarName::TaiYang, day, bureau_number, month, hour).idx()
            == (spec_star_branch(StarName::ZiWei, day, bureau_number, month, hour).idx() - 3) % 12,
        spec_star_branch(StarName::WuQu, day, bureau_number, month, hour).idx()
            == (spec_star_branch(StarName::ZiWei, day, bureau_number, month, hour).idx() - 4) % 12,
        spec_star_branch(StarName::TianTong, day, bureau_number, month, hour).idx()
            == (spec_star_branch(StarName::ZiWei, day, bureau_number, month, hour).idx() - 5) % 12,
        spec_star_branch(StarName::LianZhen, day, bureau_number, month, hour).idx()
            == (spec_star_branch(StarName::ZiWei, day, bureau_number, month, hour).idx() - 8) % 12,
        spec_star_branch(StarName::TaiYin, day, bureau_number, month, hour).idx()
            == (spec_star_branch(StarName::TianFu, day, bureau_number, month, hour).idx() + 1) % 12,
        spec_star_branch(StarName::TanLang, day, bureau_number, month, hour).idx()
            == (spec_star_branch(StarName::TianFu, day, bureau_number, month, hour).idx() + 2) % 12,
        spec_star_branch(StarName::JuMen, day, bureau_number, month, hour).idx()
            == (spec_star_branch(StarName::TianFu, day, bureau_number, month, hour).idx() + 3) % 12,
        spec_star_branch(StarName::TianXiang, day, bureau_number, month, hour).idx()
            == (spec_star_branch(StarName::TianFu, day, bureau_number, month, hour).idx() + 4) % 12,
        spec_star_branch(StarName::TianLiang, day, bureau_number, month, hour).idx()
            == (spec_star_branch(StarName::TianFu, day, bureau_number, month, hour).idx() + 5) % 12,
        spec_star_branch(StarName::QiSha, day, bureau_number, month, hour).idx()
            == (spec_star_branch(StarName::TianFu, day, bureau_number, month, hour).idx() + 6) % 12,
        spec_star_branch(StarName::PoJun, day, bureau_number, month, hour).idx()
            == (spec_star_branch(StarName::TianFu, day, bureau_number, month, hour).idx() + 10) % 12,
        (spec_star_branch(StarName::TianFu, day, bureau_number, month, hour).idx()
            + spec_star_branch(StarName::ZiWei, day, bureau_number, month, hour).idx()) % 12 == 4,
{
    let z = spec_zi_wei_yin0(day, bureau_number);
    let t = spec_tian_fu_yin0(z);
    lemma_branch_index(Branch::Zi, month + 4);
    lemma_branch_index(Branch::Zi, 10 - month);
    lemma_branch_index(Branch::Zi, 10 - hour);
    lemma_branch_index(Branch::Zi, 4 + hour);
    lemma_branch_index(Branch::Zi, z + 2);
    lemma_branch_index(Branch::Zi, t + 2);
    lemma_branch_index(Branch::Zi, z + 1);
    lemma_branch_index(Branch::Zi, z - 1);
    lemma_branch_index(Branch::Zi, z - 2);
    lemma_branch_index(Branch::Zi, z - 3);
    lemma_branch_index(Branch::Zi, z - 6);
    lemma_add_mod_noop_right(-1, z + 2, 12);
    lemma_add_mod_noop_right(-3, z + 2, 12);
    lemma_add_mod_noop_right(-4, z + 2, 12);
    lemma_add_mod_noop_right(-5, z + 2, 12);
    lemma_add_mod_noop_right(-8, z + 2, 12);
    lemma_branch_index(Branch::Zi, t + 3);
    lemma_branch_index(Branch::Zi, t + 4);
    lemma_branch_index(Branch::Zi, t + 5);
    lemma_branch_index(Branch::Zi, t + 6);
    lemma_branch_index(Branch::Zi, t + 7);
    lemma_branch_index(Branch::Zi, t + 8);
    lemma_branch_index(Branch::Zi, t + 12);
    lemma_add_mod_noop_right(1, t + 2, 12);
    lemma_add_mod_noop_right(2, t + 2, 12);
    lemma_add_mod_noop_right(3, t + 2, 12);
    lemma_add_mod_noop_right(4, t + 2, 12);
    lemma_add_mod_noop_right(5, t + 2, 12);
    lemma_add_mod_noop_right(6, t + 2, 12);
    lemma_add_mod_noop_right(10, t + 2, 12);
    lemma_add_mod_noop(t + 2, z + 2, 12);
    lemma_add_mod_noop_right(z + 4, -z, 12);
}

/// 紫微 by the lunar day and the bureau number `n`: with `q` the day divided by `n`
/// rounded up and `s = q n - day` the shortfall, 紫微 stands at 寅 moved forward by
/// `q - 1`, then back by `s` when `s` is odd and forward by `s` when it is even (子 = 0,
/// so 寅 is 2).
pub proof fn law_zi_wei_rule(day: int, n: int, month: int, hour: int)
    requires
        1 <= day <= 30,
        2 <= n <= 6,
    ensures
        spec_star_branch(StarName::ZiWei, day, n, month, hour).idx() == ({
            let q = (day + n - 1) / n;
            let s = q * n - day;
            (q + 1 + if s % 2 == 1 { -s } else { s }) % 12
        }),
{
    let q = (day + n - 1) / n;
    let sh = q * n - day;
    let signed = if sh == 0 { 0 } else if sh % 2 == 1 { -sh } else { sh };
    lemma_branch_index(Branch::Zi, (q - 1 + signed) % 12 + 2);
    lemma_add_mod_noop_right(2, q - 1 + signed, 12);
}

/// The year pillar of a lunar year: the stem at `(year - 4) mod 10` and the branch at
/// `(year - 4) mod 12`, so that 1984 is 甲子.
pub proof fn law_year_pillar(year: int)
    ensures
        spec_stem_from_year(year).idx() == (year - 4) % 10,
        spec_branch_from_year(year).idx() == (year - 4) % 12,
        spec_stem_from_year(1984) == Stem::Jia,
        spec_branch_from_year(1984) == Branch::Zi,
{
    crate::stem::lemma_stem_at(year - 4);
    lemma_branch_index(Branch::Zi, year - 4);
    crate::stem::lemma_stem_at(1980);
    lemma_branch_index(Branch::Zi, 1980);
}

} // verus!
