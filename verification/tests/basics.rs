//! Birth data validation, ring coordinates, catalogues, tables and labels.

use ziwei::chart::layout::place_eighteen_stars;
use ziwei::chart::{Palace as ChartPalace, PalaceRole, PalaceRoleLabel, SelfTransformation, Star, StarLabel, ZiweiFly};
use ziwei::decade::build_decades;
use ziwei::input::{branch_from_year, representative_year, stem_from_year};
use ziwei::placement::{
    compute_major_star_branches, compute_minor_star_branches,
    build_chang_qu_by_hour, build_major_branches_by_zi_wei_yin0, build_zi_wei_yin0_by_bureau_day,
    build_zuo_you_by_month, compute_ming_palace_branch, compute_palace_placements, compute_palace_stems,
    compute_shen_palace_branch, compute_star_branches,
};
use ziwei::chart::DecadeYearsError;
use ziwei::placement::PalacePlacement;
use ziwei::transformation_facts::TransformationFacts;
use ziwei::year_transformation::build_year_transformations;
use ziwei::position::{branch_from_yin0, branch_index_to_yin0, twelve_index, yin0_to_branch_index};
use ziwei::{
    Branch, DecadeDirection, DecadeIndex, DecadeYear, FiveElementBureau, Gender, PalaceName, StarName, Stem,
    Transformation, ZiweiBirth, ZiweiInput, ZiweiInputError, Zodiac,
};

#[test]
fn ziwei_birth_holds_flat_lunar_fields() {
    let birth = ZiweiBirth::try_new(Gender::Yang, 2024, 0, 1, 0).expect("合法出生");

    assert_eq!(birth.gender(), Gender::Yang);
    assert_eq!(birth.year(), 2024);
    assert_eq!(birth.month(), 0);
    assert_eq!(birth.day(), 1);
    assert_eq!(birth.hour(), 0);
}

#[test]
fn birth_try_new_rejects_out_of_range_fields() {
    assert_eq!(ZiweiBirth::try_new(Gender::Yang, 2000, 12, 1, 0), Err(ZiweiInputError::MonthOutOfRange { value: 12 }));
    assert_eq!(ZiweiBirth::try_new(Gender::Yang, 2000, 0, 0, 0), Err(ZiweiInputError::DayOutOfRange { value: 0 }));
    assert_eq!(ZiweiBirth::try_new(Gender::Yang, 2000, 0, 1, 12), Err(ZiweiInputError::HourOutOfRange { value: 12 }));
    assert!(ZiweiBirth::try_new(Gender::Yin, -100, 0, 1, 0).is_ok());
}

#[test]
fn try_new_accepts_raw_seeds_within_range() {
    let input = ZiweiInput::try_new(Gender::Yang, Stem::Jia, Branch::Zi, 0, 1, 11).expect("合法原始量应通过");

    assert_eq!(input.month(), 0);
    assert_eq!(input.day(), 1);
    assert_eq!(input.hour(), 11);
    assert_eq!(input.birth_stem(), Stem::Jia);
    assert_eq!(input.birth_branch(), Branch::Zi);
}

#[test]
fn try_new_rejects_out_of_range_fields() {
    assert_eq!(
        ZiweiInput::try_new(Gender::Yang, Stem::Jia, Branch::Zi, 12, 1, 0),
        Err(ZiweiInputError::MonthOutOfRange { value: 12 })
    );
    assert_eq!(
        ZiweiInput::try_new(Gender::Yang, Stem::Jia, Branch::Zi, 0, 0, 0),
        Err(ZiweiInputError::DayOutOfRange { value: 0 })
    );
    assert_eq!(
        ZiweiInput::try_new(Gender::Yang, Stem::Jia, Branch::Zi, 0, 31, 0),
        Err(ZiweiInputError::DayOutOfRange { value: 31 })
    );
    assert_eq!(
        ZiweiInput::try_new(Gender::Yang, Stem::Jia, Branch::Zi, 0, 1, 12),
        Err(ZiweiInputError::HourOutOfRange { value: 12 })
    );
}

#[test]
fn try_new_rejects_invalid_year_pillar() {
    assert!(ZiweiInput::try_new(Gender::Yang, Stem::Jia, Branch::Yin, 0, 1, 0).is_ok());
    assert_eq!(
        ZiweiInput::try_new(Gender::Yang, Stem::Jia, Branch::Chou, 0, 1, 0),
        Err(ZiweiInputError::InvalidYearPillar { stem: Stem::Jia, branch: Branch::Chou })
    );
}

#[test]
fn representative_year_round_trips_jia_zi() {
    assert_eq!(representative_year(Stem::Jia, Branch::Zi), 4);
    let year: i32 = 1984;
    let stem = Stem::from_index((year - 4).rem_euclid(10) as u8);
    let branch = Branch::from_index((year - 4).rem_euclid(12) as u8);
    let rep = representative_year(stem, branch);
    assert_eq!((rep - 4).rem_euclid(10), (year - 4).rem_euclid(10));
    assert_eq!((rep - 4).rem_euclid(12), (year - 4).rem_euclid(12));
}

#[test]
fn year_pillar_handles_the_full_i32_range() {
    for year in [i32::MIN, i32::MIN + 1, i32::MAX - 1, i32::MAX] {
        let shifted = i64::from(year) - 4;
        assert_eq!(stem_from_year(year).index(), shifted.rem_euclid(10) as usize);
        assert_eq!(branch_from_year(year).index(), shifted.rem_euclid(12) as usize);
    }
}

#[test]
fn input_error_messages_name_the_rejected_values() {
    assert_eq!(ZiweiInputError::MonthOutOfRange { value: 12 }.message(), "month must be within 0..=11, got 12");
    assert_eq!(ZiweiInputError::DayOutOfRange { value: 31 }.message(), "day must be within 1..=30, got 31");
    assert_eq!(ZiweiInputError::HourOutOfRange { value: 200 }.message(), "hour must be within 0..=11, got 200");
    assert_eq!(
        ZiweiInputError::InvalidYearPillar { stem: Stem::Jia, branch: Branch::Chou }.message(),
        "year stem and branch do not form a sexagenary pair (stem index 0, branch index 1)"
    );
    assert_eq!(
        ZiweiInputError::YearOutOfRange { value: i32::MAX }.message(),
        "lunar year must be at most 2147483523 so that every decade year fits, got 2147483647"
    );
}

#[test]
fn folds_positive_and_negative_offsets_into_the_twelve_palace_range() {
    assert_eq!(twelve_index(0), 0);
    assert_eq!(twelve_index(11), 11);
    assert_eq!(twelve_index(12), 0);
    assert_eq!(twelve_index(-1), 11);
    assert_eq!(twelve_index(-12), 0);
    assert_eq!(twelve_index(25), 1);
}

#[test]
fn accepts_the_full_i32_range() {
    assert_eq!(twelve_index(i32::MIN), 4);
    assert_eq!(twelve_index(i32::MAX), 7);
}

#[test]
fn conversions_round_trip_all_twelve_positions() {
    for branch_index in 0..12u8 {
        let yin0 = branch_index_to_yin0(branch_index);

        assert_eq!(yin0_to_branch_index(yin0), branch_index);
        assert_eq!(branch_from_yin0(yin0).index(), usize::from(branch_index));
    }
}

#[test]
fn coordinate_conversions_round_trip_all_twelve_positions() {
    for branch_index in 0..12u8 {
        let yin0 = branch_index_to_yin0(branch_index);

        assert_eq!(yin0_to_branch_index(yin0), branch_index);
        assert_eq!(branch_from_yin0(yin0).index(), usize::from(branch_index));
    }
}

#[test]
fn palace_contains_role_branch_and_stem() {
    let palace = ChartPalace::new(PalaceRole::Ming, Branch::Zi, Stem::Jia);

    assert_eq!(palace.role(), PalaceRole::Ming);
    assert_eq!(palace.branch(), Branch::Zi);
    assert_eq!(palace.stem(), Stem::Jia);
}

#[test]
fn labels_match_the_confirmed_twelve_palace_catalog() {
    let expected = [
        (PalaceRole::Ming, "命宫", "大命", "流命", "命宮", "大命", "流命"),
        (PalaceRole::XiongDi, "兄弟", "大兄", "流兄", "兄弟", "大兄", "流兄"),
        (PalaceRole::FuQi, "夫妻", "大夫", "流夫", "夫妻", "大夫", "流夫"),
        (PalaceRole::ZiNv, "子女", "大子", "流子", "子女", "大子", "流子"),
        (PalaceRole::CaiBo, "财帛", "大财", "流财", "財帛", "大財", "流財"),
        (PalaceRole::JiE, "疾厄", "大疾", "流疾", "疾厄", "大疾", "流疾"),
        (PalaceRole::QianYi, "迁移", "大迁", "流迁", "遷移", "大遷", "流遷"),
        (PalaceRole::JiaoYou, "交友", "大友", "流友", "交友", "大友", "流友"),
        (PalaceRole::GuanLu, "官禄", "大官", "流官", "官祿", "大官", "流官"),
        (PalaceRole::TianZhai, "田宅", "大田", "流田", "田宅", "大田", "流田"),
        (PalaceRole::FuDe, "福德", "大福", "流福", "福德", "大福", "流福"),
        (PalaceRole::FuMu, "父母", "大父", "流父", "父母", "大父", "流父"),
    ];

    for (index, (role, name, decade, yearly, hant_name, hant_decade, hant_yearly)) in expected.into_iter().enumerate() {
        assert_eq!(role.index(), index);
        assert_eq!(PalaceRole::ALL[index], role);
        assert_eq!(role.simplified_chinese(), PalaceRoleLabel { name, decade, yearly });
        assert_eq!(
            role.traditional_chinese(),
            PalaceRoleLabel { name: hant_name, decade: hant_decade, yearly: hant_yearly }
        );
    }
}

#[test]
fn labels_match_the_confirmed_eighteen_star_catalog() {
    let expected = [
        (Star::ZiWei, "紫微", "紫", "紫微", "紫"),
        (Star::TaiYang, "太阳", "阳", "太陽", "陽"),
        (Star::WuQu, "武曲", "武", "武曲", "武"),
        (Star::TianTong, "天同", "同", "天同", "同"),
        (Star::LianZhen, "廉贞", "廉", "廉貞", "廉"),
        (Star::TianJi, "天机", "机", "天機", "機"),
        (Star::TaiYin, "太阴", "阴", "太陰", "陰"),
        (Star::TanLang, "贪狼", "贪", "貪狼", "貪"),
        (Star::JuMen, "巨门", "巨", "巨門", "巨"),
        (Star::TianLiang, "天梁", "梁", "天梁", "梁"),
        (Star::PoJun, "破军", "破", "破軍", "破"),
        (Star::QiSha, "七杀", "杀", "七殺", "殺"),
        (Star::TianXiang, "天相", "相", "天相", "相"),
        (Star::TianFu, "天府", "府", "天府", "府"),
        (Star::ZuoFu, "左辅", "左", "左輔", "左"),
        (Star::YouBi, "右弼", "右", "右弼", "右"),
        (Star::WenChang, "文昌", "昌", "文昌", "昌"),
        (Star::WenQu, "文曲", "曲", "文曲", "曲"),
    ];

    for (star, hans_name, hans_abbreviation, hant_name, hant_abbreviation) in expected {
        assert_eq!(star.simplified_chinese(), StarLabel { name: hans_name, abbreviation: hans_abbreviation });
        assert_eq!(star.traditional_chinese(), StarLabel { name: hant_name, abbreviation: hant_abbreviation });
    }
}

#[test]
fn laiyin_branches_match_the_confirmed_stem_mapping() {
    let expected = [
        (Stem::Jia, Branch::Xu),
        (Stem::Yi, Branch::You),
        (Stem::Bing, Branch::Chen),
        (Stem::Ding, Branch::Wei),
        (Stem::Wu, Branch::Wu),
        (Stem::Ji, Branch::Si),
        (Stem::Geng, Branch::Chen),
        (Stem::Xin, Branch::Mao),
        (Stem::Ren, Branch::Yin),
        (Stem::Gui, Branch::Hai),
    ];

    for (stem, branch) in expected {
        assert_eq!(stem.laiyin_branch(), branch);
    }
}

#[test]
fn stem_origin_palace_branches_match_the_confirmed_stem_mapping() {
    let expected = [
        (Stem::Jia, Branch::Xu),
        (Stem::Yi, Branch::You),
        (Stem::Bing, Branch::Shen),
        (Stem::Ding, Branch::Wei),
        (Stem::Wu, Branch::Wu),
        (Stem::Ji, Branch::Si),
        (Stem::Geng, Branch::Chen),
        (Stem::Xin, Branch::Mao),
        (Stem::Ren, Branch::Yin),
        (Stem::Gui, Branch::Hai),
    ];

    for (stem, branch) in expected {
        assert_eq!(stem.origin_palace_branch(), branch);
    }
}

#[test]
fn stem_transformation_stars_match_the_confirmed_stem_mapping() {
    let expected = [
        (Stem::Jia, [Star::LianZhen, Star::PoJun, Star::WuQu, Star::TaiYang]),
        (Stem::Yi, [Star::TianJi, Star::TianLiang, Star::ZiWei, Star::TaiYin]),
        (Stem::Bing, [Star::TianTong, Star::TianJi, Star::WenChang, Star::LianZhen]),
        (Stem::Ding, [Star::TaiYin, Star::TianTong, Star::TianJi, Star::JuMen]),
        (Stem::Wu, [Star::TanLang, Star::TaiYin, Star::YouBi, Star::TianJi]),
        (Stem::Ji, [Star::WuQu, Star::TanLang, Star::TianLiang, Star::WenQu]),
        (Stem::Geng, [Star::TaiYang, Star::WuQu, Star::TaiYin, Star::TianTong]),
        (Stem::Xin, [Star::JuMen, Star::TaiYang, Star::WenQu, Star::WenChang]),
        (Stem::Ren, [Star::TianLiang, Star::ZiWei, Star::ZuoFu, Star::WuQu]),
        (Stem::Gui, [Star::PoJun, Star::JuMen, Star::TaiYin, Star::TanLang]),
    ];
    let transformations = [Transformation::A, Transformation::B, Transformation::C, Transformation::D];

    for (stem, stars) in expected {
        for (transformation, star) in transformations.into_iter().zip(stars) {
            assert_eq!(stem.transformation_star(transformation), star);
        }
    }
}

#[test]
fn labels_match_the_confirmed_four_transformations() {
    let expected = [
        (Transformation::A, "禄", "祿", 0),
        (Transformation::B, "权", "權", 1),
        (Transformation::C, "科", "科", 2),
        (Transformation::D, "忌", "忌", 3),
    ];

    for (transformation, hans, hant, index) in expected {
        assert_eq!(transformation.simplified_chinese(), hans);
        assert_eq!(transformation.traditional_chinese(), hant);
        assert_eq!(transformation.index(), index);
    }
}

#[test]
fn transformation_order_matches_table_indices() {
    for (index, transformation) in Transformation::ALL.into_iter().enumerate() {
        assert_eq!(transformation.index(), index);
    }
}

#[test]
fn zodiac_mapping_follows_the_twelve_branches() {
    let expected = [
        Zodiac::Rat,
        Zodiac::Ox,
        Zodiac::Tiger,
        Zodiac::Rabbit,
        Zodiac::Dragon,
        Zodiac::Snake,
        Zodiac::Horse,
        Zodiac::Goat,
        Zodiac::Monkey,
        Zodiac::Rooster,
        Zodiac::Dog,
        Zodiac::Pig,
    ];

    for (index, zodiac) in expected.into_iter().enumerate() {
        let index = u8::try_from(index).expect("twelve zodiacs fit in u8");
        assert_eq!(Zodiac::from_branch(Branch::from_index(index)), zodiac);
    }
}

#[test]
fn decade_index_accepts_only_twelve_steps() {
    assert_eq!(DecadeIndex::try_new(0), Ok(DecadeIndex::first()));
    assert_eq!(DecadeIndex::try_from(11).map(DecadeIndex::get), Ok(11));
    assert_eq!(DecadeIndex::try_new(12).map_err(|error| error.value()), Err(12));
    assert_eq!(DecadeIndex::try_new(u8::MAX).map_err(|error| error.value()), Err(u8::MAX));
}

#[test]
fn decade_index_accepts_only_twelve_values() {
    assert_eq!(DecadeIndex::try_new(0), Ok(DecadeIndex::first()));
    assert_eq!(DecadeIndex::try_from(11).map(DecadeIndex::get), Ok(11));
    assert_eq!(DecadeIndex::try_new(12).map_err(|error| error.value()), Err(12));
}

#[test]
fn decade_index_error_exposes_invalid_value() {
    let error = DecadeIndex::try_new(12).expect_err("第十三步应被拒绝");

    assert_eq!(error.value(), 12);
    assert_eq!(error.message(), "大限序号须为 0..=11，实际为 12");
}

#[test]
fn decades_store_ten_years_or_ten_ages() {
    let (_, with_years) = build_decades(Gender::Yang, Stem::Jia, Some(2000), Branch::Zi, 2);
    let (_, without_years) = build_decades(Gender::Yang, Stem::Jia, None, Branch::Zi, 2);

    assert_eq!(with_years[0].years()[0], DecadeYear::new(Some(2001), 2));
    assert_eq!(with_years[11].age_end(), 121);
    assert!(without_years.iter().all(|decade| decade.years().iter().all(|year| year.year().is_none())));

    let (_, upper_boundary) = build_decades(Gender::Yang, Stem::Jia, Some(i32::MAX - 124), Branch::Zi, 6);
    assert_eq!(upper_boundary[11].years()[9].year(), Some(i32::MAX));
}

#[test]
fn direction_matches_every_stem_and_gender_pair() {
    let stems = [
        Stem::Jia,
        Stem::Yi,
        Stem::Bing,
        Stem::Ding,
        Stem::Wu,
        Stem::Ji,
        Stem::Geng,
        Stem::Xin,
        Stem::Ren,
        Stem::Gui,
    ];

    for stem in stems {
        for gender in [Gender::Yang, Gender::Yin] {
            let expected = if stem.is_yang() == gender.is_yang() {
                DecadeDirection::Forward
            } else {
                DecadeDirection::Reverse
            };
            assert_eq!(DecadeDirection::from_birth_facts(gender, stem), expected);
        }
    }
}

#[test]
fn table_matches_the_confirmed_life_palace_rule() {
    let stem_groups = [
        [Stem::Jia, Stem::Yi],
        [Stem::Bing, Stem::Ding],
        [Stem::Wu, Stem::Ji],
        [Stem::Geng, Stem::Xin],
        [Stem::Ren, Stem::Gui],
    ];
    let branch_groups = [
        [Branch::Zi, Branch::Chou],
        [Branch::Yin, Branch::Mao],
        [Branch::Chen, Branch::Si],
        [Branch::Wu, Branch::Wei],
        [Branch::Shen, Branch::You],
        [Branch::Xu, Branch::Hai],
    ];
    let (metal_four, water_two, fire_six, earth_five, wood_three) = (
        FiveElementBureau::MetalFour,
        FiveElementBureau::WaterTwo,
        FiveElementBureau::FireSix,
        FiveElementBureau::EarthFive,
        FiveElementBureau::WoodThree,
    );
    let expected = [
        [metal_four, water_two, fire_six, metal_four, water_two, fire_six],
        [water_two, fire_six, earth_five, water_two, fire_six, earth_five],
        [fire_six, earth_five, wood_three, fire_six, earth_five, wood_three],
        [earth_five, wood_three, metal_four, earth_five, wood_three, metal_four],
        [wood_three, metal_four, water_two, wood_three, metal_four, water_two],
    ];

    for (stem_index, stems) in stem_groups.iter().enumerate() {
        for (branch_index, branches) in branch_groups.iter().enumerate() {
            for stem in stems {
                for branch in branches {
                    assert_eq!(FiveElementBureau::from_ming_palace(*stem, *branch), expected[stem_index][branch_index]);
                }
            }
        }
    }
}

#[test]
fn numbers_match_the_confirmed_bureaus() {
    let expected = [
        (FiveElementBureau::WaterTwo, 2),
        (FiveElementBureau::WoodThree, 3),
        (FiveElementBureau::MetalFour, 4),
        (FiveElementBureau::EarthFive, 5),
        (FiveElementBureau::FireSix, 6),
    ];

    for (bureau, number) in expected {
        assert_eq!(bureau.number(), number);
    }
}

#[test]
fn five_element_bureau_has_confirmed_values() {
    assert_eq!(
        [
            FiveElementBureau::WaterTwo.number(),
            FiveElementBureau::WoodThree.number(),
            FiveElementBureau::MetalFour.number(),
            FiveElementBureau::EarthFive.number(),
            FiveElementBureau::FireSix.number(),
        ],
        [2, 3, 4, 5, 6]
    );
}

#[test]
fn constructor_stores_self_transformation() {
    let out = ZiweiFly::new(Branch::Zi, Transformation::A, Branch::Zi, Star::ZiWei);
    let inward = ZiweiFly::new(Branch::Zi, Transformation::A, Branch::Wu, Star::ZiWei);
    let none = ZiweiFly::new(Branch::Zi, Transformation::A, Branch::Chou, Star::ZiWei);

    assert_eq!(out.self_transformation(), SelfTransformation::Out);
    assert_eq!(inward.self_transformation(), SelfTransformation::In);
    assert_eq!(none.self_transformation(), SelfTransformation::Neither);
    assert_eq!(out.source_branch(), Branch::Zi);
    assert_eq!(inward.target_branch(), Branch::Wu);
    assert_eq!(none.star(), Star::ZiWei);
    assert_eq!(none.transformation(), Transformation::A);
}

#[test]
fn tianfu_is_yin_shen_mirror_of_ziwei_for_all_offsets() {
    for day in 1..=30u8 {
        for bureau_n in [2u8, 3, 4, 5, 6] {
            let stars = place_eighteen_stars(0, 0, day, bureau_n);
            let z = branch_index_to_yin0(stars[Star::ZiWei.index()].index() as u8);
            let t = branch_index_to_yin0(stars[Star::TianFu.index()].index() as u8);
            assert_eq!(t, twelve_index(-(i32::from(z))), "day={day} n={bureau_n}");
        }
    }
}

const BUREAUS: [FiveElementBureau; 5] = [
    FiveElementBureau::WaterTwo,
    FiveElementBureau::WoodThree,
    FiveElementBureau::MetalFour,
    FiveElementBureau::EarthFive,
    FiveElementBureau::FireSix,
];

fn yin0(offset: i32) -> Branch {
    branch_from_yin0(offset.rem_euclid(12) as u8)
}

fn compute_star_branches_by_formula(day: u8, bureau: FiveElementBureau, month: u8, hour: u8) -> [Branch; 18] {
    let bureau_number = i32::from(bureau.number());
    let day = i32::from(day);
    let ceiling_quotient = (day + bureau_number - 1) / bureau_number;
    let shortfall = ceiling_quotient * bureau_number - day;
    let signed_shortfall = match shortfall {
        0 => 0,
        value if value.rem_euclid(2) == 1 => -value,
        value => value,
    };
    let zi_wei_yin0 = ((ceiling_quotient - 1) + signed_shortfall).rem_euclid(12);
    let tian_fu_yin0 = (-zi_wei_yin0).rem_euclid(12);

    let mut branches_by_star = [Branch::Zi; 18];
    for (star_name, offset) in [
        (StarName::ZiWei, 0),
        (StarName::TianJi, 1),
        (StarName::TaiYang, 3),
        (StarName::WuQu, 4),
        (StarName::TianTong, 5),
        (StarName::LianZhen, 8),
    ] {
        branches_by_star[star_name.index()] = yin0(zi_wei_yin0 - offset);
    }
    for (star_name, offset) in [
        (StarName::TianFu, 0),
        (StarName::TaiYin, 1),
        (StarName::TanLang, 2),
        (StarName::JuMen, 3),
        (StarName::TianXiang, 4),
        (StarName::TianLiang, 5),
        (StarName::QiSha, 6),
        (StarName::PoJun, 10),
    ] {
        branches_by_star[star_name.index()] = yin0(tian_fu_yin0 + offset);
    }
    branches_by_star[StarName::ZuoFu.index()] = yin0(2 + i32::from(month));
    branches_by_star[StarName::YouBi.index()] = yin0(8 - i32::from(month));
    branches_by_star[StarName::WenChang.index()] = yin0(8 - i32::from(hour));
    branches_by_star[StarName::WenQu.index()] = yin0(2 + i32::from(hour));
    branches_by_star
}

#[test]
fn placement_palace_stems_follow_five_tiger_escape_for_every_year_stem_and_branch() {
    let branches_from_yin_to_chou = [
        Branch::Yin,
        Branch::Mao,
        Branch::Chen,
        Branch::Si,
        Branch::Wu,
        Branch::Wei,
        Branch::Shen,
        Branch::You,
        Branch::Xu,
        Branch::Hai,
        Branch::Zi,
        Branch::Chou,
    ];
    let five_tiger_cases = [
        (
            [Stem::Jia, Stem::Ji],
            [Stem::Bing, Stem::Ding, Stem::Wu, Stem::Ji, Stem::Geng, Stem::Xin, Stem::Ren, Stem::Gui, Stem::Jia, Stem::Yi, Stem::Bing, Stem::Ding],
        ),
        (
            [Stem::Yi, Stem::Geng],
            [Stem::Wu, Stem::Ji, Stem::Geng, Stem::Xin, Stem::Ren, Stem::Gui, Stem::Jia, Stem::Yi, Stem::Bing, Stem::Ding, Stem::Wu, Stem::Ji],
        ),
        (
            [Stem::Bing, Stem::Xin],
            [Stem::Geng, Stem::Xin, Stem::Ren, Stem::Gui, Stem::Jia, Stem::Yi, Stem::Bing, Stem::Ding, Stem::Wu, Stem::Ji, Stem::Geng, Stem::Xin],
        ),
        (
            [Stem::Ding, Stem::Ren],
            [Stem::Ren, Stem::Gui, Stem::Jia, Stem::Yi, Stem::Bing, Stem::Ding, Stem::Wu, Stem::Ji, Stem::Geng, Stem::Xin, Stem::Ren, Stem::Gui],
        ),
        (
            [Stem::Wu, Stem::Gui],
            [Stem::Jia, Stem::Yi, Stem::Bing, Stem::Ding, Stem::Wu, Stem::Ji, Stem::Geng, Stem::Xin, Stem::Ren, Stem::Gui, Stem::Jia, Stem::Yi],
        ),
    ];

    for (birth_stems, expected_stems_from_yin_to_chou) in five_tiger_cases {
        for birth_stem in birth_stems {
            let actual_stems_by_branch = compute_palace_stems(birth_stem);

            for (branch, expected_stem) in branches_from_yin_to_chou.into_iter().zip(expected_stems_from_yin_to_chou) {
                assert_eq!(
                    actual_stems_by_branch[branch.index()],
                    expected_stem,
                    "birth_stem={birth_stem:?} branch={branch:?}"
                );
            }
        }
    }
}

#[test]
fn placement_tian_fu_mirrors_zi_wei_for_every_supported_day_and_bureau() {
    for day in 1..=30u8 {
        for bureau in BUREAUS {
            let star_branches = compute_star_branches(day, bureau, 0, 0);
            let zi_wei_yin0 = branch_index_to_yin0(
                u8::try_from(star_branches[StarName::ZiWei.index()].index()).expect("branch index fits in u8"),
            );
            let tian_fu_yin0 = branch_index_to_yin0(
                u8::try_from(star_branches[StarName::TianFu.index()].index()).expect("branch index fits in u8"),
            );
            assert_eq!(tian_fu_yin0, (-i32::from(zi_wei_yin0)).rem_euclid(12) as u8, "day={day} bureau={bureau:?}");
        }
    }
}

#[test]
fn placement_palace_placements_include_each_name_and_branch_once() {
    let palace_stems_by_branch = compute_palace_stems(Stem::Jia);
    let placements_by_branch = compute_palace_placements(Branch::Zi, &palace_stems_by_branch);

    for name in PalaceName::ALL {
        assert_eq!(placements_by_branch.iter().filter(|placement| placement.name == name).count(), 1);
    }
    for branch_index in 0..12u8 {
        assert_eq!(placements_by_branch[usize::from(branch_index)].branch.index(), usize::from(branch_index));
    }
}

#[test]
fn palace_branch_formulas_cover_all_month_hours() {
    for month in 0..12u8 {
        for hour in 0..12u8 {
            assert_eq!(compute_ming_palace_branch(month, hour), yin0(i32::from(month) - i32::from(hour)));
            assert_eq!(compute_shen_palace_branch(month, hour), yin0(i32::from(month) + i32::from(hour)));
        }
    }
}

#[test]
fn ming_shen_branches_follow_all_month_hour_formulas() {
    for month in 0..12u8 {
        for hour in 0..12u8 {
            let both = ziwei::placement::compute_ming_shen_branches(month, hour);
            assert_eq!(both.ming_palace, yin0(i32::from(month) - i32::from(hour)));
            assert_eq!(both.shen_palace, yin0(i32::from(month) + i32::from(hour)));
        }
    }
}

#[test]
fn placement_minor_star_branches_follow_all_month_hour_formulas() {
    for month in 0..12u8 {
        for hour in 0..12u8 {
            let star_branches = compute_star_branches(1, FiveElementBureau::WaterTwo, month, hour);

            assert_eq!(star_branches[StarName::ZuoFu.index()], yin0(2 + i32::from(month)));
            assert_eq!(star_branches[StarName::YouBi.index()], yin0(8 - i32::from(month)));
            assert_eq!(star_branches[StarName::WenChang.index()], yin0(8 - i32::from(hour)));
            assert_eq!(star_branches[StarName::WenQu.index()], yin0(2 + i32::from(hour)));
        }
    }
}

#[test]
fn lookup_tables_match_formula_for_every_supported_input() {
    let zi_wei = build_zi_wei_yin0_by_bureau_day();
    let majors = build_major_branches_by_zi_wei_yin0();
    let zuo_you = build_zuo_you_by_month();
    let chang_qu = build_chang_qu_by_hour();
    for (row, bureau) in BUREAUS.into_iter().enumerate() {
        for day in 1..=30u8 {
            for month in 0..12u8 {
                for hour in 0..12u8 {
                    let expected = compute_star_branches_by_formula(day, bureau, month, hour);
                    assert_eq!(
                        compute_star_branches(day, bureau, month, hour),
                        expected,
                        "day={day} bureau={bureau:?} month={month} hour={hour}"
                    );
                    let mut tabulated = majors[usize::from(zi_wei[row][usize::from(day - 1)])];
                    tabulated[StarName::ZuoFu.index()] = zuo_you[usize::from(month)][0];
                    tabulated[StarName::YouBi.index()] = zuo_you[usize::from(month)][1];
                    tabulated[StarName::WenChang.index()] = chang_qu[usize::from(hour)][0];
                    tabulated[StarName::WenQu.index()] = chang_qu[usize::from(hour)][1];
                    assert_eq!(tabulated, expected);
                }
            }
        }
    }
}

#[test]
fn year_transformations_follow_the_birth_stem_row() {
    let branches: [Branch; 18] = core::array::from_fn(|i| Branch::all()[i % 12]);
    let facts = build_year_transformations(Stem::Jia, &branches);
    let expected = [
        (Transformation::A, StarName::LianZhen, Branch::Si),
        (Transformation::B, StarName::PoJun, Branch::Chou),
        (Transformation::C, StarName::WuQu, Branch::Mao),
        (Transformation::D, StarName::TaiYang, Branch::Yin),
    ];
    for (fact, (transformation, star, branch)) in facts.iter().zip(expected) {
        assert_eq!(fact.transformation(), transformation);
        assert_eq!(fact.star(), star);
        assert_eq!(fact.branch(), branch);
    }
}

#[test]
fn transformation_facts_gather_edges_origin_and_self_transformations() {
    let placements: [PalacePlacement; 12] = core::array::from_fn(|b| PalacePlacement {
        name: PalaceName::ALL[b],
        branch: Branch::all()[b],
        stem: Stem::Jia,
    });
    let mut star_branches = [Branch::Zi; 18];
    star_branches[StarName::LianZhen.index()] = Branch::Wu;
    let facts = TransformationFacts::build(Branch::Yin, &placements, &star_branches);

    let edges = facts.palace_transformations(Branch::Zi);
    assert_eq!(edges[0].transformation(), Transformation::A);
    assert_eq!(edges[0].star_name(), StarName::LianZhen);
    assert_eq!(edges[0].target_branch(), Branch::Wu);
    assert_eq!(edges[0].target_name(), PalaceName::ALL[6]);
    assert_eq!(edges[3].star_name(), StarName::TaiYang);
    assert_eq!(edges[3].target_branch(), Branch::Zi);

    assert_eq!(facts.origin_transformation(StarName::LianZhen), Some(Transformation::A));
    assert_eq!(facts.origin_transformation(StarName::TaiYang), Some(Transformation::D));
    assert_eq!(facts.origin_transformation(StarName::ZiWei), None);

    let lian_zhen = facts.self_transformations(StarName::LianZhen);
    assert_eq!(lian_zhen.outward(), Some(Transformation::A));
    assert_eq!(lian_zhen.inward(), Some(Transformation::A));
    let zi_wei = facts.self_transformations(StarName::ZiWei);
    assert_eq!(zi_wei.outward(), None);
    assert_eq!(zi_wei.inward(), None);
}

#[test]
fn decade_years_errors_describe_their_cause() {
    assert_eq!(
        DecadeYearsError::BirthYearUnavailable.message(),
        "真实农历出生年不可用；请使用 Ziwei::from_birth 构造命盘"
    );
    assert_eq!(DecadeYearsError::LunarYearOutOfRange.message(), "大限流年超出 i32 可表示范围");
}

#[test]
fn transformation_stars_match_the_confirmed_stem_mapping() {
    let expected = [
        (Stem::Jia, [Star::LianZhen, Star::PoJun, Star::WuQu, Star::TaiYang]),
        (Stem::Yi, [Star::TianJi, Star::TianLiang, Star::ZiWei, Star::TaiYin]),
        (Stem::Bing, [Star::TianTong, Star::TianJi, Star::WenChang, Star::LianZhen]),
        (Stem::Ding, [Star::TaiYin, Star::TianTong, Star::TianJi, Star::JuMen]),
        (Stem::Wu, [Star::TanLang, Star::TaiYin, Star::YouBi, Star::TianJi]),
        (Stem::Ji, [Star::WuQu, Star::TanLang, Star::TianLiang, Star::WenQu]),
        (Stem::Geng, [Star::TaiYang, Star::WuQu, Star::TaiYin, Star::TianTong]),
        (Stem::Xin, [Star::JuMen, Star::TaiYang, Star::WenQu, Star::WenChang]),
        (Stem::Ren, [Star::TianLiang, Star::ZiWei, Star::ZuoFu, Star::WuQu]),
        (Stem::Gui, [Star::PoJun, Star::JuMen, Star::TaiYin, Star::TanLang]),
    ];
    let transformations = [Transformation::A, Transformation::B, Transformation::C, Transformation::D];

    for (stem, stars) in expected {
        for (transformation, star) in transformations.into_iter().zip(stars) {
            assert_eq!(stem.transformation_star(transformation), star);
        }
    }
}

#[test]
fn palace_stems_follow_five_tiger_escape_for_every_year_stem_and_branch() {
    let branches_from_yin_to_chou = [
        Branch::Yin,
        Branch::Mao,
        Branch::Chen,
        Branch::Si,
        Branch::Wu,
        Branch::Wei,
        Branch::Shen,
        Branch::You,
        Branch::Xu,
        Branch::Hai,
        Branch::Zi,
        Branch::Chou,
    ];
    let five_tiger_cases = [
        (
            [Stem::Jia, Stem::Ji],
            [Stem::Bing, Stem::Ding, Stem::Wu, Stem::Ji, Stem::Geng, Stem::Xin, Stem::Ren, Stem::Gui, Stem::Jia, Stem::Yi, Stem::Bing, Stem::Ding],
        ),
        (
            [Stem::Yi, Stem::Geng],
            [Stem::Wu, Stem::Ji, Stem::Geng, Stem::Xin, Stem::Ren, Stem::Gui, Stem::Jia, Stem::Yi, Stem::Bing, Stem::Ding, Stem::Wu, Stem::Ji],
        ),
        (
            [Stem::Bing, Stem::Xin],
            [Stem::Geng, Stem::Xin, Stem::Ren, Stem::Gui, Stem::Jia, Stem::Yi, Stem::Bing, Stem::Ding, Stem::Wu, Stem::Ji, Stem::Geng, Stem::Xin],
        ),
        (
            [Stem::Ding, Stem::Ren],
            [Stem::Ren, Stem::Gui, Stem::Jia, Stem::Yi, Stem::Bing, Stem::Ding, Stem::Wu, Stem::Ji, Stem::Geng, Stem::Xin, Stem::Ren, Stem::Gui],
        ),
        (
            [Stem::Wu, Stem::Gui],
            [Stem::Jia, Stem::Yi, Stem::Bing, Stem::Ding, Stem::Wu, Stem::Ji, Stem::Geng, Stem::Xin, Stem::Ren, Stem::Gui, Stem::Jia, Stem::Yi],
        ),
    ];

    for (birth_stems, expected_stems_from_yin_to_chou) in five_tiger_cases {
        for birth_stem in birth_stems {
            let actual_stems_by_branch = compute_palace_stems(birth_stem);

            for (branch, expected_stem) in branches_from_yin_to_chou.into_iter().zip(expected_stems_from_yin_to_chou) {
                assert_eq!(
                    actual_stems_by_branch[branch.index()],
                    expected_stem,
                    "birth_stem={birth_stem:?} branch={branch:?}"
                );
            }
        }
    }
}

#[test]
fn palace_placements_include_each_name_and_branch_once() {
    let palace_stems_by_branch = compute_palace_stems(Stem::Jia);
    let placements_by_branch = compute_palace_placements(Branch::Zi, &palace_stems_by_branch);

    for name in PalaceName::ALL {
        assert_eq!(placements_by_branch.iter().filter(|placement| placement.name == name).count(), 1);
    }
    for branch_index in 0..12u8 {
        assert_eq!(placements_by_branch[usize::from(branch_index)].branch.index(), usize::from(branch_index));
    }
}

#[test]
fn tian_fu_mirrors_zi_wei_for_every_supported_day_and_bureau() {
    for day in 1..=30u8 {
        for bureau_number in [2u8, 3, 4, 5, 6] {
            let major_star_branches = compute_major_star_branches(day, bureau_number);
            let zi_wei_yin0 = branch_index_to_yin0(
                u8::try_from(major_star_branches[StarName::ZiWei.index()].index()).expect("branch index fits in u8"),
            );
            let tian_fu_yin0 = branch_index_to_yin0(
                u8::try_from(major_star_branches[StarName::TianFu.index()].index()).expect("branch index fits in u8"),
            );
            assert_eq!(tian_fu_yin0, (-i32::from(zi_wei_yin0)).rem_euclid(12) as u8, "day={day} bureau={bureau_number}");
        }
    }
}

#[test]
fn minor_star_branches_follow_all_month_hour_formulas() {
    for month in 0..12u8 {
        for hour in 0..12u8 {
            let minor_star_branches = compute_minor_star_branches(month, hour);

            assert_eq!(minor_star_branches.zuo_fu, branch_from_yin0((2 + i32::from(month)).rem_euclid(12) as u8));
            assert_eq!(minor_star_branches.you_bi, branch_from_yin0((8 - i32::from(month)).rem_euclid(12) as u8));
            assert_eq!(minor_star_branches.wen_chang, branch_from_yin0((8 - i32::from(hour)).rem_euclid(12) as u8));
            assert_eq!(minor_star_branches.wen_qu, branch_from_yin0((2 + i32::from(hour)).rem_euclid(12) as u8));
        }
    }
}
