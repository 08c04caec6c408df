//! Domain values: duties and their scopes, period indices and ages, birth profiles,
//! palaces, stars, layout rules and error messages.

use ziwei::domain::luck::{
    Decade, DecadeAge, DecadeIndex as LuckDecadeIndex, DecadeYear as LuckDecadeYear, Yearly, YearlyIndex,
};
use ziwei::domain::rules::{compute_ming_shen_branches, compute_natal_palace_names, compute_palace_stems};
use ziwei::domain::{
    BirthDay, BirthMonth, Gender as DomainGender, Natal as DomainNatal, Palace as DomainPalace, PalaceKey, PalaceScope,
    Profile, SelfTransformations, Star as DomainStar, StarKey, StarType,
};
use ziwei::star::{star_category, star_galaxy};
use ziwei::{
    Branch, FiveElementBureau, PalaceName, Star, StarCategory, StarGalaxy, StarName, StarSelfTransformations, Stem,
    Transformation, ZiweiError, Zodiac,
};

#[test]
fn decade_holds_confirmed_palace_name_and_localized_names() {
    let expected = [
        (PalaceName::Ming, "大命", "大命"),
        (PalaceName::XiongDi, "大兄", "大兄"),
        (PalaceName::FuQi, "大夫", "大夫"),
        (PalaceName::ZiNv, "大子", "大子"),
        (PalaceName::CaiBo, "大财", "大財"),
        (PalaceName::JiE, "大疾", "大疾"),
        (PalaceName::QianYi, "大迁", "大遷"),
        (PalaceName::JiaoYou, "大友", "大友"),
        (PalaceName::GuanLu, "大官", "大官"),
        (PalaceName::TianZhai, "大田", "大田"),
        (PalaceName::FuDe, "大福", "大福"),
        (PalaceName::FuMu, "大父", "大父"),
    ];

    for (name, name_hans, name_hant) in expected {
        let decade = Decade::new(name);

        assert_eq!(decade.name(), name);
        assert_eq!(decade.name_hans(), name_hans);
        assert_eq!(decade.name_hant(), name_hant);
    }
}

#[test]
fn yearly_holds_confirmed_palace_name_and_localized_names() {
    let expected = [
        (PalaceName::Ming, "流命", "流命"),
        (PalaceName::XiongDi, "流兄", "流兄"),
        (PalaceName::FuQi, "流夫", "流夫"),
        (PalaceName::ZiNv, "流子", "流子"),
        (PalaceName::CaiBo, "流财", "流財"),
        (PalaceName::JiE, "流疾", "流疾"),
        (PalaceName::QianYi, "流迁", "流遷"),
        (PalaceName::JiaoYou, "流友", "流友"),
        (PalaceName::GuanLu, "流官", "流官"),
        (PalaceName::TianZhai, "流田", "流田"),
        (PalaceName::FuDe, "流福", "流福"),
        (PalaceName::FuMu, "流父", "流父"),
    ];

    for (name, name_hans, name_hant) in expected {
        let yearly = Yearly::new(name);

        assert_eq!(yearly.name(), name);
        assert_eq!(yearly.name_hans(), name_hans);
        assert_eq!(yearly.name_hant(), name_hant);
    }
}

fn check_decade_index_accepts_confirmed_range() {
    for value in [0, 6, 11] {
        let index = LuckDecadeIndex::try_from(value).expect("范围内大限序号必须有效");

        assert_eq!(index.get(), value);
    }
}

fn check_decade_index_rejects_values_outside_confirmed_range() {
    let expected = [
        (12, ZiweiError::InvalidDecadeIndex { value: 12 }),
        (u8::MAX, ZiweiError::InvalidDecadeIndex { value: u8::MAX }),
    ];

    for (value, error) in expected {
        assert_eq!(LuckDecadeIndex::try_from(value), Err(error));
    }
}

fn check_decade_age_follows_the_confirmed_bureau_and_position_rule() {
    let expected = [
        (FiveElementBureau::WaterTwo, 0, 2, 11),
        (FiveElementBureau::WoodThree, 0, 3, 12),
        (FiveElementBureau::MetalFour, 0, 4, 13),
        (FiveElementBureau::EarthFive, 0, 5, 14),
        (FiveElementBureau::FireSix, 0, 6, 15),
        (FiveElementBureau::FireSix, 11, 116, 125),
    ];

    for (bureau, position, start, end) in expected {
        let age = DecadeAge::new(bureau, position);

        assert_eq!(age.start(), start);
        assert_eq!(age.end(), end);
    }
}

fn check_decade_year_holds_confirmed_age_and_optional_year() {
    let expected = [(2, Some(1992)), (11, Some(2001)), (12, None)];

    for (age, year) in expected {
        let decade_year = LuckDecadeYear::new(age, year);

        assert_eq!(decade_year.age(), age);
        assert_eq!(decade_year.year(), year);
    }
}

fn check_yearly_index_accepts_confirmed_range() {
    for value in [0, 5, 9] {
        let index = YearlyIndex::try_from(value).expect("范围内流年序号必须有效");

        assert_eq!(index.get(), value);
    }
}

fn check_yearly_index_rejects_values_outside_confirmed_range() {
    let expected = [
        (10, ZiweiError::InvalidYearlyIndex { value: 10 }),
        (u8::MAX, ZiweiError::InvalidYearlyIndex { value: u8::MAX }),
    ];

    for (value, error) in expected {
        assert_eq!(YearlyIndex::try_from(value), Err(error));
    }
}

#[test]
fn luck_decade_index_accepts_confirmed_range() {
    check_decade_index_accepts_confirmed_range();
}

#[test]
fn luck_decade_index_rejects_values_outside_confirmed_range() {
    check_decade_index_rejects_values_outside_confirmed_range();
}

#[test]
fn luck_decade_age_follows_the_confirmed_bureau_and_position_rule() {
    check_decade_age_follows_the_confirmed_bureau_and_position_rule();
}

#[test]
fn luck_decade_year_holds_confirmed_age_and_optional_year() {
    check_decade_year_holds_confirmed_age_and_optional_year();
}

#[test]
fn luck_yearly_index_accepts_confirmed_range() {
    check_yearly_index_accepts_confirmed_range();
}

#[test]
fn luck_yearly_index_rejects_values_outside_confirmed_range() {
    check_yearly_index_rejects_values_outside_confirmed_range();
}

#[test]
fn period_decade_index_accepts_confirmed_range() {
    check_decade_index_accepts_confirmed_range();
}

#[test]
fn period_decade_index_rejects_values_outside_confirmed_range() {
    check_decade_index_rejects_values_outside_confirmed_range();
}

#[test]
fn period_decade_age_follows_the_confirmed_bureau_and_position_rule() {
    check_decade_age_follows_the_confirmed_bureau_and_position_rule();
}

#[test]
fn period_decade_year_holds_confirmed_age_and_optional_year() {
    check_decade_year_holds_confirmed_age_and_optional_year();
}

#[test]
fn period_yearly_index_accepts_confirmed_range() {
    check_yearly_index_accepts_confirmed_range();
}

#[test]
fn period_yearly_index_rejects_values_outside_confirmed_range() {
    check_yearly_index_rejects_values_outside_confirmed_range();
}

fn domain_palace(name: PalaceName, branch: Branch, position: u8) -> DomainPalace {
    DomainPalace::new(name, branch, Stem::Jia, Vec::new(), DecadeAge::new(FiveElementBureau::WaterTwo, position))
}

#[test]
fn natal_holds_the_confirmed_natal_facts() {
    let profile = Profile::new(
        Some(1992),
        DomainGender::Female,
        Stem::Ren,
        Branch::Shen,
        BirthMonth::try_from(8).expect("范围内月份必须有效"),
        Branch::Shen,
        Some(BirthDay::try_from(15).expect("范围内日期必须有效")),
    );
    let natal = DomainNatal::new(
        profile,
        Zodiac::Monkey,
        FiveElementBureau::WaterTwo,
        [
            domain_palace(PalaceName::Ming, Branch::Yin, 0),
            domain_palace(PalaceName::XiongDi, Branch::Mao, 1),
            domain_palace(PalaceName::FuQi, Branch::Chen, 2),
            domain_palace(PalaceName::ZiNv, Branch::Si, 3),
            domain_palace(PalaceName::CaiBo, Branch::Wu, 4),
            domain_palace(PalaceName::JiE, Branch::Wei, 5),
            domain_palace(PalaceName::QianYi, Branch::Shen, 6),
            domain_palace(PalaceName::JiaoYou, Branch::You, 7),
            domain_palace(PalaceName::GuanLu, Branch::Xu, 8),
            domain_palace(PalaceName::TianZhai, Branch::Hai, 9),
            domain_palace(PalaceName::FuDe, Branch::Zi, 10),
            domain_palace(PalaceName::FuMu, Branch::Chou, 11),
        ],
        Branch::Yin,
        PalaceName::FuQi,
        Branch::Chen,
        PalaceName::GuanLu,
        Branch::Xu,
        PalaceName::Ming,
        Branch::Yin,
    );

    assert_eq!(natal.profile(), &profile);
    assert_eq!(natal.zodiac(), Zodiac::Monkey);
    assert_eq!(natal.five_element_bureau(), FiveElementBureau::WaterTwo);
    assert_eq!(natal.palaces().len(), 12);
    assert_eq!(natal.palaces()[0].name(), PalaceName::Ming);
    assert_eq!(natal.palaces()[0].branch(), Branch::Yin);
    assert_eq!(natal.palaces()[11].name(), PalaceName::FuMu);
    assert_eq!(natal.palaces()[11].branch(), Branch::Chou);
    assert_eq!(natal.ming_palace_branch(), Branch::Yin);
    assert_eq!(natal.shen_palace_name(), PalaceName::FuQi);
    assert_eq!(natal.shen_palace_branch(), Branch::Chen);
    assert_eq!(natal.origin_palace_name(), PalaceName::GuanLu);
    assert_eq!(natal.origin_palace_branch(), Branch::Xu);
    assert_eq!(natal.ziwei_palace_name(), PalaceName::Ming);
    assert_eq!(natal.ziwei_branch(), Branch::Yin);

    let expected = [
        (Branch::Yin, PalaceName::Ming),
        (Branch::Mao, PalaceName::XiongDi),
        (Branch::Chen, PalaceName::FuQi),
        (Branch::Si, PalaceName::ZiNv),
        (Branch::Wu, PalaceName::CaiBo),
        (Branch::Wei, PalaceName::JiE),
        (Branch::Shen, PalaceName::QianYi),
        (Branch::You, PalaceName::JiaoYou),
        (Branch::Xu, PalaceName::GuanLu),
        (Branch::Hai, PalaceName::TianZhai),
        (Branch::Zi, PalaceName::FuDe),
        (Branch::Chou, PalaceName::FuMu),
    ];

    for (branch, name) in expected {
        assert_eq!(natal.palace(branch).name(), name);
        assert_eq!(natal.palace_by_name(name).branch(), branch);
    }

    assert_eq!(natal.ming_palace().name(), PalaceName::Ming);
    assert_eq!(natal.shen_palace().name(), PalaceName::FuQi);
    assert_eq!(natal.origin_palace().name(), PalaceName::GuanLu);
    assert_eq!(natal.ziwei_palace().name(), PalaceName::Ming);
}

#[test]
fn palace_name_all_follows_confirmed_natal_order() {
    assert_eq!(
        PalaceName::ALL,
        [
            PalaceName::Ming,
            PalaceName::XiongDi,
            PalaceName::FuQi,
            PalaceName::ZiNv,
            PalaceName::CaiBo,
            PalaceName::JiE,
            PalaceName::QianYi,
            PalaceName::JiaoYou,
            PalaceName::GuanLu,
            PalaceName::TianZhai,
            PalaceName::FuDe,
            PalaceName::FuMu,
        ]
    );
}

#[test]
fn palace_palace_holds_confirmed_natal_facts() {
    let palace = DomainPalace::new(
        PalaceName::Ming,
        Branch::Yin,
        Stem::Jia,
        vec![DomainStar::new(
            StarKey::ZiWei,
            StarCategory::Major,
            StarGalaxy::Central,
            None,
            SelfTransformations::new(None, None),
        )],
        DecadeAge::new(FiveElementBureau::WaterTwo, 0),
    );

    assert_eq!(palace.key(), PalaceKey::Ming);
    assert_eq!(palace.scope(), PalaceScope::Natal(PalaceKey::Ming));
    assert_eq!(palace.branch(), Branch::Yin);
    assert_eq!(palace.stem(), Stem::Jia);
    assert_eq!(palace.stars().len(), 1);
    assert_eq!(palace.stars()[0].key(), StarKey::ZiWei);
    assert_eq!(palace.star(StarKey::ZiWei).map(DomainStar::key), Some(StarKey::ZiWei));
    assert_eq!(palace.star(StarKey::TianJi), None);
    assert_eq!(palace.decade_age().start(), 2);
    assert_eq!(palace.decade_age().end(), 11);
}

#[test]
fn palace_provides_confirmed_natal_names() {
    let expected = [
        (PalaceName::Ming, "命宫", "命宮"),
        (PalaceName::XiongDi, "兄弟", "兄弟"),
        (PalaceName::FuQi, "夫妻", "夫妻"),
        (PalaceName::ZiNv, "子女", "子女"),
        (PalaceName::CaiBo, "财帛", "財帛"),
        (PalaceName::JiE, "疾厄", "疾厄"),
        (PalaceName::QianYi, "迁移", "遷移"),
        (PalaceName::JiaoYou, "交友", "交友"),
        (PalaceName::GuanLu, "官禄", "官祿"),
        (PalaceName::TianZhai, "田宅", "田宅"),
        (PalaceName::FuDe, "福德", "福德"),
        (PalaceName::FuMu, "父母", "父母"),
    ];

    for (name, name_hans, name_hant) in expected {
        let palace = DomainPalace::new(
            name,
            Branch::Yin,
            Stem::Jia,
            Vec::new(),
            DecadeAge::new(FiveElementBureau::WaterTwo, 0),
        );

        assert_eq!(palace.name(), name);
        assert_eq!(palace.name_hans(), name_hans);
        assert_eq!(palace.name_hant(), name_hant);
    }
}

#[test]
fn palace_scope_provides_confirmed_palace_key_and_names() {
    let names = [
        (PalaceKey::Ming, ["命宫", "命宮", "大命", "大命", "流命", "流命"]),
        (PalaceKey::XiongDi, ["兄弟", "兄弟", "大兄", "大兄", "流兄", "流兄"]),
        (PalaceKey::FuQi, ["夫妻", "夫妻", "大夫", "大夫", "流夫", "流夫"]),
        (PalaceKey::ZiNv, ["子女", "子女", "大子", "大子", "流子", "流子"]),
        (PalaceKey::CaiBo, ["财帛", "財帛", "大财", "大財", "流财", "流財"]),
        (PalaceKey::JiE, ["疾厄", "疾厄", "大疾", "大疾", "流疾", "流疾"]),
        (PalaceKey::QianYi, ["迁移", "遷移", "大迁", "大遷", "流迁", "流遷"]),
        (PalaceKey::JiaoYou, ["交友", "交友", "大友", "大友", "流友", "流友"]),
        (PalaceKey::GuanLu, ["官禄", "官祿", "大官", "大官", "流官", "流官"]),
        (PalaceKey::TianZhai, ["田宅", "田宅", "大田", "大田", "流田", "流田"]),
        (PalaceKey::FuDe, ["福德", "福德", "大福", "大福", "流福", "流福"]),
        (PalaceKey::FuMu, ["父母", "父母", "大父", "大父", "流父", "流父"]),
    ];

    for (key, [natal_hans, natal_hant, decade_hans, decade_hant, yearly_hans, yearly_hant]) in names {
        for (scope, name_hans, name_hant) in [
            (PalaceScope::Natal(key), natal_hans, natal_hant),
            (PalaceScope::Decade(key), decade_hans, decade_hant),
            (PalaceScope::Yearly(key), yearly_hans, yearly_hant),
        ] {
            let expected_key = match scope {
                PalaceScope::Natal(key) | PalaceScope::Decade(key) | PalaceScope::Yearly(key) => key,
            };

            assert_eq!(scope.palace_key(), expected_key);
            assert_eq!(scope.name_hans(), name_hans);
            assert_eq!(scope.name_hant(), name_hant);
        }
    }
}

#[test]
fn star_holds_the_confirmed_natal_facts() {
    let star = DomainStar::new(
        StarKey::ZiWei,
        StarCategory::Major,
        StarGalaxy::Central,
        Some(Transformation::A),
        SelfTransformations::new(Some(Transformation::D), None),
    );

    assert_eq!(star.key(), StarKey::ZiWei);
    assert_eq!(star.name_hans(), "紫微");
    assert_eq!(star.name_hant(), "紫微");
    assert_eq!(star.abbr_hans(), "紫");
    assert_eq!(star.abbr_hant(), "紫");
    assert_eq!(star.category(), StarCategory::Major);
    assert_eq!(star.galaxy(), StarGalaxy::Central);
    assert_eq!(star.birth_transformation(), Some(Transformation::A));
    assert_eq!(star.self_transformations().inward(), Some(Transformation::D));
    assert_eq!(star.self_transformations().outward(), None);
}

#[test]
fn star_key_has_confirmed_order() {
    let expected = [
        StarKey::ZiWei,
        StarKey::TianJi,
        StarKey::TaiYang,
        StarKey::WuQu,
        StarKey::TianTong,
        StarKey::LianZhen,
        StarKey::TianFu,
        StarKey::TaiYin,
        StarKey::TanLang,
        StarKey::JuMen,
        StarKey::TianXiang,
        StarKey::TianLiang,
        StarKey::QiSha,
        StarKey::PoJun,
        StarKey::ZuoFu,
        StarKey::YouBi,
        StarKey::WenChang,
        StarKey::WenQu,
    ];

    assert_eq!(StarKey::ALL, expected);
    for (index, key) in expected.into_iter().enumerate() {
        assert_eq!(key.index(), index);
    }
}

#[test]
fn star_carries_confirmed_hans_and_hant_names() {
    let expected = [
        (StarKey::ZiWei, "紫微", "紫微"),
        (StarKey::TianJi, "天机", "天機"),
        (StarKey::TaiYang, "太阳", "太陽"),
        (StarKey::WuQu, "武曲", "武曲"),
        (StarKey::TianTong, "天同", "天同"),
        (StarKey::LianZhen, "廉贞", "廉貞"),
        (StarKey::TianFu, "天府", "天府"),
        (StarKey::TaiYin, "太阴", "太陰"),
        (StarKey::TanLang, "贪狼", "貪狼"),
        (StarKey::JuMen, "巨门", "巨門"),
        (StarKey::TianXiang, "天相", "天相"),
        (StarKey::TianLiang, "天梁", "天梁"),
        (StarKey::QiSha, "七杀", "七殺"),
        (StarKey::PoJun, "破军", "破軍"),
        (StarKey::ZuoFu, "左辅", "左輔"),
        (StarKey::YouBi, "右弼", "右弼"),
        (StarKey::WenChang, "文昌", "文昌"),
        (StarKey::WenQu, "文曲", "文曲"),
    ];

    for (key, name_hans, name_hant) in expected {
        let star = DomainStar::new(key, StarCategory::Major, StarGalaxy::Central, None, SelfTransformations::new(None, None));

        assert_eq!(star.name_hans(), name_hans);
        assert_eq!(star.name_hant(), name_hant);
    }
}

#[test]
fn star_carries_confirmed_hans_and_hant_abbreviations() {
    let expected = [
        (StarKey::ZiWei, "紫", "紫"),
        (StarKey::TianJi, "机", "機"),
        (StarKey::TaiYang, "阳", "陽"),
        (StarKey::WuQu, "武", "武"),
        (StarKey::TianTong, "同", "同"),
        (StarKey::LianZhen, "廉", "廉"),
        (StarKey::TianFu, "府", "府"),
        (StarKey::TaiYin, "阴", "陰"),
        (StarKey::TanLang, "贪", "貪"),
        (StarKey::JuMen, "巨", "巨"),
        (StarKey::TianXiang, "相", "相"),
        (StarKey::TianLiang, "梁", "梁"),
        (StarKey::QiSha, "杀", "殺"),
        (StarKey::PoJun, "破", "破"),
        (StarKey::ZuoFu, "辅", "輔"),
        (StarKey::YouBi, "弼", "弼"),
        (StarKey::WenChang, "昌", "昌"),
        (StarKey::WenQu, "曲", "曲"),
    ];

    for (key, abbr_hans, abbr_hant) in expected {
        let star = DomainStar::new(key, StarCategory::Major, StarGalaxy::Central, None, SelfTransformations::new(None, None));

        assert_eq!(star.abbr_hans(), abbr_hans);
        assert_eq!(star.abbr_hant(), abbr_hant);
    }
}

#[test]
fn self_transformations_hold_independent_directions() {
    let transformations = SelfTransformations::new(Some(Transformation::A), None);

    assert_eq!(transformations.inward(), Some(Transformation::A));
    assert_eq!(transformations.outward(), None);

    let empty = SelfTransformations::new(None, None);
    assert_eq!(empty.inward(), None);
    assert_eq!(empty.outward(), None);
}

#[test]
fn transformation_has_confirmed_order() {
    let expected = [Transformation::A, Transformation::B, Transformation::C, Transformation::D];

    assert_eq!(Transformation::ALL, expected);

    for (index, transformation) in expected.into_iter().enumerate() {
        assert_eq!(transformation.index(), index);
    }
}

#[test]
fn ming_and_shen_palace_branches_follow_confirmed_counting_directions() {
    let expected = [
        (1, Branch::Zi, Branch::Yin, Branch::Yin),
        (1, Branch::Chou, Branch::Chou, Branch::Mao),
        (6, Branch::Wu, Branch::Chou, Branch::Chou),
        (12, Branch::Hai, Branch::Yin, Branch::Zi),
    ];

    for (month, birth_hour, ming_branch, shen_branch) in expected {
        let birth_month = BirthMonth::try_from(month).expect("测试月份必须有效");

        assert_eq!(compute_ming_shen_branches(birth_month, birth_hour), (ming_branch, shen_branch));
    }
}

#[test]
fn natal_palace_names_are_arranged_counterclockwise_from_ming_palace() {
    let expected_from_yin = [
        PalaceName::Ming,
        PalaceName::FuMu,
        PalaceName::FuDe,
        PalaceName::TianZhai,
        PalaceName::GuanLu,
        PalaceName::JiaoYou,
        PalaceName::QianYi,
        PalaceName::JiE,
        PalaceName::CaiBo,
        PalaceName::ZiNv,
        PalaceName::FuQi,
        PalaceName::XiongDi,
    ];
    let expected_from_zi = [
        PalaceName::FuDe,
        PalaceName::TianZhai,
        PalaceName::GuanLu,
        PalaceName::JiaoYou,
        PalaceName::QianYi,
        PalaceName::JiE,
        PalaceName::CaiBo,
        PalaceName::ZiNv,
        PalaceName::FuQi,
        PalaceName::XiongDi,
        PalaceName::Ming,
        PalaceName::FuMu,
    ];

    assert_eq!(compute_natal_palace_names(Branch::Yin), expected_from_yin);
    assert_eq!(compute_natal_palace_names(Branch::Zi), expected_from_zi);
}

#[test]
fn five_tiger_dun_selects_the_confirmed_group_for_each_birth_stem() {
    let stem_groups = [
        [Stem::Jia, Stem::Ji],
        [Stem::Yi, Stem::Geng],
        [Stem::Bing, Stem::Xin],
        [Stem::Ding, Stem::Ren],
        [Stem::Wu, Stem::Gui],
    ];

    for (group_index, stems) in stem_groups.into_iter().enumerate() {
        for stem in stems {
            assert_eq!(compute_palace_stems(stem), Stem::FIVE_TIGER_DUN_PALACE_STEMS[group_index]);
        }
    }
}

#[test]
fn ziwei_error_formats_confirmed_validation_boundaries() {
    let expected = [
        (ZiweiError::InvalidSexagenaryYear { stem: Stem::Jia, branch: Branch::Chou }, "无效六十甲子：甲丑"),
        (ZiweiError::InvalidLunisolarMonth { value: 13 }, "无效农历月份：13"),
        (ZiweiError::InvalidLunisolarDay { value: 31 }, "无效农历日期：31"),
        (ZiweiError::InvalidDecadeIndex { value: 12 }, "无效大限序号：12"),
        (ZiweiError::InvalidYearlyIndex { value: 10 }, "无效流年序号：10"),
    ];

    for (error, message) in expected {
        assert_eq!(error.message(), message);
    }
}

#[test]
fn star_keys_have_stable_identity_metadata() {
    assert_eq!(StarKey::ALL.len(), 18);
    assert_eq!(StarKey::ZiWei.as_str(), "zi_wei");
    assert_eq!(StarKey::PoJun.galaxy(), Some(StarGalaxy::South));
    assert_eq!(StarKey::TianJi.galaxy(), Some(StarGalaxy::North));
    assert_eq!(StarKey::WenQu.galaxy(), Some(StarGalaxy::Central));
    assert_eq!(StarKey::TianFu.galaxy(), None);
    assert_eq!(StarKey::ZuoFu.star_type(), StarType::Minor);
    assert_eq!(StarKey::QiSha.star_type(), StarType::Major);
}

#[test]
fn star_metadata_is_derived_from_name() {
    assert_eq!(StarName::ALL.len(), 18);
    assert_eq!(star_galaxy(StarName::PoJun), Some(StarGalaxy::South));
    assert_eq!(star_galaxy(StarName::TianJi), Some(StarGalaxy::North));
    assert_eq!(star_galaxy(StarName::WenQu), Some(StarGalaxy::Central));
    assert_eq!(star_galaxy(StarName::TianFu), None);
    assert_eq!(star_category(StarName::ZuoFu), StarCategory::Minor);
    assert_eq!(star_category(StarName::QiSha), StarCategory::Major);
}

#[test]
fn star_placed_star_exposes_only_its_chart_facts() {
    let self_transformations = StarSelfTransformations::new(Some(Transformation::C), Some(Transformation::A));
    let star = Star::new(StarName::ZiWei, StarCategory::Major, Some(StarGalaxy::Central), Some(Transformation::B), self_transformations);

    assert_eq!(star.name(), StarName::ZiWei);
    assert_eq!(star.category(), StarCategory::Major);
    assert_eq!(star.galaxy(), Some(StarGalaxy::Central));
    assert_eq!(star.origin_transformation(), Some(Transformation::B));
    assert_eq!(star.self_transformations(), self_transformations);
}

#[test]
fn palace_holds_confirmed_natal_facts() {
    let palace = DomainPalace::new(
        PalaceName::Ming,
        Branch::Yin,
        Stem::Jia,
        vec![DomainStar::new(
            StarKey::ZiWei,
            StarCategory::Major,
            StarGalaxy::Central,
            None,
            SelfTransformations::new(None, None),
        )],
        DecadeAge::new(FiveElementBureau::WaterTwo, 0),
    );

    assert_eq!(palace.name(), PalaceName::Ming);
    assert_eq!(palace.name_hans(), "命宫");
    assert_eq!(palace.name_hant(), "命宮");
    assert_eq!(palace.branch(), Branch::Yin);
    assert_eq!(palace.stem(), Stem::Jia);
    assert_eq!(palace.stars().len(), 1);
    assert_eq!(palace.stars()[0].key(), StarName::ZiWei);
    assert_eq!(palace.star(StarName::ZiWei).map(DomainStar::key), Some(StarName::ZiWei));
    assert_eq!(palace.star(StarName::TianJi), None);
    assert_eq!(palace.decade_age().start(), 2);
    assert_eq!(palace.decade_age().end(), 11);
}

#[test]
fn profile_is_exported_from_the_crate_root() {
    let profile: Option<ziwei::Profile> = None;

    assert!(profile.is_none());
}
