//! Properties of the natal chart built from either input.

use ziwei::{
    create_from_birth, create_from_input, Branch, DecadeDirection, DecadeIndex, FiveElementBureau, Gender, Natal,
    Palace, PalaceName, PalaceTransformation, Star, StarName, Stem, Transformation, ZiweiBirth, ZiweiInput,
    ZiweiInputError,
};


fn sample_birth() -> ZiweiBirth {
    ZiweiBirth::try_new(Gender::Yang, 1984, 2, 1, 4).expect("sample birth is valid")
}

fn sample_input() -> ZiweiInput {
    ZiweiInput::try_new(Gender::Yang, Stem::Jia, Branch::Zi, 2, 1, 4)
        .expect("sample input is valid")
}

fn find_star(natal: &Natal, name: StarName) -> (&Palace, &Star) {
    natal
        .palaces()
        .iter()
        .find_map(|palace| {
            palace
                .stars()
                .iter()
                .find(|star| star.name() == name)
                .map(|star| (palace, star))
        })
        .expect("every StarName is placed once")
}

fn all_transformations(natal: &Natal) -> impl Iterator<Item = PalaceTransformation> + '_ {
    natal
        .palaces()
        .iter()
        .flat_map(|palace| palace.transformations().iter().copied())
}

#[test]
fn both_inputs_produce_equivalent_natal_facts() {
    let with_year = create_from_birth(sample_birth());
    let without_year = create_from_input(sample_input());

    assert_eq!(with_year.context().year(), Some(1984));
    assert_eq!(without_year.context().year(), None);
    assert_eq!(with_year.zodiac(), without_year.zodiac());
    assert_eq!(with_year.palaces(), without_year.palaces());
    assert_eq!(
        with_year.ming_palace_branch(),
        without_year.ming_palace_branch()
    );
    assert_eq!(
        with_year.decade_direction(),
        without_year.decade_direction()
    );
    for (with_year_decade, without_year_decade) in
        with_year.decades().iter().zip(without_year.decades())
    {
        assert_eq!(with_year_decade.index(), without_year_decade.index());
        assert_eq!(
            with_year_decade.ming_palace_branch(),
            without_year_decade.ming_palace_branch()
        );
        assert_eq!(
            with_year_decade.years().map(|year| year.age()),
            without_year_decade.years().map(|year| year.age())
        );
    }
}

#[test]
fn palaces_are_yin_zero_and_cover_all_names_and_branches() {
    let natal = create_from_birth(sample_birth());
    let expected = [
        Branch::Yin,
        Branch::Mao,
        Branch::Chen,
        Branch::Si,
        Branch::Wu,
        Branch::Wei,
        Branch::Shen,
        Branch::You,
        Branch::Xu,
        Branch::Hai,
        Branch::Zi,
        Branch::Chou,
    ];

    let actual: Vec<_> = natal.palaces().iter().map(Palace::branch).collect();
    assert_eq!(actual, expected);
    for name in PalaceName::ALL {
        assert_eq!(
            natal
                .palaces()
                .iter()
                .filter(|palace| palace.name() == name)
                .count(),
            1
        );
    }
}

#[test]
fn coordinate_pairs_resolve_to_the_same_palace() {
    let natal = create_from_birth(sample_birth());
    let coordinates = [
        (PalaceName::Ming, natal.ming_palace_branch()),
        (natal.shen_palace_name(), natal.shen_palace_branch()),
        (natal.origin_palace_name(), natal.origin_palace_branch()),
    ];

    assert_eq!(natal.ming_palace_branch(), Branch::Zi);
    assert_eq!(natal.shen_palace_branch(), Branch::Shen);
    for (name, branch) in coordinates {
        assert_eq!(
            natal
                .palaces()
                .iter()
                .filter(|palace| palace.name() == name && palace.branch() == branch)
                .count(),
            1
        );
    }
}

#[test]
fn classical_placement_examples_survive_the_model_rewrite() {
    let cases = [
        (
            ZiweiInput::try_new(Gender::Yang, Stem::Ji, Branch::Chou, 0, 27, 10)
                .expect("valid example"),
            Branch::Chen,
            Branch::Zi,
            FiveElementBureau::WoodThree,
            Branch::Xu,
        ),
        (
            ZiweiInput::try_new(Gender::Yang, Stem::Jia, Branch::Zi, 0, 13, 0)
                .expect("valid example"),
            Branch::Yin,
            Branch::Yin,
            FiveElementBureau::FireSix,
            Branch::Hai,
        ),
        (
            ZiweiInput::try_new(Gender::Yang, Stem::Geng, Branch::Zi, 0, 6, 4)
                .expect("valid example"),
            Branch::Xu,
            Branch::Wu,
            FiveElementBureau::EarthFive,
            Branch::Wei,
        ),
    ];

    for (input, ming, shen, bureau, zi_wei_branch) in cases {
        let natal = create_from_input(input);
        assert_eq!(natal.ming_palace_branch(), ming);
        assert_eq!(natal.shen_palace_branch(), shen);
        assert_eq!(natal.bureau(), bureau);
        assert_eq!(find_star(&natal, StarName::ZiWei).0.branch(), zi_wei_branch);
    }

    let first = create_from_input(cases[0].0);
    assert_eq!(find_star(&first, StarName::ZuoFu).0.branch(), Branch::Chen);
    assert_eq!(find_star(&first, StarName::YouBi).0.branch(), Branch::Xu);
    assert_eq!(find_star(&first, StarName::WenChang).0.branch(), Branch::Zi);
    assert_eq!(find_star(&first, StarName::WenQu).0.branch(), Branch::Yin);
}

#[test]
fn each_star_name_occurs_once_in_stable_palace_order() {
    let natal = create_from_birth(sample_birth());
    let all_names: Vec<_> = natal
        .palaces()
        .iter()
        .flat_map(|palace| palace.stars().iter().map(|star| star.name()))
        .collect();

    assert_eq!(all_names.len(), 18);
    for name in StarName::ALL {
        assert_eq!(
            all_names
                .iter()
                .filter(|candidate| **candidate == name)
                .count(),
            1
        );
    }
    for palace in natal.palaces() {
        let indices: Vec<_> = palace
            .stars()
            .iter()
            .map(|star| star.name().index())
            .collect();
        assert!(indices.windows(2).all(|pair| pair[0] < pair[1]));
    }
}

#[test]
fn origin_transformations_are_stored_once_on_target_stars() {
    let natal = create_from_birth(sample_birth());
    let transformed: Vec<_> = natal
        .palaces()
        .iter()
        .flat_map(|palace| palace.stars())
        .filter_map(|star| star.origin_transformation())
        .collect();

    assert_eq!(transformed.len(), 4);
    for transformation in Transformation::ALL {
        assert_eq!(
            transformed
                .iter()
                .filter(|candidate| **candidate == transformation)
                .count(),
            1
        );
    }
}

#[test]
fn every_palace_transformation_resolves_to_its_target_star() {
    let natal = create_from_birth(sample_birth());

    for palace in natal.palaces() {
        assert_eq!(
            palace.transformations().map(|edge| edge.transformation()),
            Transformation::ALL
        );
        for edge in palace.transformations() {
            assert_eq!(edge.source_name(), palace.name());
            assert_eq!(edge.source_branch(), palace.branch());
            let (target_palace, _) = find_star(&natal, edge.star_name());
            assert_eq!(edge.target_name(), target_palace.name());
            assert_eq!(edge.target_branch(), target_palace.branch());
        }
    }
}

#[test]
fn star_self_transformations_match_palace_relations() {
    let natal = create_from_birth(sample_birth());

    for name in StarName::ALL {
        let (target_palace, star) = find_star(&natal, name);
        let expected_outward = all_transformations(&natal).find_map(|edge| {
            (edge.star_name() == name && edge.source_branch() == target_palace.branch())
                .then_some(edge.transformation())
        });
        let expected_inward = all_transformations(&natal).find_map(|edge| {
            (edge.star_name() == name
                && edge.source_branch().opposite() == target_palace.branch())
            .then_some(edge.transformation())
        });

        assert_eq!(
            star.self_transformations().outward(),
            expected_outward,
            "{name:?} outward"
        );
        assert_eq!(
            star.self_transformations().inward(),
            expected_inward,
            "{name:?} inward"
        );
    }
}

#[test]
fn decades_store_direction_ages_and_optional_years() {
    let with_year = create_from_birth(sample_birth());
    let without_year = create_from_input(sample_input());

    assert_eq!(with_year.decade_direction(), DecadeDirection::Forward);
    assert_eq!(with_year.decades().len(), 12);
    assert_eq!(with_year.decades()[0].index(), DecadeIndex::first());
    assert_eq!(
        with_year.decades()[0].ming_palace_branch(),
        with_year.ming_palace_branch()
    );
    assert!(
        with_year
            .decades()
            .iter()
            .all(|decade| { decade.years().iter().all(|year| year.year().is_some()) })
    );
    assert!(
        without_year
            .decades()
            .iter()
            .all(|decade| { decade.years().iter().all(|year| year.year().is_none()) })
    );

    for decade in with_year.decades() {
        assert_eq!(decade.years().len(), 10);
        assert_eq!(decade.age_end(), decade.age_start() + 9);
        for year in decade.years() {
            assert_eq!(year.year(), Some(1984 + i32::from(year.age()) - 1));
        }
    }
}

#[test]
fn every_birth_stem_preserves_graph_invariants() {
    let year_pillars = [
        (Stem::Jia, Branch::Zi),
        (Stem::Yi, Branch::Chou),
        (Stem::Bing, Branch::Yin),
        (Stem::Ding, Branch::Mao),
        (Stem::Wu, Branch::Chen),
        (Stem::Ji, Branch::Si),
        (Stem::Geng, Branch::Wu),
        (Stem::Xin, Branch::Wei),
        (Stem::Ren, Branch::Shen),
        (Stem::Gui, Branch::You),
    ];

    for (stem, branch) in year_pillars {
        let input = ZiweiInput::try_new(Gender::Yang, stem, branch, 6, 15, 8)
            .expect("year pillar is valid");
        let natal = create_from_input(input);
        let stars: Vec<_> = natal
            .palaces()
            .iter()
            .flat_map(|palace| palace.stars())
            .collect();

        assert_eq!(stars.len(), 18);
        assert_eq!(
            stars
                .iter()
                .filter(|star| star.origin_transformation().is_some())
                .count(),
            4,
            "stem={stem:?}"
        );
        for transformation in Transformation::ALL {
            let star_name = stem.transformation_star(transformation);
            let (_, star) = find_star(&natal, star_name);
            assert_eq!(
                star.origin_transformation(),
                Some(transformation),
                "stem={stem:?}, star={star_name:?}"
            );
        }
        assert_eq!(all_transformations(&natal).count(), 48);
        for edge in all_transformations(&natal) {
            let (target_palace, _) = find_star(&natal, edge.star_name());
            assert_eq!(edge.target_name(), target_palace.name());
            assert_eq!(edge.target_branch(), target_palace.branch());
        }

        let origin_palace = natal
            .palaces()
            .iter()
            .find(|palace| {
                palace.name() == natal.origin_palace_name()
                    && palace.branch() == natal.origin_palace_branch()
            })
            .expect("origin palace is present");
        assert_eq!(origin_palace.stem(), stem, "stem={stem:?}");
        for edge in origin_palace.transformations() {
            let (_, star) = find_star(&natal, edge.star_name());
            assert_eq!(
                star.origin_transformation(),
                Some(edge.transformation()),
                "stem={stem:?}, star={:?}",
                edge.star_name()
            );
        }
    }
}

#[test]
fn gender_reverses_decade_progression_when_yin_yang_differs() {
    let input = ZiweiInput::try_new(Gender::Yin, Stem::Jia, Branch::Zi, 2, 1, 4)
        .expect("sample input is valid");
    let natal = create_from_input(input);

    assert_eq!(natal.decade_direction(), DecadeDirection::Reverse);
    assert_eq!(natal.decades()[0].ming_palace_branch(), Branch::Zi);
    assert_eq!(natal.decades()[1].ming_palace_branch(), Branch::Hai);
}

#[test]
fn invalid_birth_year_is_rejected_during_input_validation() {
    assert_eq!(
        ZiweiBirth::try_new(Gender::Yang, i32::MAX, 0, 1, 0),
        Err(ZiweiInputError::YearOutOfRange { value: i32::MAX })
    );
}

#[test]
fn gender_only_turns_the_periods_around() {
    let yang = create_from_birth(ZiweiBirth::try_new(Gender::Yang, 1984, 2, 1, 4).expect("valid"));
    let yin = create_from_birth(ZiweiBirth::try_new(Gender::Yin, 1984, 2, 1, 4).expect("valid"));

    assert_eq!(yang.palaces(), yin.palaces());
    assert_eq!(yang.zodiac(), yin.zodiac());
    assert_eq!(yang.bureau(), yin.bureau());
    assert_eq!(yang.shen_palace_branch(), yin.shen_palace_branch());
    assert_eq!(yang.origin_palace_branch(), yin.origin_palace_branch());
    assert_eq!(yang.decade_direction(), DecadeDirection::Forward);
    assert_eq!(yin.decade_direction(), DecadeDirection::Reverse);
    for i in 0..12 {
        assert_eq!(
            yang.decades()[i].ming_palace_branch(),
            yin.decades()[(12 - i) % 12].ming_palace_branch()
        );
        assert_eq!(yang.decades()[i].years(), yin.decades()[i].years());
    }
    assert_eq!(yin.decades()[11].ming_palace_branch(), Branch::Chou);
    assert_eq!(yin.bureau(), FiveElementBureau::WaterTwo);
    assert_eq!(yin.decades()[0].years()[0].year(), Some(1984 + 2 - 1));
}

#[test]
fn palaces_run_from_yin_with_names_counted_backward_from_ming() {
    let natal = create_from_birth(sample_birth());
    let ming = natal.ming_palace_branch().index();
    for (k, palace) in natal.palaces().iter().enumerate() {
        assert_eq!(palace.branch().index(), (k + 2) % 12);
        assert_eq!(palace.name().index(), (ming + 12 - (k + 2) % 12) % 12);
    }
    assert_eq!(natal.palaces()[0].stem(), Stem::Bing);
    assert_eq!(natal.palaces()[11].stem(), Stem::Ding);
}

#[test]
fn four_stars_carry_a_birth_transformation_and_no_palace_holds_more_than_six() {
    for year in 1984..1996 {
        for hour in 0..12u8 {
            let natal = create_from_birth(ZiweiBirth::try_new(Gender::Yin, year, 3, 9, hour).expect("valid"));
            let transformed = natal
                .palaces()
                .iter()
                .flat_map(|palace| palace.stars().iter())
                .filter(|star| star.origin_transformation().is_some())
                .count();
            assert_eq!(transformed, 4);
            let total: usize = natal.palaces().iter().map(|palace| palace.stars().len()).sum();
            assert_eq!(total, 18);
            assert!(natal.palaces().iter().all(|palace| palace.stars().len() <= 6));
        }
    }
}
