//! The queryable chart: construction from both inputs, duties under views, stars,
//! transformations, flies and ten-year steps.

use ziwei::chart::{DecadeYearsError, PalaceRole, SelfTransformation, Star, Ziwei, ZiweiView};
use ziwei::input::{branch_from_year, stem_from_year};
use ziwei::position::{branch_from_yin0, branch_index_to_yin0, twelve_index};
use ziwei::{Branch, DecadeIndex, FiveElementBureau, Gender, Stem, Transformation, ZiweiBirth, ZiweiInput, ZiweiInputError};

fn sample_birth_march_chen() -> ZiweiBirth {
    // 三月辰时 → 命子身申；甲子年 1984
    ZiweiBirth::try_new(Gender::Yang, 1984, 2, 1, 4).unwrap()
}

#[test]
fn from_birth_places_ming_and_shen_for_march_chen_hour() {
    let chart = Ziwei::from_birth(sample_birth_march_chen()).expect("应构造成功");

    assert_eq!(chart.branch_of_role(PalaceRole::Ming, ZiweiView::Natal), Some(Branch::Zi));
    assert_eq!(chart.shen_branch(), Branch::Shen);
    assert_eq!(chart.shen_natal_role(), chart.palace_at(Branch::Shen).role());
}

#[test]
fn twelve_palaces_unique_and_roles_reverse_from_ming() {
    let chart = Ziwei::from_birth(sample_birth_march_chen()).unwrap();
    let ming = chart.branch_of_role(PalaceRole::Ming, ZiweiView::Natal).unwrap();
    assert_eq!(ming, Branch::Zi);

    for role in PalaceRole::ALL {
        let branch = chart.branch_of_role(role, ZiweiView::Natal).unwrap();
        assert_eq!(chart.palace_at(branch).role(), role);
        assert_eq!(branch.index(), twelve_index(ming.index() as i32 - role.index() as i32) as usize);
    }
}

#[test]
fn wu_hu_dun_all_year_stems_yin_head() {
    let cases = [
        (Stem::Jia, Stem::Bing),
        (Stem::Ji, Stem::Bing),
        (Stem::Yi, Stem::Wu),
        (Stem::Geng, Stem::Wu),
        (Stem::Bing, Stem::Geng),
        (Stem::Xin, Stem::Geng),
        (Stem::Ding, Stem::Ren),
        (Stem::Ren, Stem::Ren),
        (Stem::Wu, Stem::Jia),
        (Stem::Gui, Stem::Jia),
    ];
    for (year_stem, yin_stem) in cases {
        let branch = Branch::from_index(year_stem.index() as u8 % 2);
        let chart =
            Ziwei::from_input(ZiweiInput::try_new(Gender::Yang, year_stem, branch, 0, 1, 0).unwrap()).unwrap();
        assert_eq!(chart.palace_at(Branch::Yin).stem(), yin_stem, "year_stem={year_stem:?}");
    }
}

#[test]
fn major_star_offsets_from_ziwei_and_tianfu() {
    let chart = Ziwei::from_birth(sample_birth_march_chen()).unwrap();
    let z = branch_index_to_yin0(chart.branch_of_star(Star::ZiWei).index() as u8);
    let t = branch_index_to_yin0(chart.branch_of_star(Star::TianFu).index() as u8);
    assert_eq!(chart.branch_of_star(Star::TianJi), branch_from_yin0(twelve_index(i32::from(z) - 1)));
    assert_eq!(chart.branch_of_star(Star::TaiYang), branch_from_yin0(twelve_index(i32::from(z) - 3)));
    assert_eq!(chart.branch_of_star(Star::LianZhen), branch_from_yin0(twelve_index(i32::from(z) - 8)));
    assert_eq!(chart.branch_of_star(Star::TaiYin), branch_from_yin0(twelve_index(i32::from(t) + 1)));
    assert_eq!(chart.branch_of_star(Star::QiSha), branch_from_yin0(twelve_index(i32::from(t) + 6)));
    assert_eq!(chart.branch_of_star(Star::PoJun), branch_from_yin0(twelve_index(i32::from(t) + 10)));
}

#[test]
fn eighteen_stars_each_appear_once() {
    let chart = Ziwei::from_birth(sample_birth_march_chen()).unwrap();
    let mut counts = [0u8; 12];
    for star in Star::ALL {
        counts[chart.branch_of_star(star).index()] += 1;
    }
    assert_eq!(counts.iter().sum::<u8>(), 18);
    for star in Star::ALL {
        let b = chart.branch_of_star(star);
        assert!(chart.stars_at(b).iter().any(|s| *s == star));
    }
}

#[test]
fn bureau_matches_ming_palace_table() {
    let chart = Ziwei::from_birth(sample_birth_march_chen()).unwrap();
    let ming = chart.palace_for_role(PalaceRole::Ming, ZiweiView::Natal).unwrap();
    assert_eq!(chart.bureau(), FiveElementBureau::from_ming_palace(ming.stem(), ming.branch()));
}

#[test]
fn rejects_invalid_birth_ranges() {
    assert!(matches!(
        ZiweiBirth::try_new(Gender::Yang, 2000, 12, 1, 0).and_then(Ziwei::from_birth),
        Err(ZiweiInputError::MonthOutOfRange { value: 12 })
    ));
    assert!(matches!(
        ZiweiBirth::try_new(Gender::Yang, 2000, 0, 0, 0).and_then(Ziwei::from_birth),
        Err(ZiweiInputError::DayOutOfRange { value: 0 })
    ));
}

#[test]
fn ziwei_star_goldens_fushantang() {
    let chart = Ziwei::from_input(ZiweiInput::try_new(Gender::Yang, Stem::Ji, Branch::Chou, 0, 27, 10).unwrap()).unwrap();
    assert_eq!(chart.branch_of_role(PalaceRole::Ming, ZiweiView::Natal), Some(Branch::Chen));
    assert_eq!(chart.bureau(), FiveElementBureau::WoodThree);
    assert_eq!(chart.branch_of_star(Star::ZiWei), Branch::Xu);

    let chart = Ziwei::from_input(ZiweiInput::try_new(Gender::Yang, Stem::Jia, Branch::Zi, 0, 13, 0).unwrap()).unwrap();
    assert_eq!(chart.bureau(), FiveElementBureau::FireSix);
    assert_eq!(chart.branch_of_star(Star::ZiWei), Branch::Hai);

    let chart = Ziwei::from_input(ZiweiInput::try_new(Gender::Yang, Stem::Geng, Branch::Zi, 0, 6, 4).unwrap()).unwrap();
    assert_eq!(chart.branch_of_role(PalaceRole::Ming, ZiweiView::Natal), Some(Branch::Xu));
    assert_eq!(chart.bureau(), FiveElementBureau::EarthFive);
    assert_eq!(chart.branch_of_star(Star::ZiWei), Branch::Wei);
}

#[test]
fn tianfu_mirrors_ziwei_about_yin_shen() {
    let chart = Ziwei::from_birth(sample_birth_march_chen()).unwrap();
    let z = branch_index_to_yin0(chart.branch_of_star(Star::ZiWei).index() as u8);
    let t = branch_index_to_yin0(chart.branch_of_star(Star::TianFu).index() as u8);
    assert_eq!(t, twelve_index(-(i32::from(z))));
}

#[test]
fn assistants_january_and_zi_hour() {
    let chart = Ziwei::from_input(ZiweiInput::try_new(Gender::Yang, Stem::Jia, Branch::Zi, 0, 1, 0).unwrap()).unwrap();
    assert_eq!(chart.branch_of_star(Star::ZuoFu), Branch::Chen);
    assert_eq!(chart.branch_of_star(Star::YouBi), Branch::Xu);
    assert_eq!(chart.branch_of_star(Star::WenQu), Branch::Chen);
    assert_eq!(chart.branch_of_star(Star::WenChang), Branch::Xu);
}

#[test]
fn laiyin_and_year_transformations_fixed() {
    let chart = Ziwei::from_birth(sample_birth_march_chen()).unwrap();
    assert_eq!(chart.laiyin_branch(), Stem::Jia.laiyin_branch());
    let year_hua = chart.year_transformations();
    assert_eq!(year_hua[0].transformation, Transformation::LU);
    assert_eq!(year_hua[0].star, Stem::Jia.transformation_star(Transformation::A));
    assert_eq!(year_hua[0].branch, chart.branch_of_star(year_hua[0].star));
    assert_eq!(chart.stem_transformations(Stem::Jia), chart.year_transformations());
}

#[test]
fn decade_direction_jia_yang_forward_jia_yin_reverse() {
    let forward = Ziwei::from_birth(ZiweiBirth::try_new(Gender::Yang, 1984, 2, 1, 4).unwrap()).unwrap();
    let reverse = Ziwei::from_birth(ZiweiBirth::try_new(Gender::Yin, 1984, 2, 1, 4).unwrap()).unwrap();

    let ming = Branch::Zi;
    assert_eq!(forward.decade_steps()[0].ming_branch, ming);
    assert_eq!(forward.decade_steps()[1].ming_branch, Branch::from_index(twelve_index(ming.index() as i32 + 1)));
    assert_eq!(reverse.decade_steps()[1].ming_branch, Branch::from_index(twelve_index(ming.index() as i32 - 1)));

    let n = forward.bureau().number();
    assert_eq!(forward.decade_steps()[0].age_start, n);
    assert_eq!(forward.decade_steps()[0].age_end, n + 9);
}

#[test]
fn years_in_decade_and_age_lookup() {
    let chart = Ziwei::from_birth(sample_birth_march_chen()).unwrap();
    let step0 = chart.decade_steps()[0];
    let years = chart.years_in_decade(DecadeIndex::first()).expect("step 0 合法");
    assert_eq!(years.len(), 10);
    assert_eq!(years[0].virtual_age, step0.age_start);
    assert_eq!(years[0].lunar_year, chart.birth_year().unwrap() + i32::from(step0.age_start) - 1);
    assert_eq!(chart.decade_step_for_age(step0.age_start), Some(0));
    assert!(DecadeIndex::try_new(12).is_err());
}

#[test]
fn decade_view_relabels_roles_without_changing_natal_palace_role() {
    let chart = Ziwei::from_birth(sample_birth_march_chen()).unwrap();
    let natal_ming_branch = chart.branch_of_role(PalaceRole::Ming, ZiweiView::Natal).unwrap();
    let step1_ming = chart.decade_steps()[1].ming_branch;
    assert_ne!(natal_ming_branch, step1_ming);

    assert_eq!(chart.branch_of_role(PalaceRole::Ming, ZiweiView::Decade { step: 1 }), Some(step1_ming));
    assert!(chart.branch_of_role(PalaceRole::Ming, ZiweiView::Decade { step: 12 }).is_none());
    let palace = chart.palace_at(natal_ming_branch);
    assert_eq!(palace.role(), PalaceRole::Ming);
}

#[test]
fn annual_view_ming_is_taisui() {
    let chart = Ziwei::from_birth(sample_birth_march_chen()).unwrap();
    let year: i32 = 1990;
    let expected = branch_from_year(year);
    assert_eq!(chart.branch_of_role(PalaceRole::Ming, ZiweiView::Annual { year }), Some(expected));
}

#[test]
fn overlay_empty_on_natal_and_stable_year_hua() {
    let chart = Ziwei::from_birth(sample_birth_march_chen()).unwrap();
    let year_hua = chart.year_transformations();
    assert!(chart.overlay_transformations(ZiweiView::Natal).is_none());
    let decade_overlay = chart.overlay_transformations(ZiweiView::Decade { step: 0 }).expect("大限应有 overlay");
    assert_eq!(decade_overlay.len(), 4);
    assert_eq!(chart.year_transformations(), year_hua);
    let annual_overlay = chart.overlay_transformations(ZiweiView::Annual { year: 1990 }).expect("流年应有 overlay");
    assert_eq!(annual_overlay.len(), 4);
    assert_eq!(chart.laiyin_branch(), Stem::Jia.laiyin_branch());
    assert!(chart.overlay_transformations(ZiweiView::Decade { step: 12 }).is_none());
}

#[test]
fn flies_bounded_and_view_indexed() {
    let chart = Ziwei::from_birth(sample_birth_march_chen()).unwrap();
    let flies = chart.palace_flies();
    assert_eq!(flies.len(), 48);

    let before = *flies;
    let _ = chart.branch_of_role(PalaceRole::Ming, ZiweiView::Decade { step: 2 });
    assert_eq!(chart.palace_flies(), &before);

    let natal_ming = chart.branch_of_role(PalaceRole::Ming, ZiweiView::Natal).unwrap();
    let from_role = chart.flies_from_role(PalaceRole::Ming, ZiweiView::Natal);
    let from_branch = chart.flies_from_branch(natal_ming);
    assert_eq!(from_role, from_branch);
    assert_eq!(from_role.len(), 4);
    assert_eq!(chart.flies_from_role(PalaceRole::Ming, ZiweiView::Decade { step: 99 }).len(), 0);

    let _ = flies.iter().map(|f| f.self_transformation()).filter(|l| *l != SelfTransformation::Neither).count();
}

#[test]
fn dual_entry_parity_for_same_person() {
    let birth = sample_birth_march_chen();
    let from_birth = Ziwei::from_birth(birth).unwrap();
    let stem = stem_from_year(birth.year());
    let branch = branch_from_year(birth.year());
    let from_input = Ziwei::from_input(
        ZiweiInput::try_new(birth.gender(), stem, branch, birth.month(), birth.day(), birth.hour()).unwrap(),
    )
    .unwrap();

    for b in 0..12u8 {
        let branch = Branch::from_index(b);
        assert_eq!(from_birth.palace_at(branch), from_input.palace_at(branch));
        assert_eq!(from_birth.stars_at(branch), from_input.stars_at(branch));
    }
    assert_eq!(from_birth.shen_branch(), from_input.shen_branch());
    assert_eq!(from_birth.laiyin_branch(), from_input.laiyin_branch());
    assert_eq!(from_birth.year_transformations(), from_input.year_transformations());
    assert_eq!(from_birth.decade_steps(), from_input.decade_steps());
    assert_eq!(from_birth.palace_flies(), from_input.palace_flies());

    assert_eq!(from_birth.birth_year(), Some(birth.year()));
    assert_ne!(from_birth.birth_year(), from_input.birth_year());
    assert_eq!(from_input.birth_year(), None);
    let ages_birth: Vec<_> =
        from_birth.years_in_decade(DecadeIndex::first()).unwrap().iter().map(|y| y.virtual_age).collect();
    let step0 = from_input.decade_steps()[0];
    let ages_input: Vec<_> = (step0.age_start..=step0.age_end).collect();
    assert_eq!(ages_birth, ages_input);
    assert_eq!(from_input.years_in_decade(DecadeIndex::first()), Err(DecadeYearsError::BirthYearUnavailable));
}

#[test]
fn from_birth_keeps_historical_years_in_decade() {
    let birth = sample_birth_march_chen();
    let chart = Ziwei::from_birth(birth).unwrap();
    let step0 = chart.decade_steps()[0];
    let years = chart.years_in_decade(DecadeIndex::first()).unwrap();
    assert_eq!(years[0].lunar_year, birth.year() + i32::from(step0.age_start) - 1);
    let last = DecadeIndex::try_new(11).unwrap();
    let years = chart.years_in_decade(last).unwrap();
    assert_eq!(years[9].lunar_year, birth.year() + i32::from(chart.decade_steps()[11].age_end) - 1);
}

#[test]
fn transformation_lu_aliases_match_letters() {
    assert_eq!(Transformation::LU, Transformation::A);
    assert_eq!(Transformation::QUAN, Transformation::B);
    assert_eq!(Transformation::KE, Transformation::C);
    assert_eq!(Transformation::JI, Transformation::D);
}

#[test]
fn star_lists_over_the_ring_hold_eighteen_stars() {
    let chart = Ziwei::from_birth(sample_birth_march_chen()).unwrap();
    let total: usize = (0..12u8).map(|b| chart.stars_at(Branch::from_index(b)).len()).sum();
    assert_eq!(total, 18);
}
