//! Properties that every chart has, whatever the birth data and the view.
use super::fly::{spec_self_transformation, ZiweiFly};
use super::palace::lemma_palace_ext;
use super::view::ZiweiView;
use super::ziwei::{chart_palace_is, spec_decade_step, spec_role_branch, spec_stars_at, Ziwei};
use crate::input::Gender;
use crate::stem::Stem;
use crate::branch::{lemma_branch_index, Branch};
use crate::input::lemma_input_ext;
use crate::palace_name::{lemma_palace_name_index, PalaceName};
use crate::placement::{spec_palace_name, spec_palace_stem};
use crate::star::{lemma_star_index, StarName};
use crate::star_count::{lemma_count_over_ring, lemma_listed_over_ring, spec_listed_over_ring};
use vstd::prelude::*;

verus! {

/// A star is listed at a branch exactly when its branch is that branch, and the list
/// holds each star once, in catalogue order.
pub proof fn law_stars_listed_at_their_branch(star_branches: Seq<Branch>, b: Branch, n: int)
    requires
        0 <= n <= 18,
        star_branches.len() == 18,
    ensures
        forall|s: StarName| s.idx() < n ==> (spec_stars_at(star_branches, b, n).contains(s) <==> #[trigger] star_branches[s.idx()] == b),
        forall|i: int, j: int| 0 <= i < j < spec_stars_at(star_branches, b, n).len() ==>
            (#[trigger] spec_stars_at(star_branches, b, n)[i]).idx() < (#[trigger] spec_stars_at(star_branches, b, n)[j]).idx(),
        forall|i: int| 0 <= i < spec_stars_at(star_branches, b, n).len() ==> (#[trigger] spec_stars_at(star_branches, b, n)[i]).idx() < n,
    decreases n,
{
    if n > 0 {
        law_stars_listed_at_their_branch(star_branches, b, n - 1);
        let prev = spec_stars_at(star_branches, b, n - 1);
        let cur = spec_stars_at(star_branches, b, n);
        let last = StarName::at(n - 1);
        lemma_star_index(last, last);
        assert forall|s: StarName| s.idx() < n implies (cur.contains(s) <==> #[trigger] star_branches[s.idx()] == b) by {
            lemma_star_index(s, last);
            if star_branches[n - 1] == b {
                assert(cur == prev.push(last));
                if s == last {
                    assert(cur[prev.len() as int] == s);
                } else {
                    if cur.contains(s) {
                        let i = choose|i: int| 0 <= i < cur.len() && cur[i] == s;
                        assert(prev[i] == s);
                    }
                    if prev.contains(s) {
                        let i = choose|i: int| 0 <= i < prev.len() && prev[i] == s;
                        assert(cur[i] == s);
                    }
                }
            } else {
                assert(cur == prev);
                if s == last {
                    if prev.contains(s) {
                        let i = choose|i: int| 0 <= i < prev.len() && prev[i] == s;
                        assert(prev[i].idx() < n - 1);
                    }
                }
            }
        }
    }
}

/// The palace at every branch stands at that branch, takes its stem by the five-tiger
/// rule from the birth stem (the 寅 palace takes the head stem) and its duty counted
/// backward from 命.
pub proof fn law_chart_palaces_follow_the_ring(z: &Ziwei, b: Branch)
    requires
        z.wf(),
    ensures
        z.spec_palaces()@[b.idx()].spec_branch() == b,
        z.spec_palaces()@[b.idx()].spec_stem() == spec_palace_stem(z.spec_input().spec_birth_stem(), b),
        z.spec_palaces()@[b.idx()].spec_stem().idx()
            == (z.spec_input().spec_birth_stem().spec_yin_head_stem().idx() + b.yin0()) % 10,
        z.spec_palaces()@[Branch::Yin.idx()].spec_stem() == z.spec_input().spec_birth_stem().spec_yin_head_stem(),
        z.spec_palaces()@[b.idx()].spec_role() == spec_palace_name(z.spec_ming_branch(), b),
{
    lemma_branch_index(b, 0);
    lemma_chart_palace(z, b.idx());
    lemma_chart_palace(z, Branch::Yin.idx());
    crate::stem::lemma_stem_at(z.spec_input().spec_birth_stem().spec_yin_head_stem().idx() + b.yin0());
}

/// The ten-year steps of a chart: step `i` has index `i`; its 命 stands `i` branches from
/// the natal 命, forward when the polarity of the birth stem (甲, 丙, 戊, 庚, 壬 are yang)
/// agrees with the gender (male is yang) and backward otherwise; its stem is the natal
/// stem of the palace at that branch; its ages run from the bureau number plus ten per
/// step, ten ages long.
pub proof fn law_decade_steps_follow_the_natal_chart(z: &Ziwei, i: int)
    requires
        z.wf(),
        0 <= i < 12,
    ensures
        z.spec_decade_steps()@[i].step == i,
        z.spec_decade_steps()@[i].stem == z.spec_palaces()@[z.spec_decade_steps()@[i].ming_branch.idx()].spec_stem(),
        ((z.spec_input().spec_birth_stem() == Stem::Jia || z.spec_input().spec_birth_stem() == Stem::Bing
            || z.spec_input().spec_birth_stem() == Stem::Wu || z.spec_input().spec_birth_stem() == Stem::Geng
            || z.spec_input().spec_birth_stem() == Stem::Ren) == (z.spec_input().spec_gender() == Gender::Yang))
            ==> z.spec_decade_steps()@[i].ming_branch.idx() == (z.spec_ming_branch().idx() + i) % 12,
        ((z.spec_input().spec_birth_stem() == Stem::Jia || z.spec_input().spec_birth_stem() == Stem::Bing
            || z.spec_input().spec_birth_stem() == Stem::Wu || z.spec_input().spec_birth_stem() == Stem::Geng
            || z.spec_input().spec_birth_stem() == Stem::Ren) != (z.spec_input().spec_gender() == Gender::Yang))
            ==> z.spec_decade_steps()@[i].ming_branch.idx() == (z.spec_ming_branch().idx() - i) % 12,
        z.spec_decade_steps()@[i].age_start == z.spec_bureau().spec_number() + 10 * i,
        z.spec_decade_steps()@[i].age_end == z.spec_decade_steps()@[i].age_start + 9,
{
    lemma_chart_step(z, i);
    let b = z.spec_decade_steps()@[i].ming_branch;
    lemma_branch_index(b, 0);
    lemma_chart_palace(z, b.idx());
    lemma_branch_index(z.spec_ming_branch(), z.spec_ming_branch().idx() + i);
    lemma_branch_index(z.spec_ming_branch(), z.spec_ming_branch().idx() - i);
}

/// Step `i` of a chart is the step that the rules give.
proof fn lemma_chart_step(z: &Ziwei, i: int)
    requires
        z.wf(),
        0 <= i < 12,
    ensures
        z.spec_decade_steps()@[i] == spec_decade_step(
            z.spec_input().spec_gender(),
            z.spec_input().spec_birth_stem(),
            z.spec_ming_branch(),
            z.spec_bureau().spec_number(),
            i,
        ),
        2 <= z.spec_bureau().spec_number() <= 6,
{
    reveal(Ziwei::is_chart_of);
}

/// 命 stands at 寅 (子 = 0, so position 2) moved forward by the month (正月 = 0) and
/// backward by the hour (子 = 0); 身 at 寅 moved forward by both.
pub proof fn law_chart_ming_and_shen(z: &Ziwei)
    requires
        z.wf(),
    ensures
        z.spec_ming_branch().idx() == (z.spec_input().spec_month() - z.spec_input().spec_hour() + 2) % 12,
        z.spec_shen_branch().idx() == (z.spec_input().spec_month() + z.spec_input().spec_hour() + 2) % 12,
{
    reveal(Ziwei::is_chart_of);
    lemma_branch_index(Branch::Zi, z.spec_input().spec_month() - z.spec_input().spec_hour() + 2);
    lemma_branch_index(Branch::Zi, z.spec_input().spec_month() + z.spec_input().spec_hour() + 2);
}

/// Duties under a view run backward from the 命 of the view: the natal 命, the 命 of the
/// ten-year step, or the branch of the year (`(year - 4) mod 12`, 子 = 0); a duty at
/// position `r` (命 = 0) stands `r` branches behind it. A ten-year step outside `0..=11`
/// names no duty.
pub proof fn law_view_duties(z: &Ziwei, role: PalaceName, view: ZiweiView)
    requires
        z.wf(),
    ensures
        view is Natal ==> (z.spec_branch_of_role(role, view) matches Some(b)
            && b.idx() == (z.spec_ming_branch().idx() - role.idx()) % 12),
        view matches ZiweiView::Decade { step } ==> (step < 12 <==> z.spec_branch_of_role(role, view) is Some),
        view matches ZiweiView::Decade { step } ==> (step < 12 ==> (z.spec_branch_of_role(role, view) matches Some(b)
            && b.idx() == (z.spec_decade_steps()@[step as int].ming_branch.idx() - role.idx()) % 12)),
        view matches ZiweiView::Annual { year } ==> (z.spec_branch_of_role(role, view) matches Some(b)
            && b.idx() == ((year - 4) % 12 - role.idx()) % 12),
{
    match view {
        ZiweiView::Natal => {
            lemma_branch_index(Branch::Zi, z.spec_ming_branch().idx() - role.idx());
        },
        ZiweiView::Decade { step } => {
            if step < 12 {
                lemma_branch_index(Branch::Zi, z.spec_decade_steps()@[step as int].ming_branch.idx() - role.idx());
            }
        },
        ZiweiView::Annual { year } => {
            lemma_branch_index(Branch::Zi, year - 4);
            lemma_branch_index(Branch::Zi, (year - 4) % 12 - role.idx());
        },
    }
}

/// The palace of a chart at index `i` is the palace that the rules put at `Branch::at(i)`.
proof fn lemma_chart_palace(z: &Ziwei, i: int)
    requires
        z.wf(),
        0 <= i < 12,
    ensures
        chart_palace_is(z.spec_palaces()@[i], z.spec_input(), Branch::at(i)),
        z.spec_ming_branch() == crate::placement::spec_ming_palace_branch(
            z.spec_input().spec_month() as int, z.spec_input().spec_hour() as int),
{
    reveal(Ziwei::is_chart_of);
}

/// The star lists of the twelve branches hold eighteen stars in all.
pub proof fn law_eighteen_stars_over_the_ring(z: &Ziwei)
    requires
        z.wf(),
    ensures
        spec_listed_over_ring(z.spec_star_branches()@, 12) == 18,
{
    lemma_listed_over_ring(z.spec_star_branches()@, 12);
    lemma_count_over_ring(z.spec_star_branches()@, 18);
}

/// Counting the duties backward from one 命 gives twelve different branches.
proof fn lemma_role_branches(ming: Branch, r1: PalaceName, r2: PalaceName)
    ensures
        spec_role_branch(ming, r1) == spec_role_branch(ming, r2) <==> r1 == r2,
        spec_role_branch(ming, PalaceName::Ming) == ming,
{
    lemma_branch_index(ming, ming.idx());
    lemma_palace_name_index(r1, r2, 0);
    let b1 = spec_role_branch(ming, r1);
    let b2 = spec_role_branch(ming, r2);
    lemma_branch_index(b1, ming.idx() - r1.idx());
    lemma_branch_index(b2, ming.idx() - r2.idx());
    crate::branch::lemma_branch_index_injective(b1, b2);
}

/// The palace at the branch of a duty under the natal view carries that duty.
proof fn lemma_natal_role(z: &Ziwei, role: PalaceName)
    requires
        z.wf(),
    ensures
        z.spec_palaces()@[spec_role_branch(z.spec_ming_branch(), role).idx()].spec_role() == role,
{
    reveal(Ziwei::is_chart_of);
    let ming = z.spec_ming_branch();
    let b = spec_role_branch(ming, role);
    lemma_branch_index(b, ming.idx() - role.idx());
    lemma_branch_index(ming, 0);
    lemma_palace_name_index(role, role, 0);
    assert(chart_palace_is(z.spec_palaces()@[b.idx()], z.spec_input(), Branch::at(b.idx())));
    lemma_palace_name_index(role, role, ming.idx() - b.idx());
}

/// Under every view that names a 命, the twelve duties take twelve different branches,
/// so every branch carries exactly one duty; under the natal view, the palace at the
/// branch of a duty carries that duty.
pub proof fn law_duties_cover_the_ring(z: &Ziwei, view: ZiweiView, r1: PalaceName, r2: PalaceName)
    requires
        z.wf(),
        z.spec_branch_of_role(PalaceName::Ming, view) is Some,
    ensures
        z.spec_branch_of_role(r1, view) is Some,
        z.spec_branch_of_role(r1, view) == z.spec_branch_of_role(r2, view) <==> r1 == r2,
        view == ZiweiView::Natal ==> z.spec_palaces()@[z.spec_branch_of_role(r1, view).unwrap().idx()].spec_role() == r1,
{
    let m = super::ziwei::spec_view_ming_branch(z.spec_ming_branch(), z.spec_decade_steps()@, view).unwrap();
    lemma_role_branches(m, r1, r2);
    if view == ZiweiView::Natal {
        lemma_natal_role(z, r1);
    }
}

/// A chart depends on nothing but its birth data and its lunar year number: two charts
/// of inputs that agree on every field have the same palaces, 命, 身, bureau, star
/// branches, flies and ten-year steps; only the lunar year number may differ.
pub proof fn law_chart_depends_only_on_birth_data(z1: &Ziwei, z2: &Ziwei)
    requires
        z1.wf(),
        z2.wf(),
        z1.spec_input().spec_gender() == z2.spec_input().spec_gender(),
        z1.spec_input().spec_birth_stem() == z2.spec_input().spec_birth_stem(),
        z1.spec_input().spec_birth_branch() == z2.spec_input().spec_birth_branch(),
        z1.spec_input().spec_month() == z2.spec_input().spec_month(),
        z1.spec_input().spec_day() == z2.spec_input().spec_day(),
        z1.spec_input().spec_hour() == z2.spec_input().spec_hour(),
    ensures
        z1.spec_palaces() == z2.spec_palaces(),
        z1.spec_ming_branch() == z2.spec_ming_branch(),
        z1.spec_shen_branch() == z2.spec_shen_branch(),
        z1.spec_bureau() == z2.spec_bureau(),
        z1.spec_star_branches() == z2.spec_star_branches(),
        z1.spec_decade_steps() == z2.spec_decade_steps(),
        forall|f: int| 0 <= f < 48 ==> {
            &&& (#[trigger] z1.spec_flies()@[f]).spec_source_branch() == z2.spec_flies()@[f].spec_source_branch()
            &&& z1.spec_flies()@[f].spec_transformation() == z2.spec_flies()@[f].spec_transformation()
            &&& z1.spec_flies()@[f].spec_target_branch() == z2.spec_flies()@[f].spec_target_branch()
            &&& z1.spec_flies()@[f].spec_star() == z2.spec_flies()@[f].spec_star()
        },
{
    reveal(Ziwei::is_chart_of);
    lemma_input_ext(z1.spec_input(), z2.spec_input());
    assert(z1.spec_palaces()@ =~= z2.spec_palaces()@) by {
        assert forall|b: int| 0 <= b < 12 implies z1.spec_palaces()@[b] == z2.spec_palaces()@[b] by {
            assert(chart_palace_is(z1.spec_palaces()@[b], z1.spec_input(), Branch::at(b)));
            assert(chart_palace_is(z2.spec_palaces()@[b], z2.spec_input(), Branch::at(b)));
            lemma_palace_ext(z1.spec_palaces()@[b], z2.spec_palaces()@[b]);
        }
    }
    assert(z1.spec_star_branches()@ =~= z2.spec_star_branches()@);
    assert(z1.spec_decade_steps()@ =~= z2.spec_decade_steps()@);
}

/// A fly is marked outward exactly when the transformed star stands in the source
/// palace, and inward exactly when it stands in the opposite palace.
pub proof fn law_fly_marks_follow_geometry(f: ZiweiFly)
    ensures
        spec_self_transformation(f.spec_source_branch(), f.spec_target_branch()) == super::fly::SelfTransformation::Out
            <==> f.spec_target_branch() == f.spec_source_branch(),
        spec_self_transformation(f.spec_source_branch(), f.spec_target_branch()) == super::fly::SelfTransformation::In
            <==> f.spec_target_branch() == f.spec_source_branch().spec_opposite(),
{
    crate::branch::lemma_opposite_involution(f.spec_source_branch());
}

} // verus!
