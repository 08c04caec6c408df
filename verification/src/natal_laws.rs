//! Properties that every natal chart has, whatever the birth data.
use super::branch::{lemma_branch_index, Branch};
use super::decade::{spec_age_year, spec_decade_age, spec_decade_is, spec_decade_ming_branch, DecadeDirection};
use super::zodiac::Zodiac;
use super::input::Gender;
use super::natal::{
    chart_bureau, chart_edge_is, chart_name, chart_origin_branch, chart_palace_is, chart_star_branch, chart_star_is, chart_stars_at,
    chart_stem, Natal, NatalContext,
};
use super::palace_name::{lemma_palace_name_index, PalaceName};
use super::placement::{spec_major_star_yin0, spec_palace_stem, spec_star_branch, spec_tian_fu_yin0, spec_zi_wei_yin0};
use super::chart::ziwei::spec_stars_at;
use super::star_count::{lemma_count_bound, lemma_count_distinct, lemma_count_split, lemma_stars_at_len};
use vstd::arithmetic::div_mod::lemma_fundamental_div_mod;
use super::position::{lemma_yin0_round_trip, spec_branch_from_yin0};
use super::star::{lemma_star_index, StarName};
use super::stem::{lemma_find_transformation, lemma_transformation_row_distinct, Stem};
use super::transformation::Transformation;
use vstd::prelude::*;

verus! {

/// Star `s` is the `i`-th star of the `k`-th palace of chart `n`.
pub open spec fn natal_holds_star(n: &Natal, s: StarName, k: int, i: int) -> bool {
    &&& 0 <= k < 12
    &&& 0 <= i < n.spec_palaces()@[k].spec_stars().len()
    &&& n.spec_palaces()@[k].spec_stars()[i].spec_name() == s
}

/// The stars listed at a branch are exactly the catalogue stars before `n` that stand
/// there, each once, in catalogue order.
proof fn lemma_stars_at(c: NatalContext, b: Branch, n: int)
    requires
        0 <= n <= 18,
    ensures
        forall|i: int| 0 <= i < chart_stars_at(c, b, n).len() ==> {
            &&& chart_star_branch(c, #[trigger] chart_stars_at(c, b, n)[i]) == b
            &&& chart_stars_at(c, b, n)[i].idx() < n
        },
        forall|i: int, j: int| 0 <= i < j < chart_stars_at(c, b, n).len() ==>
            (#[trigger] chart_stars_at(c, b, n)[i]).idx() < (#[trigger] chart_stars_at(c, b, n)[j]).idx(),
        forall|s: StarName| s.idx() < n && chart_star_branch(c, s) == b ==>
            exists|i: int| 0 <= i < chart_stars_at(c, b, n).len() && #[trigger] chart_stars_at(c, b, n)[i] == s,
    decreases n,
{
    if n > 0 {
        lemma_stars_at(c, b, n - 1);
        let prev = chart_stars_at(c, b, n - 1);
        let cur = chart_stars_at(c, b, n);
        let last = StarName::at(n - 1);
        lemma_star_index(last, last);
        assert(last.idx() == n - 1);
        assert forall|s: StarName| s.idx() < n && chart_star_branch(c, s) == b implies
            exists|i: int| 0 <= i < cur.len() && #[trigger] cur[i] == s by {
            lemma_star_index(s, last);
            if s.idx() < n - 1 {
                let i = choose|i: int| 0 <= i < prev.len() && #[trigger] prev[i] == s;
                assert(cur[i] == s);
            } else {
                assert(s == last);
                assert(cur[prev.len() as int] == s);
            }
        }
    }
}

/// The star names of every palace of `n` are those that the placement rules list at its
/// branch, and the palaces run around the ring from 寅.
spec fn star_names_follow_rules(n: &Natal) -> bool {
    let c = n.spec_context();
    forall|k: int| 0 <= k < 12 ==> {
        let b = spec_branch_from_yin0(k);
        &&& (#[trigger] n.spec_palaces()@[k]).spec_branch() == b
        &&& n.spec_palaces()@[k].spec_stars().len() == chart_stars_at(c, b, 18).len()
        &&& forall|i: int| 0 <= i < n.spec_palaces()@[k].spec_stars().len() ==>
            (#[trigger] n.spec_palaces()@[k].spec_stars()[i]).spec_name() == chart_stars_at(c, b, 18)[i]
    }
}

proof fn lemma_star_names_follow_rules(n: &Natal)
    requires
        n.wf(),
    ensures
        star_names_follow_rules(n),
{
    reveal(Natal::is_chart_of);
}

#[verifier::rlimit(30)]
proof fn lemma_each_star_stands_once(n: &Natal, s: StarName)
    requires
        star_names_follow_rules(n),
    ensures
        exists|k: int, i: int| natal_holds_star(n, s, k, i),
        forall|k: int, i: int| #[trigger] natal_holds_star(n, s, k, i) ==>
            n.spec_palaces()@[k].spec_branch() == chart_star_branch(n.spec_context(), s),
        forall|k1: int, i1: int, k2: int, i2: int|
            #[trigger] natal_holds_star(n, s, k1, i1) && #[trigger] natal_holds_star(n, s, k2, i2) ==> k1 == k2 && i1 == i2,
{
    let c = n.spec_context();
    let b = chart_star_branch(c, s);
    lemma_star_index(s, s);
    lemma_yin0_round_trip(b, 0);
    let k = b.yin0();
    assert(n.spec_palaces()@[k].spec_branch() == b);
    lemma_stars_at(c, b, 18);
    let i = choose|i: int| 0 <= i < chart_stars_at(c, b, 18).len() && #[trigger] chart_stars_at(c, b, 18)[i] == s;
    assert(n.spec_palaces()@[k].spec_stars()[i].spec_name() == s);
    assert(natal_holds_star(n, s, k, i));
    assert forall|k1: int, i1: int| #[trigger] natal_holds_star(n, s, k1, i1) implies
        n.spec_palaces()@[k1].spec_branch() == b by {
        let b1 = spec_branch_from_yin0(k1);
        lemma_stars_at(c, b1, 18);
        assert(n.spec_palaces()@[k1].spec_stars()[i1].spec_name() == chart_stars_at(c, b1, 18)[i1]);
    }
    assert forall|k1: int, i1: int, k2: int, i2: int|
        #[trigger] natal_holds_star(n, s, k1, i1) && #[trigger] natal_holds_star(n, s, k2, i2) implies k1 == k2 && i1 == i2 by {
        let b1 = spec_branch_from_yin0(k1);
        let b2 = spec_branch_from_yin0(k2);
        lemma_stars_at(c, b1, 18);
        assert(n.spec_palaces()@[k1].spec_stars()[i1].spec_name() == chart_stars_at(c, b1, 18)[i1]);
        assert(n.spec_palaces()@[k2].spec_stars()[i2].spec_name() == chart_stars_at(c, b2, 18)[i2]);
        lemma_yin0_round_trip(b1, k1);
        lemma_yin0_round_trip(b2, k2);
        assert(b1 == b2);
        if i1 < i2 {
            assert(chart_stars_at(c, b1, 18)[i1].idx() < chart_stars_at(c, b1, 18)[i2].idx());
        } else if i2 < i1 {
            assert(chart_stars_at(c, b1, 18)[i2].idx() < chart_stars_at(c, b1, 18)[i1].idx());
        }
    }
}

/// Every star of the catalogue stands in exactly one palace, once, and that palace is
/// the one at the star's branch.
pub proof fn law_each_star_stands_once(n: &Natal, s: StarName)
    requires
        n.wf(),
    ensures
        exists|k: int, i: int| natal_holds_star(n, s, k, i),
        forall|k: int, i: int| #[trigger] natal_holds_star(n, s, k, i) ==>
            n.spec_palaces()@[k].spec_branch() == chart_star_branch(n.spec_context(), s),
        forall|k1: int, i1: int, k2: int, i2: int|
            #[trigger] natal_holds_star(n, s, k1, i1) && #[trigger] natal_holds_star(n, s, k2, i2) ==> k1 == k2 && i1 == i2,
{
    lemma_star_names_follow_rules(n);
    lemma_each_star_stands_once(n, s);
}

/// The stars of every palace are listed in catalogue order.
pub proof fn law_palace_stars_in_catalogue_order(n: &Natal, k: int, i: int, j: int)
    requires
        n.wf(),
        0 <= k < 12,
        0 <= i < j < n.spec_palaces()@[k].spec_stars().len(),
    ensures
        n.spec_palaces()@[k].spec_stars()[i].spec_name().idx() < n.spec_palaces()@[k].spec_stars()[j].spec_name().idx(),
{
    let c = n.spec_context();
    let b = spec_branch_from_yin0(k);
    lemma_star_names_follow_rules(n);
    lemma_stars_at(c, b, 18);
    assert(n.spec_palaces()@[k].spec_stars()[i].spec_name() == chart_stars_at(c, b, 18)[i]);
    assert(n.spec_palaces()@[k].spec_stars()[j].spec_name() == chart_stars_at(c, b, 18)[j]);
}

/// `(k, i)` is the position of a star of chart `n`: palace `k`, place `i` in it.
pub open spec fn natal_star_position(n: &Natal, k: int, i: int) -> bool {
    0 <= k < 12 && 0 <= i < n.spec_palaces()@[k].spec_stars().len()
}

/// The palace of a valid chart at position `k` of the 寅 ring.
proof fn lemma_palace_of(n: &Natal, k: int)
    requires
        n.wf(),
        0 <= k < 12,
    ensures
        chart_palace_is(n.spec_palaces()@[k], n.spec_context(), spec_branch_from_yin0(k)),
        n.spec_context().wf(),
{
    reveal(Natal::is_chart_of);
}

/// The single facts of a valid chart: its 命宫, 身宫 and origin coordinates.
proof fn lemma_coordinates_of(n: &Natal)
    requires
        n.wf(),
    ensures
        n.spec_ming_palace_branch() == super::natal::chart_ming(n.spec_context()),
        n.spec_shen_palace_branch() == super::natal::chart_shen(n.spec_context()),
        n.spec_shen_palace_name() == chart_name(n.spec_context(), n.spec_shen_palace_branch()),
        n.spec_origin_palace_branch() == chart_origin_branch(n.spec_context()),
        n.spec_origin_palace_name() == chart_name(n.spec_context(), n.spec_origin_palace_branch()),
{
    reveal(Natal::is_chart_of);
}

/// The star at a position of a valid chart is the fact of the star that the rules list
/// there, and it stands at the branch of its palace.
proof fn lemma_star_of(n: &Natal, k: int, i: int)
    requires
        n.wf(),
        natal_star_position(n, k, i),
    ensures
        chart_star_is(n.spec_palaces()@[k].spec_stars()[i], n.spec_context(), n.spec_palaces()@[k].spec_stars()[i].spec_name()),
        chart_star_branch(n.spec_context(), n.spec_palaces()@[k].spec_stars()[i].spec_name()) == spec_branch_from_yin0(k),
{
    let c = n.spec_context();
    let b = spec_branch_from_yin0(k);
    lemma_palace_of(n, k);
    lemma_stars_at(c, b, 18);
    assert(chart_star_is(n.spec_palaces()@[k].spec_stars()[i], c, chart_stars_at(c, b, 18)[i]));
}

/// The names of the palaces of a valid chart follow the 命宫 branch.
proof fn lemma_names_of(n: &Natal)
    requires
        n.wf(),
    ensures
        forall|k: int| 0 <= k < 12 ==> (#[trigger] n.spec_palaces()@[k]).spec_name()
            == PalaceName::at(n.spec_ming_palace_branch().idx() - spec_branch_from_yin0(k).idx()),
{
    reveal(Natal::is_chart_of);
}

/// Remainders by twelve of numbers close to the range `0..12`.
proof fn lemma_small_mod(a: int)
    requires
        -12 <= a < 24,
    ensures
        a % 12 == (if a < 0 { a + 12 } else if a < 12 { a } else { a - 12 }),
{
}

/// The name that the palace at ring position `k` gets when 命宫 stands at `ming`.
proof fn lemma_name_position(ming: Branch, k: int)
    requires
        0 <= k < 12,
    ensures
        spec_branch_from_yin0(k).idx() == (k + 2) % 12,
        PalaceName::at(ming.idx() - spec_branch_from_yin0(k).idx()).idx() == (ming.idx() - (k + 2) % 12) % 12,
{
    lemma_branch_index(ming, k + 2);
    let b = spec_branch_from_yin0(k);
    lemma_palace_name_index(PalaceName::Ming, PalaceName::Ming, ming.idx() - b.idx());
}

/// Names counted backward from 命宫 over the twelve ring positions are all different.
#[verifier::rlimit(30)]
proof fn lemma_names_core(names: Seq<PalaceName>, ming: Branch, name: PalaceName)
    requires
        names.len() == 12,
        forall|k: int| 0 <= k < 12 ==> #[trigger] names[k] == PalaceName::at(ming.idx() - spec_branch_from_yin0(k).idx()),
    ensures
        exists|k: int| 0 <= k < 12 && #[trigger] names[k] == name,
        forall|k1: int, k2: int| 0 <= k1 < 12 && 0 <= k2 < 12 && #[trigger] names[k1] == name && #[trigger] names[k2] == name
            ==> k1 == k2,
{
    lemma_branch_index(ming, 0);
    lemma_palace_name_index(name, name, 0);
    let b = Branch::at(ming.idx() - name.idx());
    lemma_branch_index(b, ming.idx() - name.idx());
    lemma_yin0_round_trip(b, 0);
    let k = b.yin0();
    lemma_palace_name_index(name, name, ming.idx() - b.idx());
    assert(names[k] == name);
    assert forall|k1: int, k2: int| 0 <= k1 < 12 && 0 <= k2 < 12 && #[trigger] names[k1] == name && #[trigger] names[k2] == name
        implies k1 == k2 by {
        lemma_name_position(ming, k1);
        lemma_name_position(ming, k2);
        lemma_small_mod(k1 + 2);
        lemma_small_mod(k2 + 2);
        let x1 = (k1 + 2) % 12;
        let x2 = (k2 + 2) % 12;
        lemma_small_mod(ming.idx() - x1);
        lemma_small_mod(ming.idx() - x2);
        lemma_palace_name_index(names[k1], names[k2], 0);
    }
}

/// The twelve palaces run forward round the ring from 寅: palace `k` stands at branch
/// `(k + 2) % 12` (子 = 0), its name is counted backward from the 命宫 branch, and its
/// stem follows the five-tiger rule from the birth stem.
pub proof fn law_palaces_run_from_yin(n: &Natal, k: int)
    requires
        n.wf(),
        0 <= k < 12,
    ensures
        n.spec_palaces()@[k].spec_branch().idx() == (k + 2) % 12,
        n.spec_palaces()@[k].spec_name().idx() == (n.spec_ming_palace_branch().idx() - (k + 2) % 12) % 12,
        n.spec_palaces()@[k].spec_stem() == spec_palace_stem(n.spec_context().spec_birth_stem(), n.spec_palaces()@[k].spec_branch()),
{
    lemma_palace_fields_of(n, k);
    lemma_names_of(n);
    lemma_coordinates_of(n);
    lemma_name_position(n.spec_ming_palace_branch(), k);
}

/// Each of the twelve palace names is held by exactly one palace of a chart.
pub proof fn law_each_palace_name_once(n: &Natal, name: PalaceName)
    requires
        n.wf(),
    ensures
        exists|k: int| 0 <= k < 12 && (#[trigger] n.spec_palaces()@[k]).spec_name() == name,
        forall|k1: int, k2: int| 0 <= k1 < 12 && 0 <= k2 < 12
            && (#[trigger] n.spec_palaces()@[k1]).spec_name() == name
            && (#[trigger] n.spec_palaces()@[k2]).spec_name() == name ==> k1 == k2,
{
    lemma_names_of(n);
    lemma_coordinates_of(n);
    let names = Seq::new(12, |k: int| n.spec_palaces()@[k].spec_name());
    lemma_names_core(names, n.spec_ming_palace_branch(), name);
    assert forall|k1: int, k2: int| 0 <= k1 < 12 && 0 <= k2 < 12
        && (#[trigger] n.spec_palaces()@[k1]).spec_name() == name
        && (#[trigger] n.spec_palaces()@[k2]).spec_name() == name implies k1 == k2 by {
        assert(names[k1] == name && names[k2] == name);
    }
    let k = choose|k: int| 0 <= k < 12 && #[trigger] names[k] == name;
    assert(n.spec_palaces()@[k].spec_name() == name);
}

/// The published coordinates resolve: the palace at the 命宫 branch is named 命宫, the
/// palace at the 身宫 branch carries the published 身宫 name, and the palace at the
/// origin branch carries the published origin name and the birth stem.
pub proof fn law_coordinates_resolve(n: &Natal)
    requires
        n.wf(),
    ensures
        n.spec_palaces()@[n.spec_ming_palace_branch().yin0()].spec_name() == PalaceName::Ming,
        n.spec_palaces()@[n.spec_ming_palace_branch().yin0()].spec_branch() == n.spec_ming_palace_branch(),
        n.spec_palaces()@[n.spec_shen_palace_branch().yin0()].spec_name() == n.spec_shen_palace_name(),
        n.spec_palaces()@[n.spec_shen_palace_branch().yin0()].spec_branch() == n.spec_shen_palace_branch(),
        n.spec_palaces()@[n.spec_origin_palace_branch().yin0()].spec_name() == n.spec_origin_palace_name(),
        n.spec_palaces()@[n.spec_origin_palace_branch().yin0()].spec_branch() == n.spec_origin_palace_branch(),
        n.spec_palaces()@[n.spec_origin_palace_branch().yin0()].spec_stem() == n.spec_context().spec_birth_stem(),
{
    let c = n.spec_context();
    let ming = n.spec_ming_palace_branch();
    let shen = n.spec_shen_palace_branch();
    let origin = n.spec_origin_palace_branch();
    lemma_yin0_round_trip(ming, 0);
    lemma_yin0_round_trip(shen, 0);
    lemma_yin0_round_trip(origin, 0);
    lemma_branch_index(ming, 0);
    lemma_coordinates_of(n);
    lemma_palace_of(n, ming.yin0());
    lemma_palace_of(n, shen.yin0());
    lemma_palace_of(n, origin.yin0());
    lemma_origin_palace_stem(c.spec_birth_stem());
}

/// Offset of a star of the 紫微 series (catalogue positions `0..6`) behind 紫微, or of a
/// star of the 天府 series (positions `6..14`) ahead of 天府.
spec fn series_offset(i: int) -> int {
    if i == 0 { 0 } else if i == 1 { 1 } else if i == 2 { 3 } else if i == 3 { 4 } else if i == 4 { 5 }
    else if i == 5 { 8 } else if i == 6 { 0 } else if i == 7 { 1 } else if i == 8 { 2 } else if i == 9 { 3 }
    else if i == 10 { 4 } else if i == 11 { 5 } else if i == 12 { 6 } else { 10 }
}

/// The major stars stand at their series offsets from 紫微 and 天府.
proof fn lemma_series_position(z: int, i: int)
    requires
        0 <= i < 14,
    ensures
        i < 6 ==> spec_major_star_yin0(StarName::at(i), z) == z - series_offset(i),
        6 <= i ==> spec_major_star_yin0(StarName::at(i), z) == spec_tian_fu_yin0(z) + series_offset(i),
{
}

/// Ring positions less than twelve apart are different positions.
proof fn lemma_apart_mod(p: int, q: int)
    requires
        0 < q - p < 12,
    ensures
        p % 12 != q % 12,
{
    lemma_fundamental_div_mod(p, 12);
    lemma_fundamental_div_mod(q, 12);
    assert(p % 12 != q % 12) by (nonlinear_arith)
        requires
            p == 12 * (p / 12) + p % 12,
            q == 12 * (q / 12) + q % 12,
            0 < q - p < 12,
    {
    }
}

/// Two stars of the same series never share a branch.
proof fn lemma_series_apart(z: int, i: int, j: int)
    requires
        0 <= i < j < 6 || 6 <= i < j < 14,
    ensures
        spec_branch_from_yin0(spec_major_star_yin0(StarName::at(i), z))
            != spec_branch_from_yin0(spec_major_star_yin0(StarName::at(j), z)),
{
    lemma_series_position(z, i);
    lemma_series_position(z, j);
    let p = spec_major_star_yin0(StarName::at(i), z);
    let q = spec_major_star_yin0(StarName::at(j), z);
    lemma_yin0_round_trip(Branch::Zi, p);
    lemma_yin0_round_trip(Branch::Zi, q);
    if j < 6 {
        lemma_apart_mod(q, p);
    } else {
        lemma_apart_mod(p, q);
    }
}

/// The branch of every star of a chart, in catalogue order.
pub open spec fn chart_star_branches(c: NatalContext) -> Seq<Branch> {
    Seq::new(18, |k: int| chart_star_branch(c, StarName::at(k)))
}

/// The stars that the rules list at a branch are those of the branch sequence there.
proof fn lemma_chart_stars_at_seq(c: NatalContext, b: Branch, n: int)
    requires
        0 <= n <= 18,
    ensures
        chart_stars_at(c, b, n) == spec_stars_at(chart_star_branches(c), b, n),
    decreases n,
{
    if n > 0 {
        lemma_chart_stars_at_seq(c, b, n - 1);
    }
}

/// At most six stars stand at any branch: one of the 紫微 series, one of the 天府
/// series and the four minor stars.
proof fn lemma_at_most_six(c: NatalContext, b: Branch)
    ensures
        chart_stars_at(c, b, 18).len() <= 6,
{
    let sb = chart_star_branches(c);
    let z = spec_zi_wei_yin0(c.spec_day() as int, chart_bureau(c).spec_number());
    assert forall|i: int, j: int| 0 <= i < j < 6 implies sb[i] != sb[j] by {
        lemma_star_index(StarName::at(i), StarName::at(i));
        lemma_star_index(StarName::at(j), StarName::at(j));
        lemma_series_apart(z, i, j);
    }
    assert forall|i: int, j: int| 6 <= i < j < 14 implies sb[i] != sb[j] by {
        lemma_star_index(StarName::at(i), StarName::at(i));
        lemma_star_index(StarName::at(j), StarName::at(j));
        lemma_series_apart(z, i, j);
    }
    lemma_chart_stars_at_seq(c, b, 18);
    lemma_stars_at_len(sb, b, 18);
    lemma_count_split(sb, b, 0, 6, 18);
    lemma_count_split(sb, b, 6, 14, 18);
    lemma_count_distinct(sb, b, 0, 6);
    lemma_count_distinct(sb, b, 6, 14);
    lemma_count_bound(sb, b, 14, 18);
}

/// No palace holds more than six stars.
pub proof fn law_at_most_six_stars_per_palace(n: &Natal, k: int)
    requires
        n.wf(),
        0 <= k < 12,
    ensures
        n.spec_palaces()@[k].spec_stars().len() <= 6,
{
    lemma_palace_of(n, k);
    lemma_at_most_six(n.spec_context(), spec_branch_from_yin0(k));
}

/// The palace at the origin branch of a stem carries that stem (五虎遁 and the origin
/// table agree).
proof fn lemma_origin_palace_stem(stem: Stem)
    ensures
        spec_palace_stem(stem, stem.spec_origin_palace_branch()) == stem,
{
}

/// The birth stem transforms four stars, each once: a star carries the birth
/// transformation `t` exactly when it is the `t` star of the birth stem, and the edge
/// `t` of the origin palace points at that star.
pub proof fn law_birth_transformations(n: &Natal, t: Transformation)
    requires
        n.wf(),
    ensures
        forall|k: int, i: int| #[trigger] natal_star_position(n, k, i) ==> (
            n.spec_palaces()@[k].spec_stars()[i].spec_origin_transformation() == Some(t)
                <==> n.spec_palaces()@[k].spec_stars()[i].spec_name() == n.spec_context().spec_birth_stem().spec_transformation_star(t)),
        n.spec_palaces()@[n.spec_origin_palace_branch().yin0()].spec_transformations()@[t.idx()].spec_star_name()
            == n.spec_context().spec_birth_stem().spec_transformation_star(t),
        n.spec_palaces()@[n.spec_origin_palace_branch().yin0()].spec_transformations()@[t.idx()].spec_transformation() == t,
{
    let c = n.spec_context();
    let stem = c.spec_birth_stem();
    lemma_origin_palace_stem(stem);
    lemma_coordinates_of(n);
    assert(chart_stem(c, chart_origin_branch(c)) == stem);
    assert forall|k: int, i: int| #[trigger] natal_star_position(n, k, i) implies (
        n.spec_palaces()@[k].spec_stars()[i].spec_origin_transformation() == Some(t)
            <==> n.spec_palaces()@[k].spec_stars()[i].spec_name() == stem.spec_transformation_star(t)) by {
        lemma_star_of(n, k, i);
        lemma_find_transformation(stem, n.spec_palaces()@[k].spec_stars()[i].spec_name(), t);
    }
    let origin = n.spec_origin_palace_branch();
    lemma_yin0_round_trip(origin, 0);
    lemma_palace_of(n, origin.yin0());
    assert(Transformation::at(t.idx()) == t);
    assert(chart_edge_is(n.spec_palaces()@[origin.yin0()].spec_transformations()@[t.idx()], c, origin, t));
}

/// Every edge leaves its own palace with its own transformation, and the target palace
/// it names holds the transformed star.
pub proof fn law_edges_reach_their_star(n: &Natal, k: int, t: int)
    requires
        n.wf(),
        0 <= k < 12,
        0 <= t < 4,
    ensures
        ({
            let p = n.spec_palaces()@[k];
            let e = p.spec_transformations()@[t];
            let target = n.spec_palaces()@[e.spec_target_branch().yin0()];
            &&& e.spec_source_name() == p.spec_name()
            &&& e.spec_source_branch() == p.spec_branch()
            &&& e.spec_transformation() == Transformation::at(t)
            &&& e.spec_star_name() == p.spec_stem().spec_transformation_star(Transformation::at(t))
            &&& target.spec_name() == e.spec_target_name()
            &&& target.spec_branch() == e.spec_target_branch()
            &&& exists|i: int| natal_holds_star(n, e.spec_star_name(), e.spec_target_branch().yin0(), i)
        }),
{
    let c = n.spec_context();
    let b = spec_branch_from_yin0(k);
    let p = n.spec_palaces()@[k];
    let e = p.spec_transformations()@[t];
    lemma_palace_fields_of(n, k);
    lemma_edges_of(n, k);
    assert(chart_edge_is(e, c, b, Transformation::at(t)));
    lemma_target_of(n, e.spec_star_name());
}

/// Name, branch and stem of the palace at position `k` of a valid chart.
proof fn lemma_palace_fields_of(n: &Natal, k: int)
    requires
        n.wf(),
        0 <= k < 12,
    ensures
        n.spec_palaces()@[k].spec_name() == chart_name(n.spec_context(), spec_branch_from_yin0(k)),
        n.spec_palaces()@[k].spec_branch() == spec_branch_from_yin0(k),
        n.spec_palaces()@[k].spec_stem() == chart_stem(n.spec_context(), spec_branch_from_yin0(k)),
{
    reveal(Natal::is_chart_of);
}

/// The palace at the branch of a star holds the star.
proof fn lemma_target_of(n: &Natal, star: StarName)
    requires
        n.wf(),
    ensures
        ({
            let target = chart_star_branch(n.spec_context(), star);
            &&& n.spec_palaces()@[target.yin0()].spec_name() == chart_name(n.spec_context(), target)
            &&& n.spec_palaces()@[target.yin0()].spec_branch() == target
            &&& exists|i: int| natal_holds_star(n, star, target.yin0(), i)
        }),
{
    let c = n.spec_context();
    let target = chart_star_branch(c, star);
    lemma_yin0_round_trip(target, 0);
    lemma_palace_fields_of(n, target.yin0());
    lemma_star_names_follow_rules(n);
    lemma_each_star_stands_once(n, star);
    let (k2, i2) = choose|k2: int, i2: int| natal_holds_star(n, star, k2, i2);
    assert(natal_holds_star(n, star, k2, i2));
    lemma_palace_fields_of(n, k2);
    lemma_yin0_round_trip(target, k2);
    assert(k2 == target.yin0());
}

/// The edges of the palace at position `k` of a valid chart.
proof fn lemma_edges_of(n: &Natal, k: int)
    requires
        n.wf(),
        0 <= k < 12,
    ensures
        forall|t: int| 0 <= t < 4 ==> chart_edge_is(#[trigger] n.spec_palaces()@[k].spec_transformations()@[t],
            n.spec_context(), spec_branch_from_yin0(k), Transformation::at(t)),
{
    lemma_palace_of(n, k);
}

/// A star and the two edges `t` of its own palace and of the opposite palace.
proof fn lemma_self_core(c: NatalContext, b: Branch, star: super::star::Star, own: super::palace::PalaceTransformation,
    opposite: super::palace::PalaceTransformation, t: Transformation)
    requires
        chart_star_is(star, c, star.spec_name()),
        chart_star_branch(c, star.spec_name()) == b,
        chart_edge_is(own, c, b, t),
        chart_edge_is(opposite, c, b.spec_opposite(), t),
    ensures
        star.spec_self_transformations().spec_outward() == Some(t) <==> own.spec_star_name() == star.spec_name(),
        star.spec_self_transformations().spec_inward() == Some(t) <==> opposite.spec_star_name() == star.spec_name(),
{
    lemma_find_transformation(chart_stem(c, b), star.spec_name(), t);
    lemma_find_transformation(chart_stem(c, b.spec_opposite()), star.spec_name(), t);
}

/// The self-transformations of a star agree with the edges: it transforms outward with
/// `t` exactly when the edge `t` of its own palace points at it, and inward with `t`
/// exactly when the edge `t` of the opposite palace points at it.
pub proof fn law_self_transformations_match_edges(n: &Natal, k: int, i: int, t: Transformation)
    requires
        n.wf(),
        natal_star_position(n, k, i),
    ensures
        ({
            let star = n.spec_palaces()@[k].spec_stars()[i];
            &&& star.spec_self_transformations().spec_outward() == Some(t)
                <==> n.spec_palaces()@[k].spec_transformations()@[t.idx()].spec_star_name() == star.spec_name()
            &&& star.spec_self_transformations().spec_inward() == Some(t)
                <==> n.spec_palaces()@[(k + 6) % 12].spec_transformations()@[t.idx()].spec_star_name() == star.spec_name()
        }),
{
    let c = n.spec_context();
    let b = spec_branch_from_yin0(k);
    lemma_star_of(n, k, i);
    lemma_edges_of(n, k);
    lemma_edges_of(n, (k + 6) % 12);
    lemma_opposite_position(k);
    assert(Transformation::at(t.idx()) == t);
    let own = n.spec_palaces()@[k].spec_transformations()@[t.idx()];
    let opposite = n.spec_palaces()@[(k + 6) % 12].spec_transformations()@[t.idx()];
    assert(chart_edge_is(own, c, b, t));
    assert(chart_edge_is(opposite, c, b.spec_opposite(), t));
    lemma_self_core(c, b, n.spec_palaces()@[k].spec_stars()[i], own, opposite, t);
}

/// The palace six positions further on the ring stands at the opposite branch.
proof fn lemma_opposite_position(k: int)
    requires
        0 <= k < 12,
    ensures
        spec_branch_from_yin0((k + 6) % 12) == spec_branch_from_yin0(k).spec_opposite(),
{
    lemma_branch_index(Branch::Zi, k + 2);
    lemma_branch_index(Branch::Zi, (k + 6) % 12 + 2);
    lemma_small_mod(k + 2);
    lemma_small_mod(k + 6);
    lemma_small_mod((k + 2) % 12 + 6);
    lemma_small_mod((k + 6) % 12 + 2);
    lemma_branch_index(Branch::Zi, (k + 2) % 12 + 6);
}

/// 天府 stands at the mirror image of 紫微 about the 寅–申 axis of the ring, for every
/// lunar day and bureau (and whatever the month and hour).
#[verifier::rlimit(30)]
pub proof fn law_tian_fu_mirrors_zi_wei(day: int, bureau_number: int, month: int, hour: int)
    requires
        1 <= day <= 30,
        2 <= bureau_number <= 6,
    ensures
        spec_star_branch(StarName::TianFu, day, bureau_number, month, hour).yin0()
            == (12 - spec_star_branch(StarName::ZiWei, day, bureau_number, month, hour).yin0()) % 12,
{
    let z = super::placement::spec_zi_wei_yin0(day, bureau_number);
    assert(0 <= z < 12);
    lemma_yin0_round_trip(Branch::Zi, z);
    lemma_yin0_round_trip(Branch::Zi, (-z) % 12);
    lemma_small_mod(12 - z);
}

/// The bureau, zodiac, direction and periods of a valid chart.
proof fn lemma_periods_of(n: &Natal)
    requires
        n.wf(),
    ensures
        n.spec_bureau() == chart_bureau(n.spec_context()),
        n.spec_zodiac() == Zodiac::spec_from_branch(n.spec_context().spec_birth_branch()),
        n.spec_decade_direction() == DecadeDirection::spec_from_birth_facts(
            n.spec_context().spec_gender(),
            n.spec_context().spec_birth_stem(),
        ),
        forall|i: int| 0 <= i < 12 ==> spec_decade_is(
            #[trigger] n.spec_decades()@[i],
            n.spec_decade_direction(),
            n.spec_context().spec_year(),
            n.spec_ming_palace_branch(),
            n.spec_bureau().spec_number(),
            i,
        ),
{
    reveal(Natal::is_chart_of);
}

/// The stars of chart `n` that carry a birth transformation.
pub open spec fn natal_transformed_stars(n: &Natal) -> Set<StarName> {
    Set::new(|s: StarName| exists|k: int, i: int| #[trigger] natal_holds_star(n, s, k, i)
        && n.spec_palaces()@[k].spec_stars()[i].spec_origin_transformation() is Some)
}

/// Exactly four stars carry a birth transformation: the 禄, 权, 科 and 忌 stars of the
/// birth stem, which are four different stars.
pub proof fn law_four_birth_transformations(n: &Natal)
    requires
        n.wf(),
    ensures
        natal_transformed_stars(n) == set![
            n.spec_context().spec_birth_stem().spec_transformation_star(Transformation::A),
            n.spec_context().spec_birth_stem().spec_transformation_star(Transformation::B),
            n.spec_context().spec_birth_stem().spec_transformation_star(Transformation::C),
            n.spec_context().spec_birth_stem().spec_transformation_star(Transformation::D),
        ],
        natal_transformed_stars(n).len() == 4,
{
    let stem = n.spec_context().spec_birth_stem();
    let a = stem.spec_transformation_star(Transformation::A);
    let b = stem.spec_transformation_star(Transformation::B);
    let c = stem.spec_transformation_star(Transformation::C);
    let d = stem.spec_transformation_star(Transformation::D);
    law_birth_transformations(n, Transformation::A);
    law_birth_transformations(n, Transformation::B);
    law_birth_transformations(n, Transformation::C);
    law_birth_transformations(n, Transformation::D);
    assert forall|s: StarName| natal_transformed_stars(n).contains(s) <==> set![a, b, c, d].contains(s) by {
        if natal_transformed_stars(n).contains(s) {
            let (k, i) = choose|k: int, i: int| #[trigger] natal_holds_star(n, s, k, i)
                && n.spec_palaces()@[k].spec_stars()[i].spec_origin_transformation() is Some;
            assert(natal_star_position(n, k, i));
            let t = n.spec_palaces()@[k].spec_stars()[i].spec_origin_transformation()->0;
            match t {
                Transformation::A => assert(s == a),
                Transformation::B => assert(s == b),
                Transformation::C => assert(s == c),
                Transformation::D => assert(s == d),
            }
        }
        if set![a, b, c, d].contains(s) {
            law_each_star_stands_once(n, s);
            let (k, i) = choose|k: int, i: int| natal_holds_star(n, s, k, i);
            assert(natal_holds_star(n, s, k, i));
            assert(natal_star_position(n, k, i));
            assert(n.spec_palaces()@[k].spec_stars()[i].spec_origin_transformation() is Some);
        }
    }
    assert(natal_transformed_stars(n) =~= set![a, b, c, d]);
    lemma_transformation_row_distinct(stem, Transformation::A, Transformation::B);
    lemma_transformation_row_distinct(stem, Transformation::A, Transformation::C);
    lemma_transformation_row_distinct(stem, Transformation::A, Transformation::D);
    lemma_transformation_row_distinct(stem, Transformation::B, Transformation::C);
    lemma_transformation_row_distinct(stem, Transformation::B, Transformation::D);
    lemma_transformation_row_distinct(stem, Transformation::C, Transformation::D);
    let s0 = Set::<StarName>::empty();
    assert(s0.insert(a).len() == 1);
    assert(s0.insert(a).insert(b).len() == 2);
    assert(s0.insert(a).insert(b).insert(c).len() == 3);
    assert(s0.insert(a).insert(b).insert(c).insert(d).len() == 4);
}

/// A chart built without a lunar year has no year in any period; with one, every year
/// is the lunar year plus the age less one.
pub proof fn law_period_years_follow_the_lunar_year(n: &Natal, i: int, j: int)
    requires
        n.wf(),
        0 <= i < 12,
        0 <= j < 10,
    ensures
        n.spec_context().spec_year() is None ==> n.spec_decades()@[i].spec_years()@[j].spec_year() is None,
        n.spec_context().spec_year() matches Some(y) ==> n.spec_decades()@[i].spec_years()@[j].spec_year()
            == Some((y + n.spec_decades()@[i].spec_years()@[j].spec_age() - 1) as i32),
{
    law_periods_are_consecutive(n, i);
    assert(n.spec_decades()@[i].spec_years()@[j].spec_year()
        == spec_age_year(n.spec_context().spec_year(), n.spec_decades()@[i].spec_years()@[j].spec_age() as int));
}

/// The periods by the polarity of the birth: they run forward exactly when the birth
/// stem is yang (甲, 丙, 戊, 庚, 壬) for a man or yin for a woman; period `i` stands `i`
/// branches from 命 in that direction, and year `j` of it is at age bureau number plus
/// `10 i + j`. 命 stands at 寅 (子 = 0, so 2) moved forward by the month and back by the
/// hour, 身 at 寅 moved forward by both.
pub proof fn law_periods_by_polarity(n: &Natal, i: int, j: int)
    requires
        n.wf(),
        0 <= i < 12,
        0 <= j < 10,
    ensures
        (n.spec_decade_direction() == DecadeDirection::Forward) <==> ((n.spec_context().spec_birth_stem() == Stem::Jia
            || n.spec_context().spec_birth_stem() == Stem::Bing || n.spec_context().spec_birth_stem() == Stem::Wu
            || n.spec_context().spec_birth_stem() == Stem::Geng || n.spec_context().spec_birth_stem() == Stem::Ren)
            == (n.spec_context().spec_gender() == Gender::Yang)),
        n.spec_decade_direction() == DecadeDirection::Forward ==> n.spec_decades()@[i].spec_ming_palace_branch().idx()
            == (n.spec_ming_palace_branch().idx() + i) % 12,
        n.spec_decade_direction() == DecadeDirection::Reverse ==> n.spec_decades()@[i].spec_ming_palace_branch().idx()
            == (n.spec_ming_palace_branch().idx() - i) % 12,
        n.spec_decades()@[i].spec_years()@[j].spec_age() == n.spec_bureau().spec_number() + 10 * i + j,
        n.spec_ming_palace_branch().idx() == (n.spec_context().spec_month() - n.spec_context().spec_hour() + 2) % 12,
        n.spec_shen_palace_branch().idx() == (n.spec_context().spec_month() + n.spec_context().spec_hour() + 2) % 12,
{
    lemma_periods_of(n);
    lemma_coordinates_of(n);
    let c = n.spec_context();
    assert(spec_decade_is(n.spec_decades()@[i], n.spec_decade_direction(), c.spec_year(),
        n.spec_ming_palace_branch(), n.spec_bureau().spec_number(), i));
    lemma_branch_index(n.spec_ming_palace_branch(), n.spec_ming_palace_branch().idx() + i);
    lemma_branch_index(n.spec_ming_palace_branch(), n.spec_ming_palace_branch().idx() - i);
    lemma_branch_index(Branch::Zi, c.spec_month() - c.spec_hour() + 2);
    lemma_branch_index(Branch::Zi, c.spec_month() + c.spec_hour() + 2);
}

/// The twelve periods follow each other: period `i` has index `i`, its 命宫 is the
/// natal 命宫 moved `i` steps in the direction of the chart, its ten ages are
/// consecutive, the first period starts at the bureau number and each period starts one
/// age after the previous one ends; each year is `birth year + age - 1` when the lunar
/// year is known, and absent otherwise.
pub proof fn law_periods_are_consecutive(n: &Natal, i: int)
    requires
        n.wf(),
        0 <= i < 12,
    ensures
        n.spec_decades()@[i].spec_index().spec_get() == i,
        n.spec_decades()@[i].spec_ming_palace_branch()
            == spec_decade_ming_branch(n.spec_ming_palace_branch(), n.spec_decade_direction(), i),
        n.spec_decades()@[0].spec_years()@[0].spec_age() == n.spec_bureau().spec_number(),
        forall|j: int| 0 <= j < 9 ==> (#[trigger] n.spec_decades()@[i].spec_years()@[j + 1]).spec_age()
            == n.spec_decades()@[i].spec_years()@[j].spec_age() + 1,
        i < 11 ==> n.spec_decades()@[i + 1].spec_years()@[0].spec_age() == n.spec_decades()@[i].spec_years()@[9].spec_age() + 1,
        forall|j: int| 0 <= j < 10 ==> (#[trigger] n.spec_decades()@[i].spec_years()@[j]).spec_year()
            == spec_age_year(n.spec_context().spec_year(), n.spec_decades()@[i].spec_years()@[j].spec_age() as int),
{
    lemma_periods_of(n);
    assert(spec_decade_is(n.spec_decades()@[i], n.spec_decade_direction(), n.spec_context().spec_year(),
        n.spec_ming_palace_branch(), n.spec_bureau().spec_number(), i));
    assert(spec_decade_is(n.spec_decades()@[0], n.spec_decade_direction(), n.spec_context().spec_year(),
        n.spec_ming_palace_branch(), n.spec_bureau().spec_number(), 0));
    if i < 11 {
        assert(spec_decade_is(n.spec_decades()@[i + 1], n.spec_decade_direction(), n.spec_context().spec_year(),
            n.spec_ming_palace_branch(), n.spec_bureau().spec_number(), i + 1));
        assert(n.spec_decades()@[i + 1].spec_years()@[0].spec_age() == spec_decade_age(n.spec_bureau().spec_number(), i + 1, 0));
        assert(n.spec_decades()@[i].spec_years()@[9].spec_age() == spec_decade_age(n.spec_bureau().spec_number(), i, 9));
    }
    assert(n.spec_decades()@[0].spec_years()@[0].spec_age() == spec_decade_age(n.spec_bureau().spec_number(), 0, 0));
}

/// The lunar year only reaches the years of the periods: two charts whose birth data
/// agree on gender, year pillar, month, day and hour have the same zodiac, palaces,
/// stars, edges, coordinates, bureau and direction, and periods with the same indices,
/// branches and ages.
pub proof fn law_lunar_year_reaches_only_period_years(n1: &Natal, n2: &Natal)
    requires
        n1.wf(),
        n2.wf(),
        n1.spec_context().spec_gender() == n2.spec_context().spec_gender(),
        n1.spec_context().spec_birth_stem() == n2.spec_context().spec_birth_stem(),
        n1.spec_context().spec_birth_branch() == n2.spec_context().spec_birth_branch(),
        n1.spec_context().spec_month() == n2.spec_context().spec_month(),
        n1.spec_context().spec_day() == n2.spec_context().spec_day(),
        n1.spec_context().spec_hour() == n2.spec_context().spec_hour(),
    ensures
        n1.spec_zodiac() == n2.spec_zodiac(),
        forall|k: int| 0 <= k < 12 ==> {
            &&& (#[trigger] n1.spec_palaces()@[k]).spec_name() == n2.spec_palaces()@[k].spec_name()
            &&& n1.spec_palaces()@[k].spec_branch() == n2.spec_palaces()@[k].spec_branch()
            &&& n1.spec_palaces()@[k].spec_stem() == n2.spec_palaces()@[k].spec_stem()
            &&& n1.spec_palaces()@[k].spec_stars() == n2.spec_palaces()@[k].spec_stars()
            &&& n1.spec_palaces()@[k].spec_transformations() == n2.spec_palaces()@[k].spec_transformations()
            &&& n1.spec_palaces()@[k]@ == n2.spec_palaces()@[k]@
        },
        n1.spec_ming_palace_branch() == n2.spec_ming_palace_branch(),
        n1.spec_shen_palace_name() == n2.spec_shen_palace_name(),
        n1.spec_shen_palace_branch() == n2.spec_shen_palace_branch(),
        n1.spec_origin_palace_name() == n2.spec_origin_palace_name(),
        n1.spec_origin_palace_branch() == n2.spec_origin_palace_branch(),
        n1.spec_bureau() == n2.spec_bureau(),
        n1.spec_decade_direction() == n2.spec_decade_direction(),
        forall|i: int| 0 <= i < 12 ==> {
            &&& (#[trigger] n1.spec_decades()@[i]).spec_index() == n2.spec_decades()@[i].spec_index()
            &&& n1.spec_decades()@[i].spec_ming_palace_branch() == n2.spec_decades()@[i].spec_ming_palace_branch()
            &&& forall|j: int| 0 <= j < 10 ==> (#[trigger] n1.spec_decades()@[i].spec_years()@[j]).spec_age()
                == n2.spec_decades()@[i].spec_years()@[j].spec_age()
        },
{
    let c1 = n1.spec_context();
    let c2 = n2.spec_context();
    lemma_coordinates_of(n1);
    lemma_coordinates_of(n2);
    lemma_periods_of(n1);
    lemma_periods_of(n2);
    assert forall|k: int| 0 <= k < 12 implies {
        &&& (#[trigger] n1.spec_palaces()@[k]).spec_name() == n2.spec_palaces()@[k].spec_name()
        &&& n1.spec_palaces()@[k].spec_branch() == n2.spec_palaces()@[k].spec_branch()
        &&& n1.spec_palaces()@[k].spec_stem() == n2.spec_palaces()@[k].spec_stem()
        &&& n1.spec_palaces()@[k].spec_stars() == n2.spec_palaces()@[k].spec_stars()
        &&& n1.spec_palaces()@[k].spec_transformations() == n2.spec_palaces()@[k].spec_transformations()
        &&& n1.spec_palaces()@[k]@ == n2.spec_palaces()@[k]@
    } by {
        lemma_same_palace(n1, n2, k);
    }
    assert forall|i: int| 0 <= i < 12 implies {
        &&& (#[trigger] n1.spec_decades()@[i]).spec_index() == n2.spec_decades()@[i].spec_index()
        &&& n1.spec_decades()@[i].spec_ming_palace_branch() == n2.spec_decades()@[i].spec_ming_palace_branch()
        &&& forall|j: int| 0 <= j < 10 ==> (#[trigger] n1.spec_decades()@[i].spec_years()@[j]).spec_age()
            == n2.spec_decades()@[i].spec_years()@[j].spec_age()
    } by {
        let d1 = n1.spec_decades()@[i];
        let d2 = n2.spec_decades()@[i];
        assert(spec_decade_is(d1, n1.spec_decade_direction(), c1.spec_year(), n1.spec_ming_palace_branch(), n1.spec_bureau().spec_number(), i));
        assert(spec_decade_is(d2, n2.spec_decade_direction(), c2.spec_year(), n2.spec_ming_palace_branch(), n2.spec_bureau().spec_number(), i));
        super::decade::lemma_decade_index_ext(d1.spec_index(), d2.spec_index());
    }
}

/// The gender only turns the periods around: two charts whose birth data agree on all
/// but the gender have the same zodiac, palaces, stars, edges, coordinates and bureau,
/// opposite directions, the same ages and years in every period, and period `i` of the
/// one stands where period `(12 - i) % 12` of the other stands.
pub proof fn law_gender_changes_only_period_direction(n1: &Natal, n2: &Natal)
    requires
        n1.wf(),
        n2.wf(),
        n1.spec_context().spec_gender() != n2.spec_context().spec_gender(),
        n1.spec_context().spec_year() == n2.spec_context().spec_year(),
        n1.spec_context().spec_birth_stem() == n2.spec_context().spec_birth_stem(),
        n1.spec_context().spec_birth_branch() == n2.spec_context().spec_birth_branch(),
        n1.spec_context().spec_month() == n2.spec_context().spec_month(),
        n1.spec_context().spec_day() == n2.spec_context().spec_day(),
        n1.spec_context().spec_hour() == n2.spec_context().spec_hour(),
    ensures
        n1.spec_zodiac() == n2.spec_zodiac(),
        forall|k: int| 0 <= k < 12 ==> {
            &&& (#[trigger] n1.spec_palaces()@[k]).spec_name() == n2.spec_palaces()@[k].spec_name()
            &&& n1.spec_palaces()@[k].spec_branch() == n2.spec_palaces()@[k].spec_branch()
            &&& n1.spec_palaces()@[k].spec_stem() == n2.spec_palaces()@[k].spec_stem()
            &&& n1.spec_palaces()@[k].spec_stars() == n2.spec_palaces()@[k].spec_stars()
            &&& n1.spec_palaces()@[k].spec_transformations() == n2.spec_palaces()@[k].spec_transformations()
            &&& n1.spec_palaces()@[k]@ == n2.spec_palaces()@[k]@
        },
        n1.spec_ming_palace_branch() == n2.spec_ming_palace_branch(),
        n1.spec_shen_palace_name() == n2.spec_shen_palace_name(),
        n1.spec_shen_palace_branch() == n2.spec_shen_palace_branch(),
        n1.spec_origin_palace_name() == n2.spec_origin_palace_name(),
        n1.spec_origin_palace_branch() == n2.spec_origin_palace_branch(),
        n1.spec_bureau() == n2.spec_bureau(),
        n1.spec_decade_direction() != n2.spec_decade_direction(),
        forall|i: int| 0 <= i < 12 ==> (#[trigger] n1.spec_decades()@[i]).spec_ming_palace_branch()
            == n2.spec_decades()@[(12 - i) % 12].spec_ming_palace_branch(),
        forall|i: int, j: int| 0 <= i < 12 && 0 <= j < 10 ==> {
            &&& (#[trigger] n1.spec_decades()@[i].spec_years()@[j]).spec_age() == n2.spec_decades()@[i].spec_years()@[j].spec_age()
            &&& n1.spec_decades()@[i].spec_years()@[j].spec_year() == n2.spec_decades()@[i].spec_years()@[j].spec_year()
        },
{
    lemma_same_layout(n1, n2);
    lemma_periods_of(n1);
    lemma_periods_of(n2);
    assert forall|i: int| 0 <= i < 12 implies (#[trigger] n1.spec_decades()@[i]).spec_ming_palace_branch()
        == n2.spec_decades()@[(12 - i) % 12].spec_ming_palace_branch() by {
        lemma_turned_period(n1, n2, i);
    }
    assert forall|i: int, j: int| 0 <= i < 12 && 0 <= j < 10 implies {
        &&& (#[trigger] n1.spec_decades()@[i].spec_years()@[j]).spec_age() == n2.spec_decades()@[i].spec_years()@[j].spec_age()
        &&& n1.spec_decades()@[i].spec_years()@[j].spec_year() == n2.spec_decades()@[i].spec_years()@[j].spec_year()
    } by {
        lemma_same_period_years(n1, n2, i, j);
    }
}

/// Period `i` of a chart stands where period `(12 - i) % 12` of a chart with the
/// opposite direction, the same 命宫 and the same bureau stands.
proof fn lemma_turned_period(n1: &Natal, n2: &Natal, i: int)
    requires
        n1.wf(),
        n2.wf(),
        0 <= i < 12,
        n1.spec_decade_direction() != n2.spec_decade_direction(),
        n1.spec_ming_palace_branch() == n2.spec_ming_palace_branch(),
        n1.spec_bureau() == n2.spec_bureau(),
    ensures
        n1.spec_decades()@[i].spec_ming_palace_branch() == n2.spec_decades()@[(12 - i) % 12].spec_ming_palace_branch(),
{
    lemma_periods_of(n1);
    lemma_periods_of(n2);
    let m = n1.spec_ming_palace_branch();
    let bn = n1.spec_bureau().spec_number();
    let i2 = (12 - i) % 12;
    assert(spec_decade_is(n1.spec_decades()@[i], n1.spec_decade_direction(), n1.spec_context().spec_year(), m, bn, i));
    assert(spec_decade_is(n2.spec_decades()@[i2], n2.spec_decade_direction(), n2.spec_context().spec_year(), m, bn, i2));
    lemma_turned_ring(m, i);
}

/// Going `i` steps one way round the ring ends where `(12 - i) % 12` steps the other
/// way end.
#[verifier::rlimit(30)]
proof fn lemma_turned_ring(m: Branch, i: int)
    requires
        0 <= i < 12,
    ensures
        spec_decade_ming_branch(m, DecadeDirection::Forward, i)
            == spec_decade_ming_branch(m, DecadeDirection::Reverse, (12 - i) % 12),
        spec_decade_ming_branch(m, DecadeDirection::Reverse, i)
            == spec_decade_ming_branch(m, DecadeDirection::Forward, (12 - i) % 12),
{
    let a = m.idx();
    let i2 = (12 - i) % 12;
    if i == 0 {
        assert(i2 == 0);
    } else {
        assert(i2 == 12 - i);
        lemma_twelve_apart(a + i);
        lemma_twelve_apart(a - i);
        lemma_at_same_remainder(a + i, a - i2);
        lemma_at_same_remainder(a - i, a + i2);
    }
}

/// Numbers twelve apart leave the same remainder by twelve.
proof fn lemma_twelve_apart(x: int)
    requires
        -12 <= x < 24,
    ensures
        x % 12 == (x - 12) % 12,
        x % 12 == (x + 12) % 12,
{
    lemma_small_mod(x);
    if x >= 0 {
        lemma_small_mod(x - 12);
    }
    if x < 12 {
        lemma_small_mod(x + 12);
    }
    if x < 0 {
        assert((x - 12) % 12 == x + 12) by {
            vstd::arithmetic::div_mod::lemma_mod_add_multiples_vanish(x - 12, 12);
        }
    }
    if x >= 12 {
        assert((x + 12) % 12 == x - 12) by {
            vstd::arithmetic::div_mod::lemma_mod_add_multiples_vanish(x, 12);
        }
    }
}

/// Ring positions with the same remainder by twelve are the same branch.
proof fn lemma_at_same_remainder(x: int, y: int)
    requires
        x % 12 == y % 12,
    ensures
        Branch::at(x) == Branch::at(y),
{
}

/// Ages and years of a period depend only on the bureau and the birth year.
proof fn lemma_same_period_years(n1: &Natal, n2: &Natal, i: int, j: int)
    requires
        n1.wf(),
        n2.wf(),
        0 <= i < 12,
        0 <= j < 10,
        n1.spec_context().spec_year() == n2.spec_context().spec_year(),
        n1.spec_bureau() == n2.spec_bureau(),
    ensures
        n1.spec_decades()@[i].spec_years()@[j].spec_age() == n2.spec_decades()@[i].spec_years()@[j].spec_age(),
        n1.spec_decades()@[i].spec_years()@[j].spec_year() == n2.spec_decades()@[i].spec_years()@[j].spec_year(),
{
    lemma_periods_of(n1);
    lemma_periods_of(n2);
    let bn = n1.spec_bureau().spec_number();
    assert(spec_decade_is(n1.spec_decades()@[i], n1.spec_decade_direction(), n1.spec_context().spec_year(),
        n1.spec_ming_palace_branch(), bn, i));
    assert(spec_decade_is(n2.spec_decades()@[i], n2.spec_decade_direction(), n2.spec_context().spec_year(),
        n2.spec_ming_palace_branch(), bn, i));
}

/// Two charts whose birth data agree on the year pillar, month, day and hour have the
/// same zodiac, palaces, stars, edges, coordinates and bureau.
proof fn lemma_same_layout(n1: &Natal, n2: &Natal)
    requires
        n1.wf(),
        n2.wf(),
        n1.spec_context().spec_birth_stem() == n2.spec_context().spec_birth_stem(),
        n1.spec_context().spec_birth_branch() == n2.spec_context().spec_birth_branch(),
        n1.spec_context().spec_month() == n2.spec_context().spec_month(),
        n1.spec_context().spec_day() == n2.spec_context().spec_day(),
        n1.spec_context().spec_hour() == n2.spec_context().spec_hour(),
    ensures
        n1.spec_zodiac() == n2.spec_zodiac(),
        forall|k: int| 0 <= k < 12 ==> {
            &&& (#[trigger] n1.spec_palaces()@[k]).spec_name() == n2.spec_palaces()@[k].spec_name()
            &&& n1.spec_palaces()@[k].spec_branch() == n2.spec_palaces()@[k].spec_branch()
            &&& n1.spec_palaces()@[k].spec_stem() == n2.spec_palaces()@[k].spec_stem()
            &&& n1.spec_palaces()@[k].spec_stars() == n2.spec_palaces()@[k].spec_stars()
            &&& n1.spec_palaces()@[k].spec_transformations() == n2.spec_palaces()@[k].spec_transformations()
            &&& n1.spec_palaces()@[k]@ == n2.spec_palaces()@[k]@
        },
        n1.spec_ming_palace_branch() == n2.spec_ming_palace_branch(),
        n1.spec_shen_palace_name() == n2.spec_shen_palace_name(),
        n1.spec_shen_palace_branch() == n2.spec_shen_palace_branch(),
        n1.spec_origin_palace_name() == n2.spec_origin_palace_name(),
        n1.spec_origin_palace_branch() == n2.spec_origin_palace_branch(),
        n1.spec_bureau() == n2.spec_bureau(),
{
    lemma_coordinates_of(n1);
    lemma_coordinates_of(n2);
    lemma_periods_of(n1);
    lemma_periods_of(n2);
    assert forall|k: int| 0 <= k < 12 implies {
        &&& (#[trigger] n1.spec_palaces()@[k]).spec_name() == n2.spec_palaces()@[k].spec_name()
        &&& n1.spec_palaces()@[k].spec_branch() == n2.spec_palaces()@[k].spec_branch()
        &&& n1.spec_palaces()@[k].spec_stem() == n2.spec_palaces()@[k].spec_stem()
        &&& n1.spec_palaces()@[k].spec_stars() == n2.spec_palaces()@[k].spec_stars()
        &&& n1.spec_palaces()@[k].spec_transformations() == n2.spec_palaces()@[k].spec_transformations()
        &&& n1.spec_palaces()@[k]@ == n2.spec_palaces()@[k]@
    } by {
        lemma_same_palace(n1, n2, k);
    }
}

/// The palaces at the same ring position of two charts with the same birth data but for
/// the lunar year and the gender are equal in every published field.
proof fn lemma_same_palace(n1: &Natal, n2: &Natal, k: int)
    requires
        n1.wf(),
        n2.wf(),
        0 <= k < 12,
        n1.spec_context().spec_birth_stem() == n2.spec_context().spec_birth_stem(),
        n1.spec_context().spec_birth_branch() == n2.spec_context().spec_birth_branch(),
        n1.spec_context().spec_month() == n2.spec_context().spec_month(),
        n1.spec_context().spec_day() == n2.spec_context().spec_day(),
        n1.spec_context().spec_hour() == n2.spec_context().spec_hour(),
    ensures
        n1.spec_palaces()@[k].spec_name() == n2.spec_palaces()@[k].spec_name(),
        n1.spec_palaces()@[k].spec_branch() == n2.spec_palaces()@[k].spec_branch(),
        n1.spec_palaces()@[k].spec_stem() == n2.spec_palaces()@[k].spec_stem(),
        n1.spec_palaces()@[k].spec_stars() == n2.spec_palaces()@[k].spec_stars(),
        n1.spec_palaces()@[k].spec_transformations() == n2.spec_palaces()@[k].spec_transformations(),
{
    let c1 = n1.spec_context();
    let c2 = n2.spec_context();
    let b = spec_branch_from_yin0(k);
    let p1 = n1.spec_palaces()@[k];
    let p2 = n2.spec_palaces()@[k];
    lemma_palace_of(n1, k);
    lemma_palace_of(n2, k);
    assert(chart_stars_at(c1, b, 18) == chart_stars_at(c2, b, 18)) by {
        lemma_same_stars_at(c1, c2, b, 18);
    }
    assert(p1.spec_stars() =~= p2.spec_stars()) by {
        assert forall|i: int| 0 <= i < p1.spec_stars().len() implies p1.spec_stars()[i] == p2.spec_stars()[i] by {
            super::star::lemma_star_ext(p1.spec_stars()[i], p2.spec_stars()[i]);
        }
    }
    assert(p1.spec_transformations()@ =~= p2.spec_transformations()@) by {
        assert forall|t: int| 0 <= t < 4 implies p1.spec_transformations()@[t] == p2.spec_transformations()@[t] by {
            super::palace::lemma_edge_ext(p1.spec_transformations()@[t], p2.spec_transformations()@[t]);
        }
    }
}

/// The stars listed at a branch do not depend on the lunar year or the gender.
proof fn lemma_same_stars_at(c1: NatalContext, c2: NatalContext, b: Branch, n: int)
    requires
        c1.spec_birth_stem() == c2.spec_birth_stem(),
        c1.spec_month() == c2.spec_month(),
        c1.spec_day() == c2.spec_day(),
        c1.spec_hour() == c2.spec_hour(),
    ensures
        chart_stars_at(c1, b, n) == chart_stars_at(c2, b, n),
    decreases n,
{
    if n > 0 {
        lemma_same_stars_at(c1, c2, b, n - 1);
    }
}

} // verus!
