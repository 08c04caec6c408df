//! The chart object: its construction from validated birth data and its queries.
//!
//! The natal chart is fixed once built; a [`ZiweiView`] only relabels the duties and
//! adds the layer transformations of a ten-year step or a year.
use super::fly::ZiweiFly;
use super::palace::Palace;
use super::parallel::join;
use super::view::{
    spec_layer_transformation, stem_layer_transformations, DecadeStep, DecadeYear, DecadeYearsError, LayerTransformation, ZiweiView,
};
use crate::branch::Branch;
use crate::bureau::FiveElementBureau;
use crate::decade::{spec_decade_ming_branch, DecadeDirection, DecadeIndex};
use crate::input::{
    branch_from_year, spec_branch_from_year,
    spec_stem_from_year, stem_from_year, Gender, ZiweiBirth, ZiweiInput, ZiweiInputError,
};
use crate::palace_name::PalaceName;
use crate::placement::{
    bureau_from_ming_palace, compute_major_star_branches, compute_minor_star_branches, compute_ming_shen_branches,
    compute_palace_placements, compute_palace_stems, merge_star_branches, spec_bureau, spec_major_star_yin0,
    spec_ming_palace_branch, spec_palace_name, spec_palace_stem, spec_shen_palace_branch, spec_star_branch,
    spec_zi_wei_yin0, MingShenBranches, MinorStarBranches, PalacePlacement,
};
use crate::position::spec_branch_from_yin0;
use crate::star::StarName;
use crate::stem::Stem;
use crate::transformation::Transformation;
use vstd::prelude::*;

verus! {

/// The palace at branch `b` when 命 stands at `ming`: duty counted backward from 命,
/// branch `b`, stem by the five-tiger rule.
pub open spec fn chart_palace_is_at(p: Palace, birth_stem: Stem, ming: Branch, b: Branch) -> bool {
    &&& p.spec_role() == spec_palace_name(ming, b)
    &&& p.spec_branch() == b
    &&& p.spec_stem() == spec_palace_stem(birth_stem, b)
}

/// The palace at branch `b` of the chart of `input`.
pub open spec fn chart_palace_is(p: Palace, input: ZiweiInput, b: Branch) -> bool {
    chart_palace_is_at(p, input.spec_birth_stem(), spec_ming_palace_branch(input.spec_month() as int, input.spec_hour() as int), b)
}

/// Bureau of the chart of `input`.
pub open spec fn chart_bureau_of(input: ZiweiInput) -> FiveElementBureau {
    spec_bureau(input.spec_birth_stem(), spec_ming_palace_branch(input.spec_month() as int, input.spec_hour() as int))
}

/// Branch of star `s` in the chart of `input`.
pub open spec fn chart_star_branch_of(input: ZiweiInput, s: StarName) -> Branch {
    spec_star_branch(
        s,
        input.spec_day() as int,
        chart_bureau_of(input).spec_number(),
        input.spec_month() as int,
        input.spec_hour() as int,
    )
}

/// Whether `f` is the fly that the palace at `source` sends with `t`, given the palace
/// stem and the branches of the stars.
pub open spec fn fly_is(f: ZiweiFly, source: Branch, t: Transformation, stem: Stem, star_branches: Seq<Branch>) -> bool {
    let star = stem.spec_transformation_star(t);
    &&& f.spec_source_branch() == source
    &&& f.spec_transformation() == t
    &&& f.spec_star() == star
    &&& f.spec_target_branch() == star_branches[star.idx()]
}

/// Ten-year step `i` of a chart with the given birth facts, 命 branch and bureau number.
pub open spec fn spec_decade_step(gender: Gender, birth_stem: Stem, ming: Branch, bureau_number: int, i: int) -> DecadeStep {
    let direction = DecadeDirection::spec_from_birth_facts(gender, birth_stem);
    let branch = spec_decade_ming_branch(ming, direction, i);
    DecadeStep {
        step: i as u8,
        ming_branch: branch,
        age_start: (bureau_number + 10 * i) as u8,
        age_end: (bureau_number + 10 * i + 9) as u8,
        stem: spec_palace_stem(birth_stem, branch),
    }
}

/// Branch of the 命 of a view, when the view names one: the natal 命, the 命 of the
/// ten-year step, or the branch of the year.
pub open spec fn spec_view_ming_branch(ming: Branch, steps: Seq<DecadeStep>, view: ZiweiView) -> Option<Branch> {
    match view {
        ZiweiView::Natal => Some(ming),
        ZiweiView::Decade { step } => if step < 12 {
            Some(steps[step as int].ming_branch)
        } else {
            None
        },
        ZiweiView::Annual { year } => Some(spec_branch_from_year(year as int)),
    }
}

/// Branch that duty `role` takes when 命 stands at `ming`: duties run backward.
pub open spec fn spec_role_branch(ming: Branch, role: PalaceName) -> Branch {
    Branch::at(ming.idx() - role.idx())
}

/// Stars among the first `n` of the catalogue whose branch in `star_branches` is `b`,
/// in catalogue order.
pub open spec fn spec_stars_at(star_branches: Seq<Branch>, b: Branch, n: int) -> Seq<StarName>
    decreases n,
{
    if n <= 0 {
        Seq::empty()
    } else {
        let prev = spec_stars_at(star_branches, b, n - 1);
        if star_branches[n - 1] == b {
            prev.push(StarName::at(n - 1))
        } else {
            prev
        }
    }
}

/// The queryable chart: twelve natal palaces, the branches of the eighteen stars, the
/// forty-eight flies and the twelve ten-year steps, all computed at construction.
#[derive(Debug, Clone, Copy, PartialEq, Eq)]
pub struct Ziwei {
    input: ZiweiInput,
    palaces: [Palace; 12],
    ming_branch: Branch,
    shen_branch: Branch,
    bureau: FiveElementBureau,
    birth_year: Option<i32>,
    star_branches: [Branch; 18],
    flies: [ZiweiFly; 48],
    decade_steps: [DecadeStep; 12],
}

/// A chart read under a view; it borrows the chart and copies nothing.
#[derive(Debug, Clone, Copy)]
pub struct ZiweiHandle<'a> {
    chart: &'a Ziwei,
    view: ZiweiView,
}

impl Ziwei {
    /// Birth data held.
    pub closed spec fn spec_input(&self) -> ZiweiInput {
        self.input
    }

    /// Palaces held, indexed by branch (子 = 0).
    pub closed spec fn spec_palaces(&self) -> [Palace; 12] {
        self.palaces
    }

    /// Branch of 命 held.
    pub closed spec fn spec_ming_branch(&self) -> Branch {
        self.ming_branch
    }

    /// Branch of 身 held.
    pub closed spec fn spec_shen_branch(&self) -> Branch {
        self.shen_branch
    }

    /// Bureau held.
    pub closed spec fn spec_bureau(&self) -> FiveElementBureau {
        self.bureau
    }

    /// Real lunar birth year held, absent for a chart built from a year pillar only.
    pub closed spec fn spec_birth_year(&self) -> Option<i32> {
        self.birth_year
    }

    /// Star branches held, indexed by catalogue position.
    pub closed spec fn spec_star_branches(&self) -> [Branch; 18] {
        self.star_branches
    }

    /// Flies held.
    pub closed spec fn spec_flies(&self) -> [ZiweiFly; 48] {
        self.flies
    }

    /// Ten-year steps held.
    pub closed spec fn spec_decade_steps(&self) -> [DecadeStep; 12] {
        self.decade_steps
    }

    /// Whether this value is the chart of `input` with the real lunar birth year
    /// `birth_year`, if there is one.
    #[verifier::opaque]
    pub open spec fn is_chart_of(&self, input: ZiweiInput, birth_year: Option<i32>) -> bool {
        let month = input.spec_month() as int;
        let hour = input.spec_hour() as int;
        let stem = input.spec_birth_stem();
        let ming = spec_ming_palace_branch(month, hour);
        let bureau = chart_bureau_of(input);
        &&& self.spec_input() == input
        &&& self.spec_ming_branch() == ming
        &&& self.spec_shen_branch() == spec_shen_palace_branch(month, hour)
        &&& self.spec_bureau() == bureau
        &&& self.spec_birth_year() == birth_year
        &&& forall|b: int| 0 <= b < 12 ==> chart_palace_is(#[trigger] self.spec_palaces()@[b], input, Branch::at(b))
        &&& forall|s: int| 0 <= s < 18 ==> #[trigger] self.spec_star_branches()@[s] == chart_star_branch_of(input, StarName::at(s))
        &&& forall|f: int| 0 <= f < 48 ==> fly_is(
            #[trigger] self.spec_flies()@[f],
            Branch::at(f / 4),
            Transformation::at(f % 4),
            spec_palace_stem(stem, Branch::at(f / 4)),
            self.spec_star_branches()@,
        )
        &&& forall|i: int| 0 <= i < 12 ==> #[trigger] self.spec_decade_steps()@[i] == spec_decade_step(
            input.spec_gender(),
            stem,
            ming,
            bureau.spec_number(),
            i,
        )
    }

    /// Every chart is the chart of its own validated birth data.
    #[verifier::type_invariant]
    pub open spec fn wf(&self) -> bool {
        &&& self.spec_input().wf()
        &&& self.is_chart_of(self.spec_input(), self.spec_birth_year())
    }
}

/// 命 and 身, the palace stems and the minor stars: three independent computations.
fn wave1(birth_stem: Stem, month: u8, hour: u8) -> (r: (MingShenBranches, [Stem; 12], MinorStarBranches))
    ensures
        r.0.ming_palace == spec_ming_palace_branch(month as int, hour as int),
        r.0.shen_palace == spec_shen_palace_branch(month as int, hour as int),
        forall|i: int| 0 <= i < 12 ==> #[trigger] r.1@[i] == spec_palace_stem(birth_stem, Branch::at(i)),
        r.2.zuo_fu == spec_branch_from_yin0(2 + month as int),
        r.2.you_bi == spec_branch_from_yin0(8 - month as int),
        r.2.wen_chang == spec_branch_from_yin0(8 - hour as int),
        r.2.wen_qu == spec_branch_from_yin0(2 + hour as int),
{
    let ((ming_shen, stems), minors) = join(
        (move || -> (r: (MingShenBranches, [Stem; 12]))
            ensures
                r.0.ming_palace == spec_ming_palace_branch(month as int, hour as int),
                r.0.shen_palace == spec_shen_palace_branch(month as int, hour as int),
                forall|i: int| 0 <= i < 12 ==> #[trigger] r.1@[i] == spec_palace_stem(birth_stem, Branch::at(i)),
            {
                join(
                    (move || -> (r: MingShenBranches)
                        ensures
                            r.ming_palace == spec_ming_palace_branch(month as int, hour as int),
                            r.shen_palace == spec_shen_palace_branch(month as int, hour as int),
                        { compute_ming_shen_branches(month, hour) }),
                    (move || -> (r: [Stem; 12])
                        ensures
                            forall|i: int| 0 <= i < 12 ==> #[trigger] r@[i] == spec_palace_stem(birth_stem, Branch::at(i)),
                        { compute_palace_stems(birth_stem) }),
                )
            }),
        (move || -> (r: MinorStarBranches)
            ensures
                r.zuo_fu == spec_branch_from_yin0(2 + month as int),
                r.you_bi == spec_branch_from_yin0(8 - month as int),
                r.wen_chang == spec_branch_from_yin0(8 - hour as int),
                r.wen_qu == spec_branch_from_yin0(2 + hour as int),
            { compute_minor_star_branches(month, hour) }),
    );
    (ming_shen, stems, minors)
}

/// The twelve palaces, indexed by branch, from the 命 branch and the palace stems.
pub(crate) fn assemble_palaces(ming: Branch, stems: &[Stem; 12]) -> (r: [Palace; 12])
    ensures
        forall|b: int| 0 <= b < 12 ==> {
            &&& (#[trigger] r@[b]).spec_role() == spec_palace_name(ming, Branch::at(b))
            &&& r@[b].spec_branch() == Branch::at(b)
            &&& r@[b].spec_stem() == stems@[b]
        },
{
    let placements = compute_palace_placements(ming, stems);
    let placeholder = Palace::new(PalaceName::Ming, Branch::Zi, Stem::Jia);
    let mut palaces = [placeholder; 12];
    let mut i: usize = 0;
    while i < 12
        invariant
            0 <= i <= 12,
            forall|k: int| 0 <= k < 12 ==> (#[trigger] placements@[k]) == (PalacePlacement {
                name: spec_palace_name(ming, Branch::at(k)),
                branch: Branch::at(k),
                stem: stems@[k],
            }),
            forall|k: int| 0 <= k < i ==> {
                &&& (#[trigger] palaces@[k]).spec_role() == spec_palace_name(ming, Branch::at(k))
                &&& palaces@[k].spec_branch() == Branch::at(k)
                &&& palaces@[k].spec_stem() == stems@[k]
            },
        decreases 12 - i,
    {
        let placement = placements[i];
        palaces[i] = Palace::new(placement.name, placement.branch, placement.stem);
        i = i + 1;
    }
    palaces
}

/// The forty-eight flies: for each branch from 子 and each transformation from 禄, the
/// palace stem transforms a star, which stands at its branch.
fn build_palace_flies(palaces: &[Palace; 12], star_branches: &[Branch; 18]) -> (r: [ZiweiFly; 48])
    requires
        forall|b: int| 0 <= b < 12 ==> (#[trigger] palaces@[b]).spec_branch() == Branch::at(b),
    ensures
        forall|f: int| 0 <= f < 48 ==> fly_is(
            #[trigger] r@[f],
            Branch::at(f / 4),
            Transformation::at(f % 4),
            palaces@[f / 4].spec_stem(),
            star_branches@,
        ),
{
    let placeholder = ZiweiFly::new(Branch::Zi, Transformation::A, Branch::Zi, StarName::ZiWei);
    let mut flies = [placeholder; 48];
    let all = Transformation::all();
    let mut b: usize = 0;
    while b < 12
        invariant
            0 <= b <= 12,
            forall|k: int| 0 <= k < 12 ==> (#[trigger] palaces@[k]).spec_branch() == Branch::at(k),
            forall|j: int| 0 <= j < 4 ==> #[trigger] all@[j] == Transformation::at(j),
            forall|f: int| 0 <= f < 4 * b ==> fly_is(
                #[trigger] flies@[f],
                Branch::at(f / 4),
                Transformation::at(f % 4),
                palaces@[f / 4].spec_stem(),
                star_branches@,
            ),
        decreases 12 - b,
    {
        let source = palaces[b].branch();
        let stem = palaces[b].stem();
        let mut t: usize = 0;
        while t < 4
            invariant
                0 <= b < 12,
                0 <= t <= 4,
                source == Branch::at(b as int),
                stem == palaces@[b as int].spec_stem(),
                forall|j: int| 0 <= j < 4 ==> #[trigger] all@[j] == Transformation::at(j),
                forall|f: int| 0 <= f < 4 * b + t ==> fly_is(
                    #[trigger] flies@[f],
                    Branch::at(f / 4),
                    Transformation::at(f % 4),
                    palaces@[f / 4].spec_stem(),
                    star_branches@,
                ),
            decreases 4 - t,
        {
            let transformation = all[t];
            let star = stem.transformation_star(transformation);
            let fly = ZiweiFly::new(source, transformation, star_branches[star.index()], star);
            let f: usize = 4 * b + t;
            flies[f] = fly;
            assert(f as int / 4 == b && f as int % 4 == t);
            t = t + 1;
        }
        b = b + 1;
    }
    flies
}

/// Ten-year step `i`: its 命 moves `i` branches from the natal 命 in the direction of the
/// chart, its ages start `10 * i` years after the bureau number.
fn decade_step_at(
    gender: Gender,
    birth_stem: Stem,
    direction: DecadeDirection,
    ming: Branch,
    bureau_number: u8,
    palaces: &[Palace; 12],
    i: u8,
) -> (r: DecadeStep)
    requires
        2 <= bureau_number <= 6,
        i < 12,
        direction == DecadeDirection::spec_from_birth_facts(gender, birth_stem),
        forall|b: int| 0 <= b < 12 ==> (#[trigger] palaces@[b]).spec_stem() == spec_palace_stem(birth_stem, Branch::at(b)),
    ensures
        r == spec_decade_step(gender, birth_stem, ming, bureau_number as int, i as int),
{
    let m = ming.index() as u8;
    let branch = match direction {
        DecadeDirection::Forward => {
            proof {
                crate::branch::lemma_branch_index(Branch::Zi, m + i);
            }
            Branch::from_index((m + i) % 12)
        },
        DecadeDirection::Reverse => {
            proof {
                vstd::arithmetic::div_mod::lemma_mod_add_multiples_vanish(m - i, 12);
                crate::branch::lemma_branch_index(Branch::Zi, m - i);
            }
            Branch::from_index((m + 12 - i) % 12)
        },
    };
    proof {
        crate::branch::lemma_branch_index(branch, 0);
    }
    let age_start: u8 = bureau_number + 10 * i;
    DecadeStep { step: i, ming_branch: branch, age_start, age_end: age_start + 9, stem: palaces[branch.index()].stem() }
}

/// The twelve ten-year steps: the first starts at 命 and at the bureau number, each
/// step moves one branch in the direction of the chart and ten years on.
fn build_decade_steps(
    gender: Gender,
    birth_stem: Stem,
    ming: Branch,
    bureau_number: u8,
    palaces: &[Palace; 12],
) -> (r: [DecadeStep; 12])
    requires
        2 <= bureau_number <= 6,
        forall|b: int| 0 <= b < 12 ==> (#[trigger] palaces@[b]).spec_stem() == spec_palace_stem(birth_stem, Branch::at(b)),
    ensures
        forall|i: int| 0 <= i < 12 ==> #[trigger] r@[i] == spec_decade_step(gender, birth_stem, ming, bureau_number as int, i),
{
    let direction = DecadeDirection::from_birth_facts(gender, birth_stem);
    let placeholder = DecadeStep { step: 0, ming_branch: Branch::Zi, age_start: 0, age_end: 0, stem: Stem::Jia };
    let mut steps = [placeholder; 12];
    let mut i: u8 = 0;
    while i < 12
        invariant
            0 <= i <= 12,
            2 <= bureau_number <= 6,
            direction == DecadeDirection::spec_from_birth_facts(gender, birth_stem),
            forall|b: int| 0 <= b < 12 ==> (#[trigger] palaces@[b]).spec_stem() == spec_palace_stem(birth_stem, Branch::at(b)),
            forall|k: int| 0 <= k < i ==> #[trigger] steps@[k] == spec_decade_step(gender, birth_stem, ming, bureau_number as int, k),
        decreases 12 - i,
    {
        let step = decade_step_at(gender, birth_stem, direction, ming, bureau_number, palaces, i);
        steps[i as usize] = step;
        i = i + 1;
    }
    steps
}

/// The palaces beside the fourteen major stars: two independent computations.
fn wave2b_and_majors(ming: Branch, stems: &[Stem; 12], day: u8, bureau_number: u8) -> (r: ([Palace; 12], [Branch; 18]))
    requires
        2 <= bureau_number <= 6,
    ensures
        forall|b: int| 0 <= b < 12 ==> {
            &&& (#[trigger] r.0@[b]).spec_role() == spec_palace_name(ming, Branch::at(b))
            &&& r.0@[b].spec_branch() == Branch::at(b)
            &&& r.0@[b].spec_stem() == stems@[b]
        },
        forall|i: int| 0 <= i < 14 ==> #[trigger] r.1@[i] == spec_branch_from_yin0(
            spec_major_star_yin0(StarName::at(i), spec_zi_wei_yin0(day as int, bureau_number as int)),
        ),
{
    join(
        (move || -> (r: [Palace; 12])
            ensures
                forall|b: int| 0 <= b < 12 ==> {
                    &&& (#[trigger] r@[b]).spec_role() == spec_palace_name(ming, Branch::at(b))
                    &&& r@[b].spec_branch() == Branch::at(b)
                    &&& r@[b].spec_stem() == stems@[b]
                },
            { assemble_palaces(ming, stems) }),
        (move || -> (r: [Branch; 18])
            requires
                2 <= bureau_number <= 6,
            ensures
                forall|i: int| 0 <= i < 14 ==> #[trigger] r@[i] == spec_branch_from_yin0(
                    spec_major_star_yin0(StarName::at(i), spec_zi_wei_yin0(day as int, bureau_number as int)),
                ),
            { compute_major_star_branches(day, bureau_number) }),
    )
}

/// The flies beside the ten-year steps: two independent computations.
fn wave4_flies_and_decade(
    gender: Gender,
    birth_stem: Stem,
    ming: Branch,
    bureau_number: u8,
    palaces: &[Palace; 12],
    star_branches: &[Branch; 18],
) -> (r: ([ZiweiFly; 48], [DecadeStep; 12]))
    requires
        2 <= bureau_number <= 6,
        forall|b: int| 0 <= b < 12 ==> (#[trigger] palaces@[b]).spec_branch() == Branch::at(b),
        forall|b: int| 0 <= b < 12 ==> (#[trigger] palaces@[b]).spec_stem() == spec_palace_stem(birth_stem, Branch::at(b)),
    ensures
        forall|f: int| 0 <= f < 48 ==> fly_is(
            #[trigger] r.0@[f],
            Branch::at(f / 4),
            Transformation::at(f % 4),
            palaces@[f / 4].spec_stem(),
            star_branches@,
        ),
        forall|i: int| 0 <= i < 12 ==> #[trigger] r.1@[i] == spec_decade_step(gender, birth_stem, ming, bureau_number as int, i),
{
    join(
        (move || -> (r: [ZiweiFly; 48])
            requires
                forall|b: int| 0 <= b < 12 ==> (#[trigger] palaces@[b]).spec_branch() == Branch::at(b),
            ensures
                forall|f: int| 0 <= f < 48 ==> fly_is(
                    #[trigger] r@[f],
                    Branch::at(f / 4),
                    Transformation::at(f % 4),
                    palaces@[f / 4].spec_stem(),
                    star_branches@,
                ),
            { build_palace_flies(palaces, star_branches) }),
        (move || -> (r: [DecadeStep; 12])
            requires
                2 <= bureau_number <= 6,
                forall|b: int| 0 <= b < 12 ==> (#[trigger] palaces@[b]).spec_stem() == spec_palace_stem(birth_stem, Branch::at(b)),
            ensures
                forall|i: int| 0 <= i < 12 ==> #[trigger] r@[i] == spec_decade_step(gender, birth_stem, ming, bureau_number as int, i),
            { build_decade_steps(gender, birth_stem, ming, bureau_number, palaces) }),
    )
}

/// Computes the whole chart of a validated input: first 命, 身, the palace stems and the
/// minor stars side by side; then the bureau; then the palaces beside the major stars;
/// then the flies beside the ten-year steps.
fn from_validated_input(input: ZiweiInput, birth_year: Option<i32>) -> (r: Ziwei)
    requires
        input.wf(),
    ensures
        r.wf(),
        r.is_chart_of(input, birth_year),
        r.spec_input() == input,
        r.spec_birth_year() == birth_year,
{
    proof {
        input.lemma_wf();
    }
    let gender = input.gender();
    let birth_stem = input.birth_stem();
    let month = input.month();
    let day = input.day();
    let hour = input.hour();
    let (ming_shen, stems, minors) = wave1(birth_stem, month, hour);
    let ming = ming_shen.ming_palace;
    proof {
        crate::branch::lemma_branch_index(ming, 0);
    }
    let bureau = bureau_from_ming_palace(ming, &stems);
    let bureau_number = bureau.number();
    let (palaces, majors) = wave2b_and_majors(ming, &stems, day, bureau_number);
    let star_branches = merge_star_branches(majors, minors);
    proof {
        assert forall|s: int| 0 <= s < 18 implies #[trigger] star_branches@[s] == chart_star_branch_of(input, StarName::at(s)) by {
            crate::star::lemma_star_index(StarName::at(s), StarName::at(s));
        }
    }
    let (flies, decade_steps) = wave4_flies_and_decade(gender, birth_stem, ming, bureau_number, &palaces, &star_branches);
    let ghost model = Ziwei {
        input,
        palaces,
        ming_branch: ming,
        shen_branch: ming_shen.shen_palace,
        bureau,
        birth_year,
        star_branches,
        flies,
        decade_steps,
    };
    assert(model.is_chart_of(input, birth_year)) by {
        reveal(Ziwei::is_chart_of);
        assert forall|f: int| 0 <= f < 48 implies fly_is(
            #[trigger] model.spec_flies()@[f],
            Branch::at(f / 4),
            Transformation::at(f % 4),
            spec_palace_stem(birth_stem, Branch::at(f / 4)),
            model.spec_star_branches()@,
        ) by {
            assert(palaces@[f / 4].spec_stem() == stems@[f / 4]);
        }
    }
    Ziwei {
        input,
        palaces,
        ming_branch: ming,
        shen_branch: ming_shen.shen_palace,
        bureau,
        birth_year,
        star_branches,
        flies,
        decade_steps,
    }
}

/// The four layer transformations of `stem`, in the order 禄, 权, 科, 忌, with the
/// branches of the transformed stars taken from `star_branches`.
pub open spec fn layer_is(a: [LayerTransformation; 4], stem: Stem, star_branches: Seq<Branch>) -> bool {
    forall|t: int| 0 <= t < 4 ==> #[trigger] a@[t] == spec_layer_transformation(stem, star_branches, Transformation::at(t))
}

impl Ziwei {
    /// Branch that duty `role` takes under `view`; none for a ten-year step outside `0..=11`.
    pub open spec fn spec_branch_of_role(&self, role: PalaceName, view: ZiweiView) -> Option<Branch> {
        match spec_view_ming_branch(self.spec_ming_branch(), self.spec_decade_steps()@, view) {
            Some(ming) => Some(spec_role_branch(ming, role)),
            None => None,
        }
    }

    /// Builds the chart of a validated birth record; the chart keeps the lunar year for
    /// its timeline queries. A validated record always yields a chart.
    pub fn from_birth(birth: ZiweiBirth) -> (r: Result<Ziwei, ZiweiInputError>)
        ensures
            r matches Ok(z) && z.wf() && z.spec_birth_year() == Some(birth.spec_year())
                && z.spec_input().spec_gender() == birth.spec_gender()
                && z.spec_input().spec_birth_stem() == spec_stem_from_year(birth.spec_year() as int)
                && z.spec_input().spec_birth_branch() == spec_branch_from_year(birth.spec_year() as int)
                && z.spec_input().spec_month() == birth.spec_month()
                && z.spec_input().spec_day() == birth.spec_day()
                && z.spec_input().spec_hour() == birth.spec_hour(),
    {
        proof {
            use_type_invariant(&birth);
            birth.lemma_wf();
        }
        let year = birth.year();
        let input = ZiweiInput::from_birth(birth);
        Ok(from_validated_input(input, Some(year)))
    }

    /// Builds the chart of a validated raw input. A year pillar names no real lunar
    /// year, so the chart holds none. A validated input always yields a chart.
    pub fn from_input(input: ZiweiInput) -> (r: Result<Ziwei, ZiweiInputError>)
        ensures
            r matches Ok(z) && z.wf() && z.spec_input() == input && z.spec_birth_year() == None::<i32>,
    {
        proof {
            use_type_invariant(&input);
        }
        Ok(from_validated_input(input, None))
    }

    /// The natal palace at a branch.
    pub fn palace_at(&self, branch: Branch) -> (r: &Palace)
        ensures
            *r == self.spec_palaces()@[branch.idx()],
    {
        &self.palaces[branch.index()]
    }

    /// Branch of 身.
    pub fn shen_branch(&self) -> (r: Branch)
        ensures
            r == self.spec_shen_branch(),
    {
        self.shen_branch
    }

    /// Natal duty of the palace on which 身 lies.
    pub fn shen_natal_role(&self) -> (r: PalaceName)
        ensures
            r == self.spec_palaces()@[self.spec_shen_branch().idx()].spec_role(),
            r == spec_palace_name(self.spec_ming_branch(), self.spec_shen_branch()),
    {
        proof {
            use_type_invariant(self);
            reveal(Ziwei::is_chart_of);
            crate::branch::lemma_branch_index(self.shen_branch, 0);
        }
        self.palace_at(self.shen_branch).role()
    }

    /// Five-element bureau of 命.
    pub fn bureau(&self) -> (r: FiveElementBureau)
        ensures
            r == self.spec_bureau(),
    {
        self.bureau
    }

    /// Year stem of the birth.
    pub fn birth_stem(&self) -> (r: Stem)
        ensures
            r == self.spec_input().spec_birth_stem(),
    {
        self.input.birth_stem()
    }

    /// Real lunar birth year: present for a chart built from a birth record, absent for
    /// one built from a year pillar only.
    pub fn birth_year(&self) -> (r: Option<i32>)
        ensures
            r == self.spec_birth_year(),
    {
        self.birth_year
    }

    /// Gender of the native.
    pub fn gender(&self) -> (r: Gender)
        ensures
            r == self.spec_input().spec_gender(),
    {
        self.input.gender()
    }

    /// Stars standing at a branch, in catalogue order.
    pub fn stars_at(&self, branch: Branch) -> (r: Vec<StarName>)
        ensures
            r@ == spec_stars_at(self.spec_star_branches()@, branch, 18),
    {
        let catalogue = StarName::all();
        let mut stars: Vec<StarName> = Vec::new();
        let mut i: usize = 0;
        while i < 18
            invariant
                0 <= i <= 18,
                forall|k: int| 0 <= k < 18 ==> #[trigger] catalogue@[k] == StarName::at(k),
                stars@ == spec_stars_at(self.spec_star_branches()@, branch, i as int),
            decreases 18 - i,
        {
            if self.star_branches[i] == branch {
                stars.push(catalogue[i]);
            }
            i = i + 1;
        }
        stars
    }

    /// Branch at which a star stands.
    pub fn branch_of_star(&self, star: StarName) -> (r: Branch)
        ensures
            r == self.spec_star_branches()@[star.idx()],
    {
        self.star_branches[star.index()]
    }

    /// Origin branch (来因) of the birth stem, by the fixed table in which 丙 gives 辰.
    pub fn laiyin_branch(&self) -> (r: Branch)
        ensures
            r == self.spec_input().spec_birth_stem().spec_laiyin_branch(),
    {
        self.birth_stem().laiyin_branch()
    }

    /// The four birth transformations (生年四化); they do not depend on any view.
    pub fn year_transformations(&self) -> (r: [LayerTransformation; 4])
        ensures
            layer_is(r, self.spec_input().spec_birth_stem(), self.spec_star_branches()@),
    {
        self.stem_transformations(self.birth_stem())
    }

    /// The four transformations of any stem, with the natal branches of the stars.
    pub fn stem_transformations(&self, stem: Stem) -> (r: [LayerTransformation; 4])
        ensures
            layer_is(r, stem, self.spec_star_branches()@),
    {
        stem_layer_transformations(stem, &self.star_branches)
    }

    /// The twelve ten-year steps.
    pub fn decade_steps(&self) -> (r: &[DecadeStep; 12])
        ensures
            *r == self.spec_decade_steps(),
    {
        &self.decade_steps
    }

    /// The ten-year step with index `step`; none outside `0..=11`.
    pub fn decade_step(&self, step: u8) -> (r: Option<&DecadeStep>)
        ensures
            r is Some <==> step < 12,
            r matches Some(d) ==> *d == self.spec_decade_steps()@[step as int],
    {
        if step < 12 {
            Some(&self.decade_steps[step as usize])
        } else {
            None
        }
    }

    /// Index of the ten-year step that covers a virtual age; none before the first step
    /// or after the last one.
    pub fn decade_step_for_age(&self, virtual_age: u8) -> (r: Option<u8>)
        ensures
            r == (if self.spec_bureau().spec_number() <= virtual_age < self.spec_bureau().spec_number() + 120 {
                Some(((virtual_age - self.spec_bureau().spec_number()) / 10) as u8)
            } else {
                None::<u8>
            }),
    {
        proof {
            use_type_invariant(self);
            reveal(Ziwei::is_chart_of);
        }
        let ghost n = self.spec_bureau().spec_number();
        let mut i: usize = 0;
        while i < 12
            invariant
                0 <= i <= 12,
                self.wf(),
                n == self.spec_bureau().spec_number(),
                forall|k: int| 0 <= k < i ==> !(#[trigger] self.spec_decade_steps()@[k].age_start <= virtual_age
                    && virtual_age <= self.spec_decade_steps()@[k].age_end),
                i > 0 ==> n + 10 * i <= virtual_age || virtual_age < n,
            decreases 12 - i,
        {
            let step = self.decade_steps[i];
            assert(step == spec_decade_step(
                self.spec_input().spec_gender(), self.spec_input().spec_birth_stem(), self.spec_ming_branch(), n, i as int)) by {
                reveal(Ziwei::is_chart_of);
            }
            assert(step == spec_decade_step(
                self.spec_input().spec_gender(), self.spec_input().spec_birth_stem(), self.spec_ming_branch(), n, i as int));
            if step.age_start <= virtual_age && virtual_age <= step.age_end {
                assert((virtual_age - n) / 10 == i) by (nonlinear_arith)
                    requires
                        n + 10 * i <= virtual_age <= n + 10 * i + 9,
                ;
                return Some(step.step);
            }
            i = i + 1;
        }
        None
    }

    /// The ten years of a ten-year step with their virtual ages. A chart without a real
    /// lunar birth year has none to give; a year that does not fit in `i32` is refused.
    pub fn years_in_decade(&self, step: DecadeIndex) -> (r: Result<[DecadeYear; 10], DecadeYearsError>)
        ensures
            self.spec_birth_year() is None ==> r == Err::<[DecadeYear; 10], DecadeYearsError>(DecadeYearsError::BirthYearUnavailable),
            self.spec_birth_year() matches Some(y) ==> {
                let d = self.spec_decade_steps()@[step.spec_get() as int];
                if y + d.age_start + 9 - 1 > i32::MAX {
                    r == Err::<[DecadeYear; 10], DecadeYearsError>(DecadeYearsError::LunarYearOutOfRange)
                } else {
                    r matches Ok(years) && forall|j: int| 0 <= j < 10 ==> #[trigger] years@[j] == (DecadeYear {
                        lunar_year: (y + d.age_start + j - 1) as i32,
                        virtual_age: (d.age_start + j) as u8,
                    })
                }
            },
    {
        proof {
            use_type_invariant(self);
            use_type_invariant(&step);
            reveal(Ziwei::is_chart_of);
        }
        let year = match self.birth_year {
            Some(y) => y,
            None => return Err(DecadeYearsError::BirthYearUnavailable),
        };
        let d = self.decade_steps[step.get() as usize];
        assert(d == spec_decade_step(
            self.spec_input().spec_gender(), self.spec_input().spec_birth_stem(), self.spec_ming_branch(),
            self.spec_bureau().spec_number(), step.spec_get() as int));
        let last_age: u8 = d.age_start + 9;
        if year > i32::MAX - (last_age as i32 - 1) {
            return Err(DecadeYearsError::LunarYearOutOfRange);
        }
        let mut years = [DecadeYear { lunar_year: 0, virtual_age: 0 }; 10];
        let mut j: u8 = 0;
        while j < 10
            invariant
                0 <= j <= 10,
                2 <= d.age_start <= 116,
                year + d.age_start + 9 - 1 <= i32::MAX,
                forall|k: int| 0 <= k < j ==> #[trigger] years@[k] == (DecadeYear {
                    lunar_year: (year + d.age_start + k - 1) as i32,
                    virtual_age: (d.age_start + k) as u8,
                }),
            decreases 10 - j,
        {
            let virtual_age: u8 = d.age_start + j;
            years[j as usize] = DecadeYear { lunar_year: year + (virtual_age as i32 - 1), virtual_age };
            j = j + 1;
        }
        Ok(years)
    }

    /// Branch of 命 under a view; none for a ten-year step outside `0..=11`.
    fn view_ming_branch(&self, view: ZiweiView) -> (r: Option<Branch>)
        ensures
            r == spec_view_ming_branch(self.spec_ming_branch(), self.spec_decade_steps()@, view),
    {
        match view {
            ZiweiView::Natal => Some(self.ming_branch),
            ZiweiView::Decade { step } => match self.decade_step(step) {
                Some(d) => Some(d.ming_branch),
                None => None,
            },
            ZiweiView::Annual { year } => Some(branch_from_year(year)),
        }
    }

    /// Branch that a duty takes under a view: duties run backward from the 命 of the
    /// view. None for a ten-year step outside `0..=11`.
    pub fn branch_of_role(&self, role: PalaceName, view: ZiweiView) -> (r: Option<Branch>)
        ensures
            r == self.spec_branch_of_role(role, view),
    {
        match self.view_ming_branch(view) {
            Some(ming) => {
                let m = ming.index() as u8;
                let k = role.index() as u8;
                proof {
                    vstd::arithmetic::div_mod::lemma_mod_add_multiples_vanish(m - k, 12);
                    crate::branch::lemma_branch_index(Branch::Zi, m - k);
                }
                Some(Branch::from_index((m + 12 - k) % 12))
            },
            None => None,
        }
    }

    /// The natal palace that a duty takes under a view; its stem and stars stay natal.
    pub fn palace_for_role(&self, role: PalaceName, view: ZiweiView) -> (r: Option<&Palace>)
        ensures
            r is Some <==> self.spec_branch_of_role(role, view) is Some,
            r matches Some(p) ==> *p == self.spec_palaces()@[self.spec_branch_of_role(role, view).unwrap().idx()],
    {
        match self.branch_of_role(role, view) {
            Some(branch) => Some(self.palace_at(branch)),
            None => None,
        }
    }

    /// Layer transformations of a view: none on the natal view, the transformations of
    /// the step stem on a ten-year view (none outside `0..=11`), and those of the year
    /// stem on a yearly view.
    pub fn overlay_transformations(&self, view: ZiweiView) -> (r: Option<[LayerTransformation; 4]>)
        ensures
            match view {
                ZiweiView::Natal => r is None,
                ZiweiView::Decade { step } => (r is Some <==> step < 12) && (r matches Some(a) ==> layer_is(
                    a, self.spec_decade_steps()@[step as int].stem, self.spec_star_branches()@)),
                ZiweiView::Annual { year } => r matches Some(a) && layer_is(
                    a, spec_stem_from_year(year as int), self.spec_star_branches()@),
            },
    {
        match view {
            ZiweiView::Natal => None,
            ZiweiView::Decade { step } => match self.decade_step(step) {
                Some(d) => Some(self.stem_transformations(d.stem)),
                None => None,
            },
            ZiweiView::Annual { year } => Some(self.stem_transformations(stem_from_year(year))),
        }
    }

    /// All forty-eight flies: four per branch from 子, in the order 禄, 权, 科, 忌.
    pub fn palace_flies(&self) -> (r: &[ZiweiFly; 48])
        ensures
            *r == self.spec_flies(),
    {
        &self.flies
    }

    /// The four flies sent by the palace at a branch, in the order 禄, 权, 科, 忌.
    pub fn flies_from_branch(&self, branch: Branch) -> (r: Vec<ZiweiFly>)
        ensures
            r@ == self.spec_flies()@.subrange(4 * branch.idx(), 4 * branch.idx() + 4),
            r@.len() == 4,
            forall|t: int| 0 <= t < 4 ==> fly_is(
                #[trigger] r@[t],
                branch,
                Transformation::at(t),
                spec_palace_stem(self.spec_input().spec_birth_stem(), branch),
                self.spec_star_branches()@,
            ),
    {
        proof {
            use_type_invariant(self);
            reveal(Ziwei::is_chart_of);
            crate::branch::lemma_branch_index(branch, 0);
        }
        let base = 4 * branch.index();
        let mut flies: Vec<ZiweiFly> = Vec::new();
        let mut t: usize = 0;
        while t < 4
            invariant
                0 <= t <= 4,
                base == 4 * branch.idx(),
                branch.idx() < 12,
                flies@ == self.spec_flies()@.subrange(base as int, base + t),
            decreases 4 - t,
        {
            flies.push(self.flies[base + t]);
            t = t + 1;
        }
        proof {
            assert forall|t: int| 0 <= t < 4 implies fly_is(
                #[trigger] flies@[t],
                branch,
                Transformation::at(t),
                spec_palace_stem(self.spec_input().spec_birth_stem(), branch),
                self.spec_star_branches()@,
            ) by {
                let f = base + t;
                assert(f / 4 == branch.idx() && f % 4 == t);
                assert(flies@[t] == self.spec_flies()@[f]);
                crate::branch::lemma_branch_index(branch, 0);
            }
        }
        flies
    }

    /// The four flies sent by the palace that a duty takes under a view; none for a
    /// ten-year step outside `0..=11`.
    pub fn flies_from_role(&self, role: PalaceName, view: ZiweiView) -> (r: Vec<ZiweiFly>)
        ensures
            match self.spec_branch_of_role(role, view) {
                Some(b) => r@ == self.spec_flies()@.subrange(4 * b.idx(), 4 * b.idx() + 4),
                None => r@.len() == 0,
            },
    {
        match self.branch_of_role(role, view) {
            Some(branch) => self.flies_from_branch(branch),
            None => Vec::new(),
        }
    }

    /// The chart read under a view.
    pub fn with_view(&self, view: ZiweiView) -> (r: ZiweiHandle<'_>)
        ensures
            r.spec_chart() == *self,
            r.spec_view() == view,
    {
        ZiweiHandle { chart: self, view }
    }
}

impl<'a> ZiweiHandle<'a> {
    /// Chart held.
    pub closed spec fn spec_chart(self) -> Ziwei {
        *self.chart
    }

    /// View held.
    pub closed spec fn spec_view(self) -> ZiweiView {
        self.view
    }

    /// The view.
    pub fn view(self) -> (r: ZiweiView)
        ensures
            r == self.spec_view(),
    {
        self.view
    }

    /// The chart.
    pub fn chart(self) -> (r: &'a Ziwei)
        ensures
            *r == self.spec_chart(),
    {
        self.chart
    }

    /// Branch that a duty takes under the view; see [`Ziwei::branch_of_role`].
    pub fn branch_of_role(self, role: PalaceName) -> (r: Option<Branch>)
        ensures
            r == self.spec_chart().spec_branch_of_role(role, self.spec_view()),
    {
        self.chart.branch_of_role(role, self.view)
    }

    /// Natal palace that a duty takes under the view; see [`Ziwei::palace_for_role`].
    pub fn palace_for_role(self, role: PalaceName) -> (r: Option<&'a Palace>)
        ensures
            r is Some <==> self.spec_chart().spec_branch_of_role(role, self.spec_view()) is Some,
            r matches Some(p) ==> *p == self.spec_chart().spec_palaces()@[
                self.spec_chart().spec_branch_of_role(role, self.spec_view()).unwrap().idx()],
    {
        self.chart.palace_for_role(role, self.view)
    }

    /// Layer transformations of the view; see [`Ziwei::overlay_transformations`].
    pub fn overlay_transformations(self) -> (r: Option<[LayerTransformation; 4]>)
        ensures
            match self.spec_view() {
                ZiweiView::Natal => r is None,
                ZiweiView::Decade { step } => (r is Some <==> step < 12) && (r matches Some(a) ==> layer_is(
                    a, self.spec_chart().spec_decade_steps()@[step as int].stem, self.spec_chart().spec_star_branches()@)),
                ZiweiView::Annual { year } => r matches Some(a) && layer_is(
                    a, spec_stem_from_year(year as int), self.spec_chart().spec_star_branches()@),
            },
    {
        self.chart.overlay_transformations(self.view)
    }

    /// Flies of the palace that a duty takes under the view; see [`Ziwei::flies_from_role`].
    pub fn flies_from_role(self, role: PalaceName) -> (r: Vec<ZiweiFly>)
        ensures
            match self.spec_chart().spec_branch_of_role(role, self.spec_view()) {
                Some(b) => r@ == self.spec_chart().spec_flies()@.subrange(4 * b.idx(), 4 * b.idx() + 4),
                None => r@.len() == 0,
            },
    {
        self.chart.flies_from_role(role, self.view)
    }
}

} // verus!
