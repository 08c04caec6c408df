//! The immutable natal chart (本命盘) and its construction from validated birth data.
use super::branch::Branch;
use super::bureau::FiveElementBureau;
use super::decade::{build_decades, spec_decade_is, Decade, DecadeDirection};
use super::input::{spec_branch_from_year, spec_is_sexagenary, spec_stem_from_year, Gender, ZiweiBirth, ZiweiInput};
use super::palace::{Palace, PalaceTransformation};
use super::palace_name::PalaceName;
use super::placement::{
    bureau_from_ming_palace, compute_ming_palace_branch, compute_palace_placements, compute_palace_stems,
    compute_shen_palace_branch, compute_star_branches, palace_name_at, spec_bureau, spec_ming_palace_branch,
    spec_palace_name, spec_palace_stem, spec_shen_palace_branch, spec_star_branch, PalacePlacement,
};
use super::position::spec_branch_from_yin0;
use super::star::{spec_star_category, spec_star_galaxy, star_category, star_galaxy, Star, StarName, StarSelfTransformations};
use super::stem::{spec_find_transformation, Stem};
use super::transformation_facts::TransformationFacts;
use super::transformation::Transformation;
use super::zodiac::Zodiac;
use vstd::prelude::*;

verus! {

/// Birth data of a chart after either input was normalized.
///
/// It has no public constructor; it is a read-only fact of [`Natal`].
#[derive(Debug, Clone, Copy, PartialEq, Eq, Structural)]
pub struct NatalContext {
    gender: Gender,
    year: Option<i32>,
    birth_stem: Stem,
    birth_branch: Branch,
    month: u8,
    day: u8,
    hour: u8,
}

impl NatalContext {
    /// Gender held.
    pub closed spec fn spec_gender(self) -> Gender {
        self.gender
    }

    /// Lunar year held.
    pub closed spec fn spec_year(self) -> Option<i32> {
        self.year
    }

    /// Year stem held.
    pub closed spec fn spec_birth_stem(self) -> Stem {
        self.birth_stem
    }

    /// Year branch held.
    pub closed spec fn spec_birth_branch(self) -> Branch {
        self.birth_branch
    }

    /// Lunar month held.
    pub closed spec fn spec_month(self) -> u8 {
        self.month
    }

    /// Lunar day held.
    pub closed spec fn spec_day(self) -> u8 {
        self.day
    }

    /// Hour held.
    pub closed spec fn spec_hour(self) -> u8 {
        self.hour
    }

    /// The validity of a context: month, day and hour in range, a sexagenary year pillar
    /// and, when a lunar year is known, room for the years of all twelve periods.
    pub open spec fn wf(self) -> bool {
        &&& self.spec_month() < 12
        &&& 1 <= self.spec_day() <= 30
        &&& self.spec_hour() < 12
        &&& spec_is_sexagenary(self.spec_birth_stem(), self.spec_birth_branch())
        &&& self.spec_year() matches Some(y) ==> y <= i32::MAX - 124
    }

    /// Context of a raw input together with an optional lunar year.
    fn from_input(input: ZiweiInput, year: Option<i32>) -> (r: NatalContext)
        requires
            input.wf(),
            year matches Some(y) ==> y <= i32::MAX - 124,
        ensures
            r.wf(),
            r.spec_gender() == input.spec_gender(),
            r.spec_year() == year,
            r.spec_birth_stem() == input.spec_birth_stem(),
            r.spec_birth_branch() == input.spec_birth_branch(),
            r.spec_month() == input.spec_month(),
            r.spec_day() == input.spec_day(),
            r.spec_hour() == input.spec_hour(),
    {
        proof {
            input.lemma_wf();
        }
        NatalContext {
            gender: input.gender(),
            year,
            birth_stem: input.birth_stem(),
            birth_branch: input.birth_branch(),
            month: input.month(),
            day: input.day(),
            hour: input.hour(),
        }
    }

    /// Gender of the native.
    pub fn gender(self) -> (r: Gender)
        ensures
            r == self.spec_gender(),
    {
        self.gender
    }

    /// Normalized lunar year; `None` when the chart was built from a raw input.
    pub fn year(self) -> (r: Option<i32>)
        ensures
            r == self.spec_year(),
    {
        self.year
    }

    /// Year stem.
    pub fn birth_stem(self) -> (r: Stem)
        ensures
            r == self.spec_birth_stem(),
    {
        self.birth_stem
    }

    /// Year branch.
    pub fn birth_branch(self) -> (r: Branch)
        ensures
            r == self.spec_birth_branch(),
    {
        self.birth_branch
    }

    /// Lunar month, 正月 = 0.
    pub fn month(self) -> (r: u8)
        ensures
            r == self.spec_month(),
    {
        self.month
    }

    /// Lunar day, 初一 = 1.
    pub fn day(self) -> (r: u8)
        ensures
            r == self.spec_day(),
    {
        self.day
    }

    /// Hour (时辰), 子时 = 0.
    pub fn hour(self) -> (r: u8)
        ensures
            r == self.spec_hour(),
    {
        self.hour
    }
}

/// Branch of 命宫 of the chart of a context.
pub open spec fn chart_ming(c: NatalContext) -> Branch {
    spec_ming_palace_branch(c.spec_month() as int, c.spec_hour() as int)
}

/// Branch of 身宫 of the chart of a context.
pub open spec fn chart_shen(c: NatalContext) -> Branch {
    spec_shen_palace_branch(c.spec_month() as int, c.spec_hour() as int)
}

/// Stem of the palace at a branch.
pub open spec fn chart_stem(c: NatalContext, b: Branch) -> Stem {
    spec_palace_stem(c.spec_birth_stem(), b)
}

/// Name of the palace at a branch.
pub open spec fn chart_name(c: NatalContext, b: Branch) -> PalaceName {
    spec_palace_name(chart_ming(c), b)
}

/// Five-element bureau of the chart.
pub open spec fn chart_bureau(c: NatalContext) -> FiveElementBureau {
    spec_bureau(c.spec_birth_stem(), chart_ming(c))
}

/// Branch at which a star stands.
pub open spec fn chart_star_branch(c: NatalContext, s: StarName) -> Branch {
    spec_star_branch(s, c.spec_day() as int, chart_bureau(c).spec_number(), c.spec_month() as int, c.spec_hour() as int)
}

/// Branch of the origin palace (来因宫).
pub open spec fn chart_origin_branch(c: NatalContext) -> Branch {
    c.spec_birth_stem().spec_origin_palace_branch()
}

/// Birth transformation of a star: the transformation by the stem of the origin palace.
pub open spec fn chart_origin_transformation(c: NatalContext, s: StarName) -> Option<Transformation> {
    spec_find_transformation(chart_stem(c, chart_origin_branch(c)), s)
}

/// Outward self-transformation of a star: by the stem of its own palace.
pub open spec fn chart_outward(c: NatalContext, s: StarName) -> Option<Transformation> {
    spec_find_transformation(chart_stem(c, chart_star_branch(c, s)), s)
}

/// Inward self-transformation of a star: by the stem of the opposite palace.
pub open spec fn chart_inward(c: NatalContext, s: StarName) -> Option<Transformation> {
    spec_find_transformation(chart_stem(c, chart_star_branch(c, s).spec_opposite()), s)
}

/// Whether `st` is the fact of star `s` in the chart.
pub open spec fn chart_star_is(st: Star, c: NatalContext, s: StarName) -> bool {
    &&& st.spec_name() == s
    &&& st.spec_category() == spec_star_category(s)
    &&& st.spec_galaxy() == spec_star_galaxy(s)
    &&& st.spec_origin_transformation() == chart_origin_transformation(c, s)
    &&& st.spec_self_transformations().spec_inward() == chart_inward(c, s)
    &&& st.spec_self_transformations().spec_outward() == chart_outward(c, s)
}

/// Whether `e` is the edge that the palace at `source` sends with transformation `t`.
pub open spec fn chart_edge_is(e: PalaceTransformation, c: NatalContext, source: Branch, t: Transformation) -> bool {
    let star = chart_stem(c, source).spec_transformation_star(t);
    let target = chart_star_branch(c, star);
    &&& e.spec_source_name() == chart_name(c, source)
    &&& e.spec_source_branch() == source
    &&& e.spec_transformation() == t
    &&& e.spec_target_name() == chart_name(c, target)
    &&& e.spec_target_branch() == target
    &&& e.spec_star_name() == star
}

/// Names of the stars among the first `n` of the catalogue that stand at branch `b`,
/// in catalogue order.
pub open spec fn chart_stars_at(c: NatalContext, b: Branch, n: int) -> Seq<StarName>
    decreases n,
{
    if n <= 0 {
        Seq::empty()
    } else {
        let prev = chart_stars_at(c, b, n - 1);
        if chart_star_branch(c, StarName::at(n - 1)) == b {
            prev.push(StarName::at(n - 1))
        } else {
            prev
        }
    }
}

/// Whether `p` is the palace of the chart at branch `b`.
pub open spec fn chart_palace_is(p: Palace, c: NatalContext, b: Branch) -> bool {
    &&& p.spec_name() == chart_name(c, b)
    &&& p.spec_branch() == b
    &&& p.spec_stem() == chart_stem(c, b)
    &&& p.spec_stars().len() == chart_stars_at(c, b, 18).len()
    &&& forall|i: int| 0 <= i < p.spec_stars().len() ==> chart_star_is(#[trigger] p.spec_stars()[i], c, chart_stars_at(c, b, 18)[i])
    &&& forall|t: int| 0 <= t < 4 ==> chart_edge_is(#[trigger] p.spec_transformations()@[t], c, b, Transformation::at(t))
}

/// An immutable natal chart.
///
/// All fields are assembled by the library and can only be read.
#[derive(Debug, PartialEq, Eq)]
pub struct Natal {
    context: NatalContext,
    zodiac: Zodiac,
    palaces: [Palace; 12],
    ming_palace_branch: Branch,
    shen_palace_name: PalaceName,
    shen_palace_branch: Branch,
    origin_palace_name: PalaceName,
    origin_palace_branch: Branch,
    bureau: FiveElementBureau,
    decade_direction: DecadeDirection,
    decades: [Decade; 12],
}

impl Natal {
    /// Context held.
    pub closed spec fn spec_context(&self) -> NatalContext {
        self.context
    }

    /// Zodiac held.
    pub closed spec fn spec_zodiac(&self) -> Zodiac {
        self.zodiac
    }

    /// Palaces held, from 寅 to 丑.
    pub closed spec fn spec_palaces(&self) -> [Palace; 12] {
        self.palaces
    }

    /// Branch of 命宫 held.
    pub closed spec fn spec_ming_palace_branch(&self) -> Branch {
        self.ming_palace_branch
    }

    /// Name of the palace under 身宫 held.
    pub closed spec fn spec_shen_palace_name(&self) -> PalaceName {
        self.shen_palace_name
    }

    /// Branch of 身宫 held.
    pub closed spec fn spec_shen_palace_branch(&self) -> Branch {
        self.shen_palace_branch
    }

    /// Name of the origin palace held.
    pub closed spec fn spec_origin_palace_name(&self) -> PalaceName {
        self.origin_palace_name
    }

    /// Branch of the origin palace held.
    pub closed spec fn spec_origin_palace_branch(&self) -> Branch {
        self.origin_palace_branch
    }

    /// Bureau held.
    pub closed spec fn spec_bureau(&self) -> FiveElementBureau {
        self.bureau
    }

    /// Direction of the periods held.
    pub closed spec fn spec_decade_direction(&self) -> DecadeDirection {
        self.decade_direction
    }

    /// Periods held.
    pub closed spec fn spec_decades(&self) -> [Decade; 12] {
        self.decades
    }

    /// Whether this value is the chart of context `c`: every fact is the one the
    /// placement rules give for `c`.
    #[verifier::opaque]
    pub open spec fn is_chart_of(&self, c: NatalContext) -> bool {
        &&& self.spec_context() == c
        &&& self.spec_zodiac() == Zodiac::spec_from_branch(c.spec_birth_branch())
        &&& forall|k: int| 0 <= k < 12 ==> chart_palace_is(#[trigger] self.spec_palaces()@[k], c, spec_branch_from_yin0(k))
        &&& self.spec_ming_palace_branch() == chart_ming(c)
        &&& self.spec_shen_palace_name() == chart_name(c, chart_shen(c))
        &&& self.spec_shen_palace_branch() == chart_shen(c)
        &&& self.spec_origin_palace_name() == chart_name(c, chart_origin_branch(c))
        &&& self.spec_origin_palace_branch() == chart_origin_branch(c)
        &&& self.spec_bureau() == chart_bureau(c)
        &&& self.spec_decade_direction() == DecadeDirection::spec_from_birth_facts(c.spec_gender(), c.spec_birth_stem())
        &&& forall|i: int| 0 <= i < 12 ==> spec_decade_is(
            #[trigger] self.spec_decades()@[i],
            self.spec_decade_direction(),
            c.spec_year(),
            chart_ming(c),
            chart_bureau(c).spec_number(),
            i,
        )
    }

    /// Every chart that exists is the chart of its own context.
    #[verifier::type_invariant]
    pub open spec fn wf(&self) -> bool {
        self.spec_context().wf() && self.is_chart_of(self.spec_context())
    }

    /// Normalized birth data of the chart.
    pub fn context(&self) -> (r: &NatalContext)
        ensures
            *r == self.spec_context(),
    {
        &self.context
    }

    /// Zodiac animal of the birth year.
    pub fn zodiac(&self) -> (r: Zodiac)
        ensures
            r == self.spec_zodiac(),
    {
        self.zodiac
    }

    /// The twelve palaces, starting at 寅 and running forward to 丑.
    pub fn palaces(&self) -> (r: &[Palace; 12])
        ensures
            *r == self.spec_palaces(),
    {
        &self.palaces
    }

    /// Branch of 命宫.
    pub fn ming_palace_branch(&self) -> (r: Branch)
        ensures
            r == self.spec_ming_palace_branch(),
    {
        self.ming_palace_branch
    }

    /// Name of the palace on which 身宫 lies.
    pub fn shen_palace_name(&self) -> (r: PalaceName)
        ensures
            r == self.spec_shen_palace_name(),
    {
        self.shen_palace_name
    }

    /// Branch of 身宫.
    pub fn shen_palace_branch(&self) -> (r: Branch)
        ensures
            r == self.spec_shen_palace_branch(),
    {
        self.shen_palace_branch
    }

    /// Name of the palace on which the origin palace (来因宫) lies.
    pub fn origin_palace_name(&self) -> (r: PalaceName)
        ensures
            r == self.spec_origin_palace_name(),
    {
        self.origin_palace_name
    }

    /// Branch of the origin palace (来因宫).
    pub fn origin_palace_branch(&self) -> (r: Branch)
        ensures
            r == self.spec_origin_palace_branch(),
    {
        self.origin_palace_branch
    }

    /// Five-element bureau of 命宫.
    pub fn bureau(&self) -> (r: FiveElementBureau)
        ensures
            r == self.spec_bureau(),
    {
        self.bureau
    }

    /// Direction of the periods.
    pub fn decade_direction(&self) -> (r: DecadeDirection)
        ensures
            r == self.spec_decade_direction(),
    {
        self.decade_direction
    }

    /// The twelve periods, by index from zero to eleven.
    pub fn decades(&self) -> (r: &[Decade; 12])
        ensures
            *r == self.spec_decades(),
    {
        &self.decades
    }
}

/// Intermediate tables of a chart under construction.
struct ChartTables {
    placements: [PalacePlacement; 12],
    star_branches: [Branch; 18],
    stars: [Star; 18],
    facts: TransformationFacts,
}

/// Whether the tables hold the placements, star branches, star facts and edges of the
/// chart of `c`.
#[verifier::opaque]
spec fn tables_of(t: &ChartTables, c: NatalContext) -> bool {
    &&& forall|i: int| 0 <= i < 12 ==> (#[trigger] t.placements@[i]).name == chart_name(c, Branch::at(i))
        && t.placements@[i].branch == Branch::at(i) && t.placements@[i].stem == chart_stem(c, Branch::at(i))
    &&& forall|i: int| 0 <= i < 18 ==> #[trigger] t.star_branches@[i] == chart_star_branch(c, StarName::at(i))
    &&& forall|i: int| 0 <= i < 18 ==> chart_star_is(#[trigger] t.stars@[i], c, StarName::at(i))
    &&& forall|b: int, k: int| 0 <= b < 12 && 0 <= k < 4 ==> chart_edge_is(
        #[trigger] t.facts.spec_edges(b)@[k], c, Branch::at(b), Transformation::at(k))
}

/// The fact of one star: category, group, birth transformation and self-transformations.
fn build_star(c: NatalContext, facts: &TransformationFacts, name: StarName) -> (r: Star)
    requires
        facts.spec_origin(name.idx()) == chart_origin_transformation(c, name),
        facts.spec_self(name.idx()).spec_inward() == chart_inward(c, name),
        facts.spec_self(name.idx()).spec_outward() == chart_outward(c, name),
    ensures
        chart_star_is(r, c, name),
{
    Star::new(
        name,
        star_category(name),
        star_galaxy(name),
        facts.origin_transformation(name),
        facts.self_transformations(name),
    )
}

/// Stars standing at branch `b`, in catalogue order.
fn build_palace_stars(c: NatalContext, tables: &ChartTables, b: Branch) -> (r: Vec<Star>)
    requires
        tables_of(tables, c),
    ensures
        r@.len() == chart_stars_at(c, b, 18).len(),
        forall|i: int| 0 <= i < r@.len() ==> chart_star_is(#[trigger] r@[i], c, chart_stars_at(c, b, 18)[i]),
{
    proof {
        reveal(tables_of);
    }
    let mut stars: Vec<Star> = Vec::new();
    let mut i: usize = 0;
    while i < 18
        invariant
            0 <= i <= 18,
            tables_of(tables, c),
            stars@.len() == chart_stars_at(c, b, i as int).len(),
            forall|k: int| 0 <= k < stars@.len() ==> chart_star_is(#[trigger] stars@[k], c, chart_stars_at(c, b, i as int)[k]),
        decreases 18 - i,
    {
        if tables.star_branches[i] == b {
            stars.push(tables.stars[i]);
        }
        proof {
            reveal(tables_of);
            let prev = chart_stars_at(c, b, i as int);
            let next = chart_stars_at(c, b, i + 1);
            assert(tables.star_branches@[i as int] == chart_star_branch(c, StarName::at(i as int)));
            assert(chart_star_is(tables.stars@[i as int], c, StarName::at(i as int)));
            if chart_star_branch(c, StarName::at(i as int)) == b {
                assert(next == prev.push(StarName::at(i as int)));
            } else {
                assert(next == prev);
            }
        }
        i = i + 1;
    }
    stars
}

/// The palace at a branch: its placement, the stars standing there and its edges.
fn take_palace_at_branch(c: NatalContext, tables: &ChartTables, branch: Branch) -> (r: Palace)
    requires
        tables_of(tables, c),
    ensures
        chart_palace_is(r, c, branch),
{
    proof {
        reveal(tables_of);
        crate::branch::lemma_branch_index(branch, 0);
    }
    let placement = tables.placements[branch.index()];
    let stars = build_palace_stars(c, tables, branch);
    let edges = tables.facts.palace_transformations(branch);
    Palace::new(placement.name, placement.branch, placement.stem, stars, edges)
}

/// The transformation facts of the chart of `c` from its placements and star branches.
fn chart_facts(c: NatalContext, placements: &[PalacePlacement; 12], star_branches: &[Branch; 18]) -> (r: TransformationFacts)
    requires
        forall|i: int| 0 <= i < 12 ==> (#[trigger] placements@[i]).name == chart_name(c, Branch::at(i))
            && placements@[i].branch == Branch::at(i) && placements@[i].stem == chart_stem(c, Branch::at(i)),
        forall|i: int| 0 <= i < 18 ==> #[trigger] star_branches@[i] == chart_star_branch(c, StarName::at(i)),
    ensures
        forall|b: int, k: int| 0 <= b < 12 && 0 <= k < 4 ==> chart_edge_is(
            #[trigger] r.spec_edges(b)@[k], c, Branch::at(b), Transformation::at(k)),
        forall|s: int| 0 <= s < 18 ==> #[trigger] r.spec_origin(s) == chart_origin_transformation(c, StarName::at(s)),
        forall|s: int| 0 <= s < 18 ==> (#[trigger] r.spec_self(s)).spec_inward() == chart_inward(c, StarName::at(s))
            && r.spec_self(s).spec_outward() == chart_outward(c, StarName::at(s)),
{
    let origin_palace_branch = c.birth_stem().origin_palace_branch();
    let facts = TransformationFacts::build(origin_palace_branch, placements, star_branches);
    proof {
        crate::branch::lemma_branch_index(origin_palace_branch, 0);
        assert forall|b: int, k: int| 0 <= b < 12 && 0 <= k < 4 implies chart_edge_is(
            #[trigger] facts.spec_edges(b)@[k], c, Branch::at(b), Transformation::at(k)) by {
            let star = chart_stem(c, Branch::at(b)).spec_transformation_star(Transformation::at(k));
            crate::star::lemma_star_index(star, star);
            crate::branch::lemma_branch_index(star_branches@[star.idx()], 0);
        }
        assert forall|s: int| 0 <= s < 18 implies (#[trigger] facts.spec_self(s)).spec_inward() == chart_inward(c, StarName::at(s))
            && facts.spec_self(s).spec_outward() == chart_outward(c, StarName::at(s)) by {
            crate::branch::lemma_branch_index(star_branches@[s], 0);
            crate::branch::lemma_branch_index(star_branches@[s].spec_opposite(), 0);
        }
    }
    facts
}

/// The tables of the chart of `c`: the placements and star branches, the facts of the
/// eighteen stars and the edges of the twelve palaces.
fn chart_tables(c: NatalContext, placements: [PalacePlacement; 12], star_branches: [Branch; 18]) -> (r: ChartTables)
    requires
        forall|i: int| 0 <= i < 12 ==> (#[trigger] placements@[i]).name == chart_name(c, Branch::at(i))
            && placements@[i].branch == Branch::at(i) && placements@[i].stem == chart_stem(c, Branch::at(i)),
        forall|i: int| 0 <= i < 18 ==> #[trigger] star_branches@[i] == chart_star_branch(c, StarName::at(i)),
    ensures
        tables_of(&r, c),
        r.placements == placements,
{
    let facts = chart_facts(c, &placements, &star_branches);
    let catalogue = StarName::all();
    let placeholder = Star::new(StarName::ZiWei, crate::star::StarCategory::Major, None, None, StarSelfTransformations::new(None, None));
    let mut stars = [placeholder; 18];
    let mut i: usize = 0;
    while i < 18
        invariant
            0 <= i <= 18,
            forall|k: int| 0 <= k < 18 ==> #[trigger] catalogue@[k] == StarName::at(k),
            forall|s: int| 0 <= s < 18 ==> #[trigger] facts.spec_origin(s) == chart_origin_transformation(c, StarName::at(s)),
            forall|s: int| 0 <= s < 18 ==> (#[trigger] facts.spec_self(s)).spec_inward() == chart_inward(c, StarName::at(s))
                && facts.spec_self(s).spec_outward() == chart_outward(c, StarName::at(s)),
            forall|k: int| 0 <= k < i ==> chart_star_is(#[trigger] stars@[k], c, StarName::at(k)),
        decreases 18 - i,
    {
        proof {
            crate::star::lemma_star_index(catalogue@[i as int], catalogue@[i as int]);
        }
        stars[i] = build_star(c, &facts, catalogue[i]);
        i = i + 1;
    }
    let tables = ChartTables { placements, star_branches, stars, facts };
    assert(tables_of(&tables, c)) by {
        reveal(tables_of);
    }
    tables
}

/// 命宫, 身宫, bureau, palace placements and star branches of the chart of `c`.
fn chart_layout(c: NatalContext) -> (r: (Branch, Branch, FiveElementBureau, [PalacePlacement; 12], [Branch; 18]))
    requires
        c.wf(),
    ensures
        r.0 == chart_ming(c),
        r.1 == chart_shen(c),
        r.2 == chart_bureau(c),
        forall|i: int| 0 <= i < 12 ==> (#[trigger] r.3@[i]).name == chart_name(c, Branch::at(i))
            && r.3@[i].branch == Branch::at(i) && r.3@[i].stem == chart_stem(c, Branch::at(i)),
        forall|i: int| 0 <= i < 18 ==> #[trigger] r.4@[i] == chart_star_branch(c, StarName::at(i)),
{
    let ming = compute_ming_palace_branch(c.month(), c.hour());
    let shen = compute_shen_palace_branch(c.month(), c.hour());
    let stems = compute_palace_stems(c.birth_stem());
    proof {
        crate::branch::lemma_branch_index(ming, 0);
    }
    let bureau = bureau_from_ming_palace(ming, &stems);
    let placements = compute_palace_placements(ming, &stems);
    let star_branches = compute_star_branches(c.day(), bureau, c.month(), c.hour());
    (ming, shen, bureau, placements, star_branches)
}

/// The twelve palaces of the chart of `c`, from 寅 to 丑.
#[verifier::rlimit(30)]
fn chart_palaces(c: NatalContext, tables: &ChartTables) -> (r: [Palace; 12])
    requires
        tables_of(tables, c),
    ensures
        forall|k: int| 0 <= k < 12 ==> chart_palace_is(#[trigger] r@[k], c, spec_branch_from_yin0(k)),
{
    let palaces = [
        take_palace_at_branch(c, tables, Branch::Yin),
        take_palace_at_branch(c, tables, Branch::Mao),
        take_palace_at_branch(c, tables, Branch::Chen),
        take_palace_at_branch(c, tables, Branch::Si),
        take_palace_at_branch(c, tables, Branch::Wu),
        take_palace_at_branch(c, tables, Branch::Wei),
        take_palace_at_branch(c, tables, Branch::Shen),
        take_palace_at_branch(c, tables, Branch::You),
        take_palace_at_branch(c, tables, Branch::Xu),
        take_palace_at_branch(c, tables, Branch::Hai),
        take_palace_at_branch(c, tables, Branch::Zi),
        take_palace_at_branch(c, tables, Branch::Chou),
    ];
    palaces
}

/// Computes the whole chart of a valid context.
fn create_from_context(c: NatalContext) -> (r: Natal)
    requires
        c.wf(),
    ensures
        r.is_chart_of(c),
        r.spec_context() == c,
        r.wf(),
{
    let (ming, shen, bureau, placements, star_branches) = chart_layout(c);
    let tables = chart_tables(c, placements, star_branches);
    let palaces = chart_palaces(c, &tables);
    let origin_branch = c.birth_stem().origin_palace_branch();
    proof {
        crate::branch::lemma_branch_index(shen, 0);
        crate::branch::lemma_branch_index(origin_branch, 0);
    }
    let shen_palace_name = palace_name_at(shen, &tables.placements);
    let origin_palace_name = palace_name_at(origin_branch, &tables.placements);
    let (decade_direction, decades) = build_decades(c.gender(), c.birth_stem(), c.year(), ming, bureau.number());
    let zodiac = Zodiac::from_branch(c.birth_branch());
    let ghost model = Natal {
        context: c,
        zodiac,
        palaces,
        ming_palace_branch: ming,
        shen_palace_name,
        shen_palace_branch: shen,
        origin_palace_name,
        origin_palace_branch: origin_branch,
        bureau,
        decade_direction,
        decades,
    };
    assert(model.is_chart_of(c)) by {
        reveal(Natal::is_chart_of);
    }
    Natal {
        context: c,
        zodiac,
        palaces,
        ming_palace_branch: ming,
        shen_palace_name,
        shen_palace_branch: shen,
        origin_palace_name,
        origin_palace_branch: origin_branch,
        bureau,
        decade_direction,
        decades,
    }
}

/// Builds the natal chart of a validated birth record; the chart keeps the lunar year.
pub fn create_from_birth(birth: ZiweiBirth) -> (r: Natal)
    ensures
        r.wf(),
        r.spec_context().spec_year() == Some(birth.spec_year()),
        r.spec_context().spec_gender() == birth.spec_gender(),
        r.spec_context().spec_birth_stem() == spec_stem_from_year(birth.spec_year() as int),
        r.spec_context().spec_birth_branch() == spec_branch_from_year(birth.spec_year() as int),
        r.spec_context().spec_month() == birth.spec_month(),
        r.spec_context().spec_day() == birth.spec_day(),
        r.spec_context().spec_hour() == birth.spec_hour(),
{
    proof {
        use_type_invariant(&birth);
        birth.lemma_wf();
    }
    let year = birth.year();
    let input = ZiweiInput::from_birth(birth);
    create_from_context(NatalContext::from_input(input, Some(year)))
}

/// Builds the natal chart of a validated raw input; the chart has no lunar year.
pub fn create_from_input(input: ZiweiInput) -> (r: Natal)
    ensures
        r.wf(),
        r.spec_context().spec_year() == None::<i32>,
        r.spec_context().spec_gender() == input.spec_gender(),
        r.spec_context().spec_birth_stem() == input.spec_birth_stem(),
        r.spec_context().spec_birth_branch() == input.spec_birth_branch(),
        r.spec_context().spec_month() == input.spec_month(),
        r.spec_context().spec_day() == input.spec_day(),
        r.spec_context().spec_hour() == input.spec_hour(),
{
    proof {
        use_type_invariant(&input);
    }
    create_from_context(NatalContext::from_input(input, None))
}

} // verus!
