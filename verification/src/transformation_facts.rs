//! All transformation facts of a natal chart, gathered in one pass over the palaces:
//! the four edges of every palace, the birth transformation of every star and its
//! inward and outward self-transformations.
use super::branch::Branch;
use super::palace::PalaceTransformation;
use super::palace_name::PalaceName;
use super::placement::PalacePlacement;
use super::star::{StarName, StarSelfTransformations};
use super::stem::{lemma_transformation_row_distinct, spec_find_transformation, Stem};
use super::transformation::Transformation;
use vstd::prelude::*;

verus! {

/// The transformation among the first `k` of a stem's row that hits `star`, if any.
pub open spec fn spec_row_hit(stem: Stem, star: StarName, k: int) -> Option<Transformation>
    decreases k,
{
    if k <= 0 {
        None
    } else if stem.spec_transformation_star(Transformation::at(k - 1)) == star {
        Some(Transformation::at(k - 1))
    } else {
        spec_row_hit(stem, star, k - 1)
    }
}

/// The whole row finds what the transformation lookup finds, since a row never names a
/// star twice.
proof fn lemma_row_hit_full(stem: Stem, star: StarName)
    ensures
        spec_row_hit(stem, star, 4) == spec_find_transformation(stem, star),
{
    lemma_transformation_row_distinct(stem, Transformation::A, Transformation::B);
    lemma_transformation_row_distinct(stem, Transformation::A, Transformation::C);
    lemma_transformation_row_distinct(stem, Transformation::A, Transformation::D);
    lemma_transformation_row_distinct(stem, Transformation::B, Transformation::C);
    lemma_transformation_row_distinct(stem, Transformation::B, Transformation::D);
    lemma_transformation_row_distinct(stem, Transformation::C, Transformation::D);
    reveal_with_fuel(spec_row_hit, 5);
}

/// The edge that the palace with placement `source` sends with `t`, given the
/// placements by branch and the star branches.
pub open spec fn spec_edge(
    source: PalacePlacement,
    t: Transformation,
    placements: Seq<PalacePlacement>,
    star_branches: Seq<Branch>,
) -> (PalaceName, Branch, Transformation, PalaceName, Branch, StarName) {
    let star = source.stem.spec_transformation_star(t);
    let target = star_branches[star.idx()];
    (source.name, source.branch, t, placements[target.idx()].name, target, star)
}

/// Whether an edge holds the given parts.
pub open spec fn edge_holds(
    e: PalaceTransformation,
    parts: (PalaceName, Branch, Transformation, PalaceName, Branch, StarName),
) -> bool {
    &&& e.spec_source_name() == parts.0
    &&& e.spec_source_branch() == parts.1
    &&& e.spec_transformation() == parts.2
    &&& e.spec_target_name() == parts.3
    &&& e.spec_target_branch() == parts.4
    &&& e.spec_star_name() == parts.5
}

/// The transformation facts of a chart under construction.
pub struct TransformationFacts {
    palace_transformations_by_branch: [[PalaceTransformation; 4]; 12],
    origin_transformations_by_star: [Option<Transformation>; 18],
    self_transformations_by_star: [StarSelfTransformations; 18],
}

/// What one of the three per-star tables holds after the palaces before `b` and the
/// first `k` transformations of palace `b` were visited: the hit of the row of the
/// palace `source(s)` when it was visited, partly when it is the current one.
pub open spec fn visited_hit(
    placements: Seq<PalacePlacement>,
    source: Branch,
    star: StarName,
    b: int,
    k: int,
) -> Option<Transformation> {
    if source.idx() < b {
        spec_row_hit(placements[source.idx()].stem, star, 4)
    } else if source.idx() == b {
        spec_row_hit(placements[source.idx()].stem, star, k)
    } else {
        None
    }
}

impl TransformationFacts {
    /// Edges held for the palace at branch index `b`.
    pub closed spec fn spec_edges(&self, b: int) -> [PalaceTransformation; 4] {
        self.palace_transformations_by_branch@[b]
    }

    /// Birth transformation held for the star at catalogue position `s`.
    pub closed spec fn spec_origin(&self, s: int) -> Option<Transformation> {
        self.origin_transformations_by_star@[s]
    }

    /// Self-transformations held for the star at catalogue position `s`.
    pub closed spec fn spec_self(&self, s: int) -> StarSelfTransformations {
        self.self_transformations_by_star@[s]
    }

    /// Gathers every transformation fact in one pass: each palace stem, with each of
    /// the four transformations, hits a star; the hit is an edge of the palace, the
    /// birth transformation of the star when the palace is the origin palace, its
    /// outward self-transformation when the star stands in the palace and its inward one
    /// when the star stands in the opposite palace.
    #[verifier::rlimit(30)]
    pub fn build(
        origin_palace_branch: Branch,
        placements_by_branch: &[PalacePlacement; 12],
        branches_by_star: &[Branch; 18],
    ) -> (r: TransformationFacts)
        requires
            forall|b: int| 0 <= b < 12 ==> (#[trigger] placements_by_branch@[b]).branch == Branch::at(b),
        ensures
            forall|b: int, t: int| 0 <= b < 12 && 0 <= t < 4 ==> edge_holds(
                #[trigger] r.spec_edges(b)@[t],
                spec_edge(placements_by_branch@[b], Transformation::at(t), placements_by_branch@, branches_by_star@),
            ),
            forall|s: int| 0 <= s < 18 ==> #[trigger] r.spec_origin(s) == spec_find_transformation(
                placements_by_branch@[origin_palace_branch.idx()].stem, StarName::at(s)),
            forall|s: int| 0 <= s < 18 ==> (#[trigger] r.spec_self(s)).spec_outward() == spec_find_transformation(
                placements_by_branch@[branches_by_star@[s].idx()].stem, StarName::at(s)),
            forall|s: int| 0 <= s < 18 ==> (#[trigger] r.spec_self(s)).spec_inward() == spec_find_transformation(
                placements_by_branch@[branches_by_star@[s].spec_opposite().idx()].stem, StarName::at(s)),
    {
        let ghost placements = placements_by_branch@;
        let ghost stars = branches_by_star@;
        let mut origin: [Option<Transformation>; 18] = [None; 18];
        let mut inward: [Option<Transformation>; 18] = [None; 18];
        let mut outward: [Option<Transformation>; 18] = [None; 18];
        let all = Transformation::all();
        let placeholder = PalaceTransformation::new(
            super::palace_name::PalaceName::Ming, Branch::Zi, Transformation::A,
            super::palace_name::PalaceName::Ming, Branch::Zi, StarName::ZiWei);
        let mut edges = [[placeholder; 4]; 12];
        let mut b: usize = 0;
        while b < 12
            invariant
                0 <= b <= 12,
                placements == placements_by_branch@,
                stars == branches_by_star@,
                forall|j: int| 0 <= j < 4 ==> #[trigger] all@[j] == Transformation::at(j),
                forall|k: int| 0 <= k < 12 ==> (#[trigger] placements_by_branch@[k]).branch == Branch::at(k),
                forall|c: int, t: int| 0 <= c < b && 0 <= t < 4 ==> edge_holds(
                    #[trigger] edges@[c]@[t],
                    spec_edge(placements[c], Transformation::at(t), placements, stars),
                ),
                forall|s: int| 0 <= s < 18 ==> #[trigger] origin@[s]
                    == visited_hit(placements, origin_palace_branch, StarName::at(s), b as int, 0),
                forall|s: int| 0 <= s < 18 ==> #[trigger] outward@[s]
                    == visited_hit(placements, stars[s], StarName::at(s), b as int, 0),
                forall|s: int| 0 <= s < 18 ==> #[trigger] inward@[s]
                    == visited_hit(placements, stars[s].spec_opposite(), StarName::at(s), b as int, 0),
            decreases 12 - b,
        {
            let source = placements_by_branch[b];
            let mut row = [placeholder; 4];
            let mut k: usize = 0;
            while k < 4
                invariant
                    0 <= b < 12,
                    0 <= k <= 4,
                    placements == placements_by_branch@,
                    stars == branches_by_star@,
                    source == placements[b as int],
                    source.branch == Branch::at(b as int),
                    forall|j: int| 0 <= j < 4 ==> #[trigger] all@[j] == Transformation::at(j),
                    forall|t: int| 0 <= t < k ==> edge_holds(
                        #[trigger] row@[t],
                        spec_edge(placements[b as int], Transformation::at(t), placements, stars),
                    ),
                    forall|s: int| 0 <= s < 18 ==> #[trigger] origin@[s]
                        == visited_hit(placements, origin_palace_branch, StarName::at(s), b as int, k as int),
                    forall|s: int| 0 <= s < 18 ==> #[trigger] outward@[s]
                        == visited_hit(placements, stars[s], StarName::at(s), b as int, k as int),
                    forall|s: int| 0 <= s < 18 ==> #[trigger] inward@[s]
                        == visited_hit(placements, stars[s].spec_opposite(), StarName::at(s), b as int, k as int),
                decreases 4 - k,
            {
                let transformation = all[k];
                let star_name = source.stem.transformation_star(transformation);
                let star_index = star_name.index();
                let target_branch = branches_by_star[star_index];
                proof {
                    super::star::lemma_star_index(star_name, star_name);
                    super::branch::lemma_branch_index(source.branch, b as int);
                    super::branch::lemma_branch_index(target_branch, 0);
                    super::branch::lemma_branch_index(origin_palace_branch, 0);
                }
                let ghost old_origin = origin@;
                let ghost old_outward = outward@;
                let ghost old_inward = inward@;
                if source.branch == origin_palace_branch {
                    origin[star_index] = Some(transformation);
                }
                if source.branch == target_branch {
                    outward[star_index] = Some(transformation);
                }
                if source.branch.opposite() == target_branch {
                    inward[star_index] = Some(transformation);
                }
                proof {
                    assert forall|s: int| 0 <= s < 18 implies #[trigger] origin@[s]
                        == visited_hit(placements, origin_palace_branch, StarName::at(s), b as int, k + 1) by {
                        super::star::lemma_star_index(StarName::at(s), star_name);
                        super::branch::lemma_branch_index_injective(origin_palace_branch, source.branch);
                    }
                    assert forall|s: int| 0 <= s < 18 implies #[trigger] outward@[s]
                        == visited_hit(placements, stars[s], StarName::at(s), b as int, k + 1) by {
                        super::star::lemma_star_index(StarName::at(s), star_name);
                        super::branch::lemma_branch_index_injective(stars[s], source.branch);
                        super::branch::lemma_branch_index(stars[s], 0);
                    }
                    assert forall|s: int| 0 <= s < 18 implies #[trigger] inward@[s]
                        == visited_hit(placements, stars[s].spec_opposite(), StarName::at(s), b as int, k + 1) by {
                        super::star::lemma_star_index(StarName::at(s), star_name);
                        super::branch::lemma_branch_index_injective(stars[s].spec_opposite(), source.branch);
                        super::branch::lemma_branch_index(stars[s].spec_opposite(), 0);
                        super::branch::lemma_opposite_involution(source.branch);
                    }
                }
                row[k] = PalaceTransformation::new(
                    source.name,
                    source.branch,
                    transformation,
                    placements_by_branch[target_branch.index()].name,
                    target_branch,
                    star_name,
                );
                k = k + 1;
            }
            edges[b] = row;
            proof {
                assert forall|s: int| 0 <= s < 18 implies #[trigger] origin@[s]
                    == visited_hit(placements, origin_palace_branch, StarName::at(s), b + 1, 0) by {
                    super::branch::lemma_branch_index(origin_palace_branch, 0);
                }
                assert forall|s: int| 0 <= s < 18 implies #[trigger] outward@[s]
                    == visited_hit(placements, stars[s], StarName::at(s), b + 1, 0) by {
                    super::branch::lemma_branch_index(stars[s], 0);
                }
                assert forall|s: int| 0 <= s < 18 implies #[trigger] inward@[s]
                    == visited_hit(placements, stars[s].spec_opposite(), StarName::at(s), b + 1, 0) by {
                    super::branch::lemma_branch_index(stars[s].spec_opposite(), 0);
                }
            }
            b = b + 1;
        }
        let mut self_transformations = [StarSelfTransformations::new(None, None); 18];
        let mut s: usize = 0;
        while s < 18
            invariant
                0 <= s <= 18,
                forall|j: int| 0 <= j < s ==> (#[trigger] self_transformations@[j]).spec_inward() == inward@[j]
                    && self_transformations@[j].spec_outward() == outward@[j],
            decreases 18 - s,
        {
            self_transformations[s] = StarSelfTransformations::new(inward[s], outward[s]);
            s = s + 1;
        }
        proof {
            assert forall|s: int| 0 <= s < 18 implies #[trigger] origin@[s] == spec_find_transformation(
                placements[origin_palace_branch.idx()].stem, StarName::at(s)) by {
                super::branch::lemma_branch_index(origin_palace_branch, 0);
                lemma_row_hit_full(placements[origin_palace_branch.idx()].stem, StarName::at(s));
            }
            assert forall|s: int| 0 <= s < 18 implies #[trigger] outward@[s] == spec_find_transformation(
                placements[stars[s].idx()].stem, StarName::at(s)) by {
                super::branch::lemma_branch_index(stars[s], 0);
                lemma_row_hit_full(placements[stars[s].idx()].stem, StarName::at(s));
            }
            assert forall|s: int| 0 <= s < 18 implies #[trigger] inward@[s] == spec_find_transformation(
                placements[stars[s].spec_opposite().idx()].stem, StarName::at(s)) by {
                super::branch::lemma_branch_index(stars[s].spec_opposite(), 0);
                lemma_row_hit_full(placements[stars[s].spec_opposite().idx()].stem, StarName::at(s));
            }
        }
        TransformationFacts {
            palace_transformations_by_branch: edges,
            origin_transformations_by_star: origin,
            self_transformations_by_star: self_transformations,
        }
    }

    /// The four edges sent by the palace at a branch, in the order 禄, 权, 科, 忌.
    pub fn palace_transformations(&self, branch: Branch) -> (r: [PalaceTransformation; 4])
        ensures
            r == self.spec_edges(branch.idx()),
    {
        self.palace_transformations_by_branch[branch.index()]
    }

    /// The birth transformation that a star receives.
    pub fn origin_transformation(&self, star_name: StarName) -> (r: Option<Transformation>)
        ensures
            r == self.spec_origin(star_name.idx()),
    {
        self.origin_transformations_by_star[star_name.index()]
    }

    /// The inward and outward self-transformations of a star.
    pub fn self_transformations(&self, star_name: StarName) -> (r: StarSelfTransformations)
        ensures
            r == self.spec_self(star_name.idx()),
    {
        self.self_transformations_by_star[star_name.index()]
    }
}

} // verus!
