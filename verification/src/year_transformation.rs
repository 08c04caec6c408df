//! The four birth transformations (生年四化) as fixed facts of a chart.
use super::branch::Branch;
use super::star::StarName;
use super::stem::Stem;
use super::transformation::Transformation;
use vstd::prelude::*;

verus! {

/// One birth transformation: the transformation, the transformed star and the natal
/// branch of that star.
#[derive(Debug, Clone, Copy, PartialEq, Eq, Structural)]
pub struct YearTransformation {
    transformation: Transformation,
    star: StarName,
    branch: Branch,
}

impl YearTransformation {
    /// Transformation held.
    pub closed spec fn spec_transformation(self) -> Transformation {
        self.transformation
    }

    /// Star held.
    pub closed spec fn spec_star(self) -> StarName {
        self.star
    }

    /// Branch held.
    pub closed spec fn spec_branch(self) -> Branch {
        self.branch
    }

    /// A birth transformation from its parts.
    pub fn new(transformation: Transformation, star: StarName, branch: Branch) -> (r: YearTransformation)
        ensures
            r.spec_transformation() == transformation,
            r.spec_star() == star,
            r.spec_branch() == branch,
    {
        YearTransformation { transformation, star, branch }
    }

    /// The transformation.
    pub fn transformation(self) -> (r: Transformation)
        ensures
            r == self.spec_transformation(),
    {
        self.transformation
    }

    /// The transformed star.
    pub fn star(self) -> (r: StarName)
        ensures
            r == self.spec_star(),
    {
        self.star
    }

    /// Natal branch of the transformed star.
    pub fn branch(self) -> (r: Branch)
        ensures
            r == self.spec_branch(),
    {
        self.branch
    }
}

/// The four birth transformations of a birth stem, in the order 禄, 权, 科, 忌, with the
/// natal branches of the stars taken from `star_branches`.
pub fn build_year_transformations(birth_stem: Stem, star_branches: &[Branch; 18]) -> (r: [YearTransformation; 4])
    ensures
        forall|t: int| 0 <= t < 4 ==> {
            &&& (#[trigger] r@[t]).spec_transformation() == Transformation::at(t)
            &&& r@[t].spec_star() == birth_stem.spec_transformation_star(Transformation::at(t))
            &&& r@[t].spec_branch() == star_branches@[birth_stem.spec_transformation_star(Transformation::at(t)).idx()]
        },
{
    let all = Transformation::all();
    let placeholder = YearTransformation::new(Transformation::A, StarName::ZiWei, Branch::Zi);
    let mut facts = [placeholder; 4];
    let mut k: usize = 0;
    while k < 4
        invariant
            0 <= k <= 4,
            forall|j: int| 0 <= j < 4 ==> #[trigger] all@[j] == Transformation::at(j),
            forall|j: int| 0 <= j < k ==> {
                &&& (#[trigger] facts@[j]).spec_transformation() == Transformation::at(j)
                &&& facts@[j].spec_star() == birth_stem.spec_transformation_star(Transformation::at(j))
                &&& facts@[j].spec_branch() == star_branches@[birth_stem.spec_transformation_star(Transformation::at(j)).idx()]
            },
        decreases 4 - k,
    {
        let transformation = all[k];
        let star = birth_stem.transformation_star(transformation);
        facts[k] = YearTransformation::new(transformation, star, star_branches[star.index()]);
        k = k + 1;
    }
    facts
}

} // verus!
