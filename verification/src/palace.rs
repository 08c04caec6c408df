//! A palace of a natal chart and the transformation edges that leave it.
use super::branch::Branch;
use super::palace_name::PalaceName;
use super::star::{Star, StarName};
use super::stem::Stem;
use super::transformation::Transformation;
use vstd::prelude::*;

verus! {

/// One transformation edge: the stem of the source palace transforms a star, and that
/// star stands in the target palace.
#[derive(Debug, Clone, Copy, PartialEq, Eq, Structural)]
pub struct PalaceTransformation {
    source_name: PalaceName,
    source_branch: Branch,
    transformation: Transformation,
    target_name: PalaceName,
    target_branch: Branch,
    star_name: StarName,
}

impl PalaceTransformation {
    /// Name of the source palace held in the edge.
    pub closed spec fn spec_source_name(self) -> PalaceName {
        self.source_name
    }

    /// Branch of the source palace held in the edge.
    pub closed spec fn spec_source_branch(self) -> Branch {
        self.source_branch
    }

    /// Transformation held in the edge.
    pub closed spec fn spec_transformation(self) -> Transformation {
        self.transformation
    }

    /// Name of the target palace held in the edge.
    pub closed spec fn spec_target_name(self) -> PalaceName {
        self.target_name
    }

    /// Branch of the target palace held in the edge.
    pub closed spec fn spec_target_branch(self) -> Branch {
        self.target_branch
    }

    /// Transformed star held in the edge.
    pub closed spec fn spec_star_name(self) -> StarName {
        self.star_name
    }

    /// Assembles an edge from its parts.
    pub fn new(
        source_name: PalaceName,
        source_branch: Branch,
        transformation: Transformation,
        target_name: PalaceName,
        target_branch: Branch,
        star_name: StarName,
    ) -> (r: Self)
        ensures
            r.spec_source_name() == source_name,
            r.spec_source_branch() == source_branch,
            r.spec_transformation() == transformation,
            r.spec_target_name() == target_name,
            r.spec_target_branch() == target_branch,
            r.spec_star_name() == star_name,
    {
        PalaceTransformation { source_name, source_branch, transformation, target_name, target_branch, star_name }
    }

    /// Name of the source palace.
    pub fn source_name(self) -> (r: PalaceName)
        ensures
            r == self.spec_source_name(),
    {
        self.source_name
    }

    /// Branch of the source palace.
    pub fn source_branch(self) -> (r: Branch)
        ensures
            r == self.spec_source_branch(),
    {
        self.source_branch
    }

    /// The transformation (禄, 权, 科 or 忌).
    pub fn transformation(self) -> (r: Transformation)
        ensures
            r == self.spec_transformation(),
    {
        self.transformation
    }

    /// Name of the palace in which the transformed star stands.
    pub fn target_name(self) -> (r: PalaceName)
        ensures
            r == self.spec_target_name(),
    {
        self.target_name
    }

    /// Branch of the palace in which the transformed star stands.
    pub fn target_branch(self) -> (r: Branch)
        ensures
            r == self.spec_target_branch(),
    {
        self.target_branch
    }

    /// The transformed star.
    pub fn star_name(self) -> (r: StarName)
        ensures
            r == self.spec_star_name(),
    {
        self.star_name
    }
}

/// One of the twelve palaces of a natal chart: its name, branch, stem, the stars
/// standing in it and the four transformation edges its stem sends out.
#[derive(Debug, Clone, PartialEq, Eq)]
pub struct Palace {
    name: PalaceName,
    branch: Branch,
    stem: Stem,
    stars: Vec<Star>,
    transformations: [PalaceTransformation; 4],
}

impl Palace {
    /// Name held in the palace.
    pub closed spec fn spec_name(&self) -> PalaceName {
        self.name
    }

    /// Branch held in the palace.
    pub closed spec fn spec_branch(&self) -> Branch {
        self.branch
    }

    /// Stem held in the palace.
    pub closed spec fn spec_stem(&self) -> Stem {
        self.stem
    }

    /// Stars held in the palace, in catalogue order.
    pub closed spec fn spec_stars(&self) -> Seq<Star> {
        self.stars@
    }

    /// The four outgoing edges, in the order 禄, 权, 科, 忌.
    pub closed spec fn spec_transformations(&self) -> [PalaceTransformation; 4] {
        self.transformations
    }

    /// Assembles a palace from its parts.
    pub fn new(
        name: PalaceName,
        branch: Branch,
        stem: Stem,
        stars: Vec<Star>,
        transformations: [PalaceTransformation; 4],
    ) -> (r: Self)
        ensures
            r.spec_name() == name,
            r.spec_branch() == branch,
            r.spec_stem() == stem,
            r.spec_stars() == stars@,
            r.spec_transformations() == transformations,
    {
        Palace { name, branch, stem, stars, transformations }
    }

    /// Name (宫职) of the palace.
    pub fn name(&self) -> (r: PalaceName)
        ensures
            r == self.spec_name(),
    {
        self.name
    }

    /// Branch of the palace.
    pub fn branch(&self) -> (r: Branch)
        ensures
            r == self.spec_branch(),
    {
        self.branch
    }

    /// Stem of the palace (五虎遁).
    pub fn stem(&self) -> (r: Stem)
        ensures
            r == self.spec_stem(),
    {
        self.stem
    }

    /// Stars standing in the palace, in catalogue order.
    pub fn stars(&self) -> (r: &[Star])
        ensures
            r@ == self.spec_stars(),
    {
        self.stars.as_slice()
    }

    /// The four edges that the palace stem sends out, in the order 禄, 权, 科, 忌.
    pub fn transformations(&self) -> (r: &[PalaceTransformation; 4])
        ensures
            *r == self.spec_transformations(),
    {
        &self.transformations
    }
}

impl View for Palace {
    /// Everything a palace publishes: name, branch, stem, stars and edges.
    type V = (PalaceName, Branch, Stem, Seq<Star>, [PalaceTransformation; 4]);

    open spec fn view(&self) -> (PalaceName, Branch, Stem, Seq<Star>, [PalaceTransformation; 4]) {
        (self.spec_name(), self.spec_branch(), self.spec_stem(), self.spec_stars(), self.spec_transformations())
    }
}

/// Two edges that agree on every published field are the same value.
pub proof fn lemma_edge_ext(a: PalaceTransformation, b: PalaceTransformation)
    requires
        a.spec_source_name() == b.spec_source_name(),
        a.spec_source_branch() == b.spec_source_branch(),
        a.spec_transformation() == b.spec_transformation(),
        a.spec_target_name() == b.spec_target_name(),
        a.spec_target_branch() == b.spec_target_branch(),
        a.spec_star_name() == b.spec_star_name(),
    ensures
        a == b,
{
}

} // verus!
