//! Palace-stem flies (宫干飞化): the single-hop edges sent by the twelve palace stems.
use crate::branch::Branch;
use crate::star::StarName;
use crate::transformation::Transformation;
use vstd::prelude::*;

verus! {

/// Self-transformation mark of a fly, fixed by where it lands.
#[derive(Debug, Clone, Copy, PartialEq, Eq, Structural)]
pub enum SelfTransformation {
    /// The star stands in the source palace itself (离心, outward).
    Out,
    /// The star stands in the palace opposite the source (向心, inward).
    In,
    /// The star stands in one of the ten other palaces.
    Neither,
}

/// The self-transformation mark of a fly from `source` to `target`: outward when they
/// are the same branch, inward when they are opposite, none otherwise.
pub open spec fn spec_self_transformation(source: Branch, target: Branch) -> SelfTransformation {
    if target == source {
        SelfTransformation::Out
    } else if target == source.spec_opposite() {
        SelfTransformation::In
    } else {
        SelfTransformation::Neither
    }
}

/// One fly: the stem of the source palace transforms `star` with `transformation`, and
/// the star stands at `target_branch`.
#[derive(Debug, Clone, Copy, PartialEq, Eq, Structural)]
pub struct ZiweiFly {
    source_branch: Branch,
    transformation: Transformation,
    target_branch: Branch,
    star: StarName,
    self_transformation: SelfTransformation,
}

impl ZiweiFly {
    /// The stored mark always agrees with the two branches.
    #[verifier::type_invariant]
    closed spec fn mark_agrees(self) -> bool {
        self.self_transformation == spec_self_transformation(self.source_branch, self.target_branch)
    }

    /// Source branch held.
    pub closed spec fn spec_source_branch(self) -> Branch {
        self.source_branch
    }

    /// Transformation held.
    pub closed spec fn spec_transformation(self) -> Transformation {
        self.transformation
    }

    /// Target branch held.
    pub closed spec fn spec_target_branch(self) -> Branch {
        self.target_branch
    }

    /// Transformed star held.
    pub closed spec fn spec_star(self) -> StarName {
        self.star
    }

    /// Assembles a fly and marks its self-transformation.
    pub fn new(source_branch: Branch, transformation: Transformation, target_branch: Branch, star: StarName) -> (r: ZiweiFly)
        ensures
            r.spec_source_branch() == source_branch,
            r.spec_transformation() == transformation,
            r.spec_target_branch() == target_branch,
            r.spec_star() == star,
    {
        proof {
            crate::branch::lemma_branch_index_injective(target_branch, source_branch);
            crate::branch::lemma_branch_index_injective(target_branch, source_branch.spec_opposite());
        }
        let self_transformation = if target_branch.index() == source_branch.index() {
            SelfTransformation::Out
        } else if target_branch.index() == source_branch.opposite().index() {
            SelfTransformation::In
        } else {
            SelfTransformation::Neither
        };
        ZiweiFly { source_branch, transformation, target_branch, star, self_transformation }
    }

    /// Branch of the palace that sends the fly.
    pub fn source_branch(self) -> (r: Branch)
        ensures
            r == self.spec_source_branch(),
    {
        self.source_branch
    }

    /// Transformation (禄, 权, 科 or 忌).
    pub fn transformation(self) -> (r: Transformation)
        ensures
            r == self.spec_transformation(),
    {
        self.transformation
    }

    /// Branch at which the transformed star stands.
    pub fn target_branch(self) -> (r: Branch)
        ensures
            r == self.spec_target_branch(),
    {
        self.target_branch
    }

    /// The transformed star.
    pub fn star(self) -> (r: StarName)
        ensures
            r == self.spec_star(),
    {
        self.star
    }

    /// Self-transformation mark: outward when the star stands in the source palace,
    /// inward when it stands in the opposite palace, none otherwise.
    pub fn self_transformation(self) -> (r: SelfTransformation)
        ensures
            r == spec_self_transformation(self.spec_source_branch(), self.spec_target_branch()),
    {
        proof {
            use_type_invariant(self);
        }
        self.self_transformation
    }
}

} // verus!
