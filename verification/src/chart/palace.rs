//! A palace of the queryable chart: its natal duty, branch and stem.
use crate::branch::Branch;
use crate::palace_name::PalaceName;
use crate::stem::Stem;
use vstd::prelude::*;

verus! {

/// One of the twelve palaces: the natal duty (宫职), the branch and the stem (五虎遁).
///
/// The duty is always the natal one; duties under a ten-year or yearly view are read
/// through a view, never written here.
#[derive(Debug, Clone, Copy, PartialEq, Eq, Structural)]
pub struct Palace {
    role: PalaceName,
    branch: Branch,
    stem: Stem,
}

impl Palace {
    /// Natal duty held.
    pub closed spec fn spec_role(self) -> PalaceName {
        self.role
    }

    /// Branch held.
    pub closed spec fn spec_branch(self) -> Branch {
        self.branch
    }

    /// Stem held.
    pub closed spec fn spec_stem(self) -> Stem {
        self.stem
    }

    /// Assembles a palace.
    pub fn new(role: PalaceName, branch: Branch, stem: Stem) -> (r: Palace)
        ensures
            r.spec_role() == role,
            r.spec_branch() == branch,
            r.spec_stem() == stem,
    {
        Palace { role, branch, stem }
    }

    /// Natal duty of the palace.
    pub fn role(self) -> (r: PalaceName)
        ensures
            r == self.spec_role(),
    {
        self.role
    }

    /// Branch of the palace.
    pub fn branch(self) -> (r: Branch)
        ensures
            r == self.spec_branch(),
    {
        self.branch
    }

    /// Stem of the palace.
    pub fn stem(self) -> (r: Stem)
        ensures
            r == self.spec_stem(),
    {
        self.stem
    }
}

/// Two palaces with the same duty, branch and stem are the same palace.
pub proof fn lemma_palace_ext(a: Palace, b: Palace)
    requires
        a.spec_role() == b.spec_role(),
        a.spec_branch() == b.spec_branch(),
        a.spec_stem() == b.spec_stem(),
    ensures
        a == b,
{
}

} // verus!
