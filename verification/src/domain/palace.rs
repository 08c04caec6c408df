//! A palace as the domain model of a natal chart holds it, and the scopes of its duty.
use super::luck::DecadeAge;
use super::star::Star;
use crate::branch::Branch;
use crate::palace_name::PalaceName;
use crate::star::StarName;
use crate::stem::Stem;
use vstd::prelude::*;

verus! {

/// A duty in one of the three scopes: natal, ten-year or yearly.
#[derive(Debug, Clone, Copy, PartialEq, Eq, Hash, Structural)]
pub enum PalaceScope {
    /// Natal duty.
    Natal(PalaceName),
    /// Ten-year duty.
    Decade(PalaceName),
    /// Yearly duty.
    Yearly(PalaceName),
}

impl PalaceScope {
    /// The palace name of the duty, whatever the scope.
    pub open spec fn spec_palace_key(self) -> PalaceName {
        match self {
            PalaceScope::Natal(key) => key,
            PalaceScope::Decade(key) => key,
            PalaceScope::Yearly(key) => key,
        }
    }

    /// The palace name of the duty, whatever the scope.
    pub fn palace_key(self) -> (r: PalaceName)
        ensures
            r == self.spec_palace_key(),
    {
        match self {
            PalaceScope::Natal(key) => key,
            PalaceScope::Decade(key) => key,
            PalaceScope::Yearly(key) => key,
        }
    }

    /// Simplified Chinese name of the duty in its scope: 命宫, 大命 or 流命.
    pub fn name_hans(self) -> (r: &'static str)
        ensures
            r@ == match self {
                PalaceScope::Natal(key) => key.spec_natal_hans(),
                PalaceScope::Decade(key) => key.spec_decade_hans(),
                PalaceScope::Yearly(key) => key.spec_yearly_hans(),
            },
    {
        match self {
            PalaceScope::Natal(key) => key.simplified_chinese().name,
            PalaceScope::Decade(key) => key.simplified_chinese().decade,
            PalaceScope::Yearly(key) => key.simplified_chinese().yearly,
        }
    }

    /// Traditional Chinese name of the duty in its scope: 命宮, 大命 or 流命.
    pub fn name_hant(self) -> (r: &'static str)
        ensures
            r@ == match self {
                PalaceScope::Natal(key) => key.spec_natal_hant(),
                PalaceScope::Decade(key) => key.spec_decade_hant(),
                PalaceScope::Yearly(key) => key.spec_yearly_hant(),
            },
    {
        match self {
            PalaceScope::Natal(key) => key.traditional_chinese().name,
            PalaceScope::Decade(key) => key.traditional_chinese().decade,
            PalaceScope::Yearly(key) => key.traditional_chinese().yearly,
        }
    }
}

/// One palace of a natal chart: its natal name, branch, stem, stars in fixed order and
/// the ages it covers as a ten-year period. It does not change with periods or years.
#[derive(Debug, Clone, PartialEq, Eq)]
pub struct Palace {
    name: PalaceName,
    branch: Branch,
    stem: Stem,
    stars: Vec<Star>,
    decade_age: DecadeAge,
}

impl Palace {
    /// Name held.
    pub closed spec fn spec_name(&self) -> PalaceName {
        self.name
    }

    /// Branch held.
    pub closed spec fn spec_branch(&self) -> Branch {
        self.branch
    }

    /// Stem held.
    pub closed spec fn spec_stem(&self) -> Stem {
        self.stem
    }

    /// Stars held.
    pub closed spec fn spec_stars(&self) -> Seq<Star> {
        self.stars@
    }

    /// Ages held.
    pub closed spec fn spec_decade_age(&self) -> DecadeAge {
        self.decade_age
    }

    /// Assembles a palace.
    pub fn new(name: PalaceName, branch: Branch, stem: Stem, stars: Vec<Star>, decade_age: DecadeAge) -> (r: Palace)
        ensures
            r.spec_name() == name,
            r.spec_branch() == branch,
            r.spec_stem() == stem,
            r.spec_stars() == stars@,
            r.spec_decade_age() == decade_age,
    {
        Palace { name, branch, stem, stars, decade_age }
    }

    /// Natal name of the palace.
    pub fn name(&self) -> (r: PalaceName)
        ensures
            r == self.spec_name(),
    {
        self.name
    }

    /// Natal name of the palace, as a key.
    pub fn key(&self) -> (r: PalaceName)
        ensures
            r == self.spec_name(),
    {
        self.name
    }

    /// The natal scope of the palace's duty.
    pub fn scope(&self) -> (r: PalaceScope)
        ensures
            r == PalaceScope::Natal(self.spec_name()),
    {
        PalaceScope::Natal(self.name)
    }

    /// Simplified Chinese natal name, such as 命宫.
    pub fn name_hans(&self) -> (r: &'static str)
        ensures
            r@ == self.spec_name().spec_natal_hans(),
    {
        self.name.simplified_chinese().name
    }

    /// Traditional Chinese natal name, such as 命宮.
    pub fn name_hant(&self) -> (r: &'static str)
        ensures
            r@ == self.spec_name().spec_natal_hant(),
    {
        self.name.traditional_chinese().name
    }

    /// Branch of the palace.
    pub fn branch(&self) -> (r: Branch)
        ensures
            r == self.spec_branch(),
    {
        self.branch
    }

    /// Stem of the palace.
    pub fn stem(&self) -> (r: Stem)
        ensures
            r == self.spec_stem(),
    {
        self.stem
    }

    /// Stars of the palace in their fixed order.
    pub fn stars(&self) -> (r: &[Star])
        ensures
            r@ == self.spec_stars(),
    {
        self.stars.as_slice()
    }

    /// The first star of the palace with the given key; none when the palace lacks it.
    pub fn star(&self, key: StarName) -> (r: Option<&Star>)
        ensures
            r is None <==> forall|i: int| 0 <= i < self.spec_stars().len() ==> #[trigger] self.spec_stars()[i].spec_key() != key,
            r matches Some(s) ==> exists|i: int| 0 <= i < self.spec_stars().len() && *s == #[trigger] self.spec_stars()[i]
                && s.spec_key() == key
                && forall|j: int| 0 <= j < i ==> #[trigger] self.spec_stars()[j].spec_key() != key,
    {
        let mut i: usize = 0;
        while i < self.stars.len()
            invariant
                0 <= i <= self.stars@.len(),
                forall|j: int| 0 <= j < i ==> #[trigger] self.stars@[j].spec_key() != key,
            decreases self.stars@.len() - i,
        {
            if self.stars[i].key() == key {
                return Some(&self.stars[i]);
            }
            i = i + 1;
        }
        None
    }

    /// The ages that the palace covers as a ten-year period.
    pub fn decade_age(&self) -> (r: DecadeAge)
        ensures
            r == self.spec_decade_age(),
    {
        self.decade_age
    }
}

} // verus!
