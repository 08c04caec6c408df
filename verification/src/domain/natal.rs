//! The natal chart as the domain model holds it: profile, zodiac, bureau, the twelve
//! palaces from 寅 to 丑, and the coordinates of 命宫, 身宫, the origin palace and 紫微.
use super::palace::Palace;
use super::profile::Profile;
use crate::branch::Branch;
use crate::bureau::FiveElementBureau;
use crate::palace_name::PalaceName;
use crate::zodiac::Zodiac;
use vstd::prelude::*;

verus! {

/// The immutable natal facts of a chart; periods and years are not precomputed here.
#[derive(Debug, Clone, PartialEq, Eq)]
pub struct Natal {
    profile: Profile,
    zodiac: Zodiac,
    five_element_bureau: FiveElementBureau,
    palaces: [Palace; 12],
    ming_palace_branch: Branch,
    shen_palace_name: PalaceName,
    shen_palace_branch: Branch,
    origin_palace_name: PalaceName,
    origin_palace_branch: Branch,
    ziwei_palace_name: PalaceName,
    ziwei_branch: Branch,
}

impl Natal {
    /// Profile held.
    pub closed spec fn spec_profile(&self) -> Profile {
        self.profile
    }

    /// Zodiac held.
    pub closed spec fn spec_zodiac(&self) -> Zodiac {
        self.zodiac
    }

    /// Bureau held.
    pub closed spec fn spec_five_element_bureau(&self) -> FiveElementBureau {
        self.five_element_bureau
    }

    /// Palaces held, from 寅 to 丑.
    pub closed spec fn spec_palaces(&self) -> [Palace; 12] {
        self.palaces
    }

    /// Branch of 命宫 held.
    pub closed spec fn spec_ming_palace_branch(&self) -> Branch {
        self.ming_palace_branch
    }

    /// Name of the palace under 身宫 held.
    pub closed spec fn spec_shen_palace_name(&self) -> PalaceName {
        self.shen_palace_name
    }

    /// Branch of 身宫 held.
    pub closed spec fn spec_shen_palace_branch(&self) -> Branch {
        self.shen_palace_branch
    }

    /// Name of the origin palace held.
    pub closed spec fn spec_origin_palace_name(&self) -> PalaceName {
        self.origin_palace_name
    }

    /// Branch of the origin palace held.
    pub closed spec fn spec_origin_palace_branch(&self) -> Branch {
        self.origin_palace_branch
    }

    /// Name of the palace of 紫微 held.
    pub closed spec fn spec_ziwei_palace_name(&self) -> PalaceName {
        self.ziwei_palace_name
    }

    /// Branch of 紫微 held.
    pub closed spec fn spec_ziwei_branch(&self) -> Branch {
        self.ziwei_branch
    }

    /// Assembles the natal facts; the palaces run from 寅 to 丑.
    pub fn new(
        profile: Profile,
        zodiac: Zodiac,
        five_element_bureau: FiveElementBureau,
        palaces: [Palace; 12],
        ming_palace_branch: Branch,
        shen_palace_name: PalaceName,
        shen_palace_branch: Branch,
        origin_palace_name: PalaceName,
        origin_palace_branch: Branch,
        ziwei_palace_name: PalaceName,
        ziwei_branch: Branch,
    ) -> (r: Natal)
        ensures
            r.spec_profile() == profile,
            r.spec_zodiac() == zodiac,
            r.spec_five_element_bureau() == five_element_bureau,
            r.spec_palaces() == palaces,
            r.spec_ming_palace_branch() == ming_palace_branch,
            r.spec_shen_palace_name() == shen_palace_name,
            r.spec_shen_palace_branch() == shen_palace_branch,
            r.spec_origin_palace_name() == origin_palace_name,
            r.spec_origin_palace_branch() == origin_palace_branch,
            r.spec_ziwei_palace_name() == ziwei_palace_name,
            r.spec_ziwei_branch() == ziwei_branch,
    {
        Natal {
            profile,
            zodiac,
            five_element_bureau,
            palaces,
            ming_palace_branch,
            shen_palace_name,
            shen_palace_branch,
            origin_palace_name,
            origin_palace_branch,
            ziwei_palace_name,
            ziwei_branch,
        }
    }

    /// The normalized birth profile.
    pub fn profile(&self) -> (r: &Profile)
        ensures
            *r == self.spec_profile(),
    {
        &self.profile
    }

    /// The zodiac of the year branch.
    pub fn zodiac(&self) -> (r: Zodiac)
        ensures
            r == self.spec_zodiac(),
    {
        self.zodiac
    }

    /// The five-element bureau.
    pub fn five_element_bureau(&self) -> (r: FiveElementBureau)
        ensures
            r == self.spec_five_element_bureau(),
    {
        self.five_element_bureau
    }

    /// The twelve palaces, from 寅 to 丑.
    pub fn palaces(&self) -> (r: &[Palace; 12])
        ensures
            *r == self.spec_palaces(),
    {
        &self.palaces
    }

    /// The palace at a branch: the one at the branch's place in the ring from 寅.
    pub fn palace(&self, branch: Branch) -> (r: &Palace)
        ensures
            *r == self.spec_palaces()@[branch.yin0()],
    {
        &self.palaces[branch.index_from_yin() as usize]
    }

    /// The first palace with a natal name; the name must be held by some palace.
    pub fn palace_by_name(&self, name: PalaceName) -> (r: &Palace)
        requires
            exists|k: int| 0 <= k < 12 && (#[trigger] self.spec_palaces()@[k]).spec_name() == name,
        ensures
            exists|k: int| 0 <= k < 12 && *r == #[trigger] self.spec_palaces()@[k]
                && forall|j: int| 0 <= j < k ==> (#[trigger] self.spec_palaces()@[j]).spec_name() != name,
            r.spec_name() == name,
    {
        let mut i: usize = 0;
        while i < 12
            invariant
                0 <= i <= 12,
                exists|k: int| i <= k < 12 && (#[trigger] self.spec_palaces()@[k]).spec_name() == name,
                forall|j: int| 0 <= j < i ==> (#[trigger] self.spec_palaces()@[j]).spec_name() != name,
            decreases 12 - i,
        {
            if self.palaces[i].name() == name {
                return &self.palaces[i];
            }
            i = i + 1;
        }
        &self.palaces[0]
    }

    /// Branch of 命宫.
    pub fn ming_palace_branch(&self) -> (r: Branch)
        ensures
            r == self.spec_ming_palace_branch(),
    {
        self.ming_palace_branch
    }

    /// Name of the palace on which 身宫 lies.
    pub fn shen_palace_name(&self) -> (r: PalaceName)
        ensures
            r == self.spec_shen_palace_name(),
    {
        self.shen_palace_name
    }

    /// Branch of 身宫.
    pub fn shen_palace_branch(&self) -> (r: Branch)
        ensures
            r == self.spec_shen_palace_branch(),
    {
        self.shen_palace_branch
    }

    /// Name of the origin palace.
    pub fn origin_palace_name(&self) -> (r: PalaceName)
        ensures
            r == self.spec_origin_palace_name(),
    {
        self.origin_palace_name
    }

    /// Branch of the origin palace.
    pub fn origin_palace_branch(&self) -> (r: Branch)
        ensures
            r == self.spec_origin_palace_branch(),
    {
        self.origin_palace_branch
    }

    /// Name of the palace that holds 紫微.
    pub fn ziwei_palace_name(&self) -> (r: PalaceName)
        ensures
            r == self.spec_ziwei_palace_name(),
    {
        self.ziwei_palace_name
    }

    /// Branch of 紫微.
    pub fn ziwei_branch(&self) -> (r: Branch)
        ensures
            r == self.spec_ziwei_branch(),
    {
        self.ziwei_branch
    }

    /// The palace of 命宫.
    pub fn ming_palace(&self) -> (r: &Palace)
        ensures
            *r == self.spec_palaces()@[self.spec_ming_palace_branch().yin0()],
    {
        self.palace(self.ming_palace_branch)
    }

    /// The palace on which 身宫 lies.
    pub fn shen_palace(&self) -> (r: &Palace)
        ensures
            *r == self.spec_palaces()@[self.spec_shen_palace_branch().yin0()],
    {
        self.palace(self.shen_palace_branch)
    }

    /// The origin palace (来因宫).
    pub fn origin_palace(&self) -> (r: &Palace)
        ensures
            *r == self.spec_palaces()@[self.spec_origin_palace_branch().yin0()],
    {
        self.palace(self.origin_palace_branch)
    }

    /// The palace that holds 紫微.
    pub fn ziwei_palace(&self) -> (r: &Palace)
        ensures
            *r == self.spec_palaces()@[self.spec_ziwei_branch().yin0()],
    {
        self.palace(self.ziwei_branch)
    }
}

} // verus!
