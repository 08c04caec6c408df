//! Layout rules counted on the ring from 寅: 命宫 and 身宫, the natal names and the
//! palace stems (五虎遁).
use super::profile::BirthMonth;
use crate::branch::Branch;
use crate::palace_name::PalaceName;
use crate::placement::{spec_ming_palace_branch, spec_palace_name, spec_palace_stem, spec_shen_palace_branch};
use crate::position::spec_branch_from_yin0;
use crate::stem::Stem;
use vstd::prelude::*;

verus! {

/// Branches of 命宫 and 身宫: from 寅 for the first month count forward to the birth
/// month, then backward by the hour for 命宫 and forward for 身宫.
#[verifier::rlimit(30)]
pub fn compute_ming_shen_branches(birth_month: BirthMonth, birth_hour: Branch) -> (r: (Branch, Branch))
    requires
        1 <= birth_month.spec_get() <= 12,
    ensures
        r.0 == spec_ming_palace_branch(birth_month.spec_get() - 1, birth_hour.idx()),
        r.1 == spec_shen_palace_branch(birth_month.spec_get() - 1, birth_hour.idx()),
{
    let month = birth_month.get();
    let month_branch_index = (Branch::Yin.index() as u8 + (month - 1)) % 12;
    let hour_branch_index = birth_hour.index() as u8;
    let ming_branch_index = (month_branch_index + 12 - hour_branch_index) % 12;
    let shen_branch_index = (month_branch_index + hour_branch_index) % 12;
    proof {
        let m = month - 1;
        let h = hour_branch_index as int;
        crate::branch::lemma_branch_index(Branch::Zi, m - h + 2);
        crate::branch::lemma_branch_index(Branch::Zi, m + h + 2);
        vstd::arithmetic::div_mod::lemma_mod_add_multiples_vanish(m - h + 2, 12);
        assert(((2 + m) % 12 + 12 - h) % 12 == (m - h + 2) % 12) by {
            vstd::arithmetic::div_mod::lemma_add_mod_noop(2 + m, 12 - h, 12);
            vstd::arithmetic::div_mod::lemma_mod_add_multiples_vanish(m - h + 2, 12);
        }
        assert(((2 + m) % 12 + h) % 12 == (m + h + 2) % 12) by {
            vstd::arithmetic::div_mod::lemma_add_mod_noop(2 + m, h, 12);
        }
    }
    (Branch::from_index(ming_branch_index), Branch::from_index(shen_branch_index))
}

/// Natal names of the twelve palaces in the ring order from 寅: 命 at the 命宫 branch,
/// then backward 兄, 夫, … around the ring.
#[verifier::rlimit(30)]
pub fn compute_natal_palace_names(ming_palace_branch: Branch) -> (r: [PalaceName; 12])
    ensures
        forall|k: int| 0 <= k < 12 ==> #[trigger] r@[k] == spec_palace_name(ming_palace_branch, spec_branch_from_yin0(k)),
{
    let ming = ming_palace_branch.index_from_yin() as usize;
    let mut names = [PalaceName::Ming; 12];
    let mut k: usize = 0;
    while k < 12
        invariant
            0 <= k <= 12,
            ming == ming_palace_branch.yin0(),
            forall|j: int| 0 <= j < k ==> #[trigger] names@[j] == spec_palace_name(ming_palace_branch, spec_branch_from_yin0(j)),
        decreases 12 - k,
    {
        proof {
            let b = spec_branch_from_yin0(k as int);
            crate::branch::lemma_branch_index(ming_palace_branch, k + 2);
            crate::branch::lemma_branch_index(b, ming_palace_branch.idx() - b.idx());
            crate::palace_name::lemma_palace_name_index(PalaceName::Ming, PalaceName::Ming, ming_palace_branch.idx() - b.idx());
            crate::palace_name::lemma_palace_name_index(PalaceName::Ming, PalaceName::Ming, (ming + 12 - k) as int);
            assert((ming + 12 - k) % 12 == (ming_palace_branch.idx() - b.idx()) % 12) by {
                vstd::arithmetic::div_mod::lemma_mod_add_multiples_vanish(ming - k, 12);
            }
        }
        names[k] = PalaceName::from_index((ming + 12 - k) % 12);
        k = k + 1;
    }
    names
}

/// Stems of the twelve palaces in the ring order from 寅, by the five-tiger rule (五虎遁):
/// the row of the table for the group of the birth stem.
pub fn compute_palace_stems(birth_stem: Stem) -> (r: [Stem; 12])
    ensures
        forall|k: int| 0 <= k < 12 ==> #[trigger] r@[k] == spec_palace_stem(birth_stem, spec_branch_from_yin0(k)),
{
    let group_index: usize = match birth_stem {
        Stem::Jia | Stem::Ji => 0,
        Stem::Yi | Stem::Geng => 1,
        Stem::Bing | Stem::Xin => 2,
        Stem::Ding | Stem::Ren => 3,
        Stem::Wu | Stem::Gui => 4,
    };
    let row = Stem::FIVE_TIGER_DUN_PALACE_STEMS[group_index];
    proof {
        assert forall|k: int| 0 <= k < 12 implies #[trigger] row@[k] == spec_palace_stem(birth_stem, spec_branch_from_yin0(k)) by {
            crate::position::lemma_yin0_round_trip(Branch::Zi, k);
        }
    }
    row
}

} // verus!
