//! Palace layout and star placement of the queryable chart, as single steps.
use super::palace::Palace;
use super::ziwei::{assemble_palaces, chart_palace_is_at};
use crate::branch::Branch;
use crate::bureau::FiveElementBureau;
use crate::placement::{
    bureau_from_ming_palace, compute_major_star_branches, compute_minor_star_branches, compute_ming_shen_branches,
    compute_palace_stems, merge_star_branches, spec_bureau, spec_ming_palace_branch, spec_shen_palace_branch,
    spec_star_branch,
};
use crate::star::StarName;
use crate::stem::Stem;
use vstd::prelude::*;

verus! {

/// 命 and 身, the twelve palaces with duties and stems, and the bureau.
#[derive(Debug, Clone, Copy, PartialEq, Eq)]
pub struct NatalLayout {
    /// The twelve palaces, indexed by branch (子 = 0).
    pub palaces: [Palace; 12],
    /// Branch of 命.
    pub ming_branch: Branch,
    /// Branch of 身.
    pub shen_branch: Branch,
    /// Bureau of 命.
    pub bureau: FiveElementBureau,
}

/// Lays out the natal palaces (安命身, 十二职, 五虎遁, 纳音局): 命 and 身 from month and
/// hour, duties backward from 命, stems forward from the 寅 head stem, and the bureau of
/// the stem and branch of 命.
pub fn layout_natal_palaces(birth_stem: Stem, month: u8, hour: u8) -> (r: NatalLayout)
    ensures
        r.ming_branch == spec_ming_palace_branch(month as int, hour as int),
        r.shen_branch == spec_shen_palace_branch(month as int, hour as int),
        r.bureau == spec_bureau(birth_stem, r.ming_branch),
        forall|b: int| 0 <= b < 12 ==> chart_palace_is_at(#[trigger] r.palaces@[b], birth_stem, r.ming_branch, Branch::at(b)),
{
    let ming_shen = compute_ming_shen_branches(month, hour);
    let stems = compute_palace_stems(birth_stem);
    proof {
        crate::branch::lemma_branch_index(ming_shen.ming_palace, 0);
    }
    let bureau = bureau_from_ming_palace(ming_shen.ming_palace, &stems);
    let palaces = assemble_palaces(ming_shen.ming_palace, &stems);
    NatalLayout { palaces, ming_branch: ming_shen.ming_palace, shen_branch: ming_shen.shen_palace, bureau }
}

/// Places the eighteen stars (安星), indexed by catalogue position: 紫微 by day and bureau
/// number, its series backward, 天府 mirrored and its series forward, 左辅 and 右弼 by
/// month, 文昌 and 文曲 by hour.
pub fn place_eighteen_stars(month: u8, hour: u8, day: u8, bureau_n: u8) -> (r: [Branch; 18])
    requires
        2 <= bureau_n <= 6,
    ensures
        forall|s: int| 0 <= s < 18 ==> #[trigger] r@[s] == spec_star_branch(
            StarName::at(s), day as int, bureau_n as int, month as int, hour as int),
{
    let majors = compute_major_star_branches(day, bureau_n);
    let minors = compute_minor_star_branches(month, hour);
    let r = merge_star_branches(majors, minors);
    proof {
        assert forall|s: int| 0 <= s < 18 implies #[trigger] r@[s] == spec_star_branch(
            StarName::at(s), day as int, bureau_n as int, month as int, hour as int) by {
            crate::star::lemma_star_index(StarName::at(s), StarName::at(s));
        }
    }
    r
}

} // verus!
