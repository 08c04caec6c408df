//! Palace and star placement rules of the natal chart (安宫, 安星).
//!
//! The rules use the 寅-based ring (寅 = 0) internally; every result is returned as
//! a [`Branch`].
use super::branch::Branch;
use super::bureau::FiveElementBureau;
use super::palace_name::PalaceName;
use super::position::{branch_from_yin0, spec_branch_from_yin0, twelve_index};
use super::star::StarName;
use super::stem::Stem;
use vstd::arithmetic::div_mod::lemma_fundamental_div_mod;
use vstd::prelude::*;

verus! {

/// 命宫: starting from 寅 for the first month, count forward to the birth month and
/// then backward by the hour.
pub open spec fn spec_ming_palace_branch(month: int, hour: int) -> Branch {
    spec_branch_from_yin0(month - hour)
}

/// 身宫: starting from 寅 for the first month, count forward to the birth month and
/// then forward by the hour.
pub open spec fn spec_shen_palace_branch(month: int, hour: int) -> Branch {
    spec_branch_from_yin0(month + hour)
}

/// Palace stem by the five-tiger rule (五虎遁): the 寅 palace takes the head stem of the
/// birth stem and the stems continue forward around the ring.
pub open spec fn spec_palace_stem(birth_stem: Stem, branch: Branch) -> Stem {
    Stem::at(birth_stem.spec_yin_head_stem().idx() + branch.yin0())
}

/// Name of the palace at `branch` when 命宫 stands at `ming`; the names run backward
/// around the ring from 命宫.
pub open spec fn spec_palace_name(ming: Branch, branch: Branch) -> PalaceName {
    PalaceName::at(ming.idx() - branch.idx())
}

/// Five-element bureau of the chart: the 纳音 bureau of the stem and branch of 命宫.
pub open spec fn spec_bureau(birth_stem: Stem, ming: Branch) -> FiveElementBureau {
    FiveElementBureau::spec_from_ming_palace(spec_palace_stem(birth_stem, ming), ming)
}

/// Position of 紫微 on the 寅 ring for a lunar day and a bureau number: divide the day by
/// the bureau number rounding up; a shortfall of zero stays, an odd shortfall moves
/// back and an even one moves forward.
pub open spec fn spec_zi_wei_yin0(day: int, bureau_number: int) -> int {
    let q = (day + bureau_number - 1) / bureau_number;
    let shortfall = q * bureau_number - day;
    let signed = if shortfall == 0 {
        0
    } else if shortfall % 2 == 1 {
        -shortfall
    } else {
        shortfall
    };
    (q - 1 + signed) % 12
}

/// Position of 天府 on the 寅 ring: the mirror of 紫微 about the 寅–申 axis.
pub open spec fn spec_tian_fu_yin0(zi_wei_yin0: int) -> int {
    (-zi_wei_yin0) % 12
}

/// Position on the 寅 ring of one of the fourteen major stars: the 紫微 series counts
/// backward from 紫微, the 天府 series forward from 天府.
pub open spec fn spec_major_star_yin0(star: StarName, zi_wei_yin0: int) -> int {
    let z = zi_wei_yin0;
    let t = spec_tian_fu_yin0(zi_wei_yin0);
    match star {
        StarName::ZiWei => z - 0,
        StarName::TianJi => z - 1,
        StarName::TaiYang => z - 3,
        StarName::WuQu => z - 4,
        StarName::TianTong => z - 5,
        StarName::LianZhen => z - 8,
        StarName::TianFu => t + 0,
        StarName::TaiYin => t + 1,
        StarName::TanLang => t + 2,
        StarName::JuMen => t + 3,
        StarName::TianXiang => t + 4,
        StarName::TianLiang => t + 5,
        StarName::QiSha => t + 6,
        StarName::PoJun => t + 10,
        _ => 0,
    }
}

/// Position on the 寅 ring of one of the four minor stars: 左辅 counts forward from 辰
/// by month, 右弼 backward from 戌 by month, 文昌 backward from 戌 by hour and 文曲
/// forward from 辰 by hour.
pub open spec fn spec_minor_star_yin0(star: StarName, month: int, hour: int) -> int {
    match star {
        StarName::ZuoFu => 2 + month,
        StarName::YouBi => 8 - month,
        StarName::WenChang => 8 - hour,
        _ => 2 + hour,
    }
}

/// Whether a star is one of the four minor stars placed by month and hour.
pub open spec fn spec_is_minor_star(star: StarName) -> bool {
    star.idx() >= 14
}

/// Branch of a star for the given day, bureau number, month and hour.
pub open spec fn spec_star_branch(star: StarName, day: int, bureau_number: int, month: int, hour: int) -> Branch {
    if spec_is_minor_star(star) {
        spec_branch_from_yin0(spec_minor_star_yin0(star, month, hour))
    } else {
        spec_branch_from_yin0(spec_major_star_yin0(star, spec_zi_wei_yin0(day, bureau_number)))
    }
}

/// A palace before its stars and edges are attached: name, branch and stem.
#[derive(Debug, Clone, Copy, PartialEq, Eq, Structural)]
pub struct PalacePlacement {
    /// Name of the palace.
    pub name: PalaceName,
    /// Branch of the palace.
    pub branch: Branch,
    /// Stem of the palace.
    pub stem: Stem,
}

impl PalacePlacement {
    /// Name of the palace.
    pub fn name(self) -> (r: PalaceName)
        ensures
            r == self.name,
    {
        self.name
    }

    /// Branch of the palace.
    pub fn branch(self) -> (r: Branch)
        ensures
            r == self.branch,
    {
        self.branch
    }

    /// Stem of the palace.
    pub fn stem(self) -> (r: Stem)
        ensures
            r == self.stem,
    {
        self.stem
    }
}

/// 命宫 and 身宫 branches together.
#[derive(Debug, Clone, Copy, PartialEq, Eq, Structural)]
pub struct MingShenBranches {
    /// Branch of 命宫.
    pub ming_palace: Branch,
    /// Branch of 身宫.
    pub shen_palace: Branch,
}

/// Branches of the four minor stars.
#[derive(Debug, Clone, Copy, PartialEq, Eq, Structural)]
pub struct MinorStarBranches {
    /// 左辅.
    pub zuo_fu: Branch,
    /// 右弼.
    pub you_bi: Branch,
    /// 文昌.
    pub wen_chang: Branch,
    /// 文曲.
    pub wen_qu: Branch,
}

/// Branch of 命宫: 寅 is the first month, count forward by month and backward by hour.
pub fn compute_ming_palace_branch(month: u8, hour: u8) -> (r: Branch)
    ensures
        r == spec_ming_palace_branch(month as int, hour as int),
{
    branch_from_yin0(twelve_index(month as i32 - hour as i32))
}

/// Branch of 身宫: 寅 is the first month, count forward by month and forward by hour.
pub fn compute_shen_palace_branch(month: u8, hour: u8) -> (r: Branch)
    ensures
        r == spec_shen_palace_branch(month as int, hour as int),
{
    branch_from_yin0(twelve_index(month as i32 + hour as i32))
}

/// Branches of 命宫 and 身宫 at once.
pub fn compute_ming_shen_branches(month: u8, hour: u8) -> (r: MingShenBranches)
    ensures
        r.ming_palace == spec_ming_palace_branch(month as int, hour as int),
        r.shen_palace == spec_shen_palace_branch(month as int, hour as int),
{
    MingShenBranches {
        ming_palace: compute_ming_palace_branch(month, hour),
        shen_palace: compute_shen_palace_branch(month, hour),
    }
}

/// The twelve palace stems by the five-tiger rule (五虎遁), indexed by branch (子 = 0).
#[verifier::rlimit(30)]
pub fn compute_palace_stems(birth_stem: Stem) -> (r: [Stem; 12])
    ensures
        forall|i: int| 0 <= i < 12 ==> #[trigger] r@[i] == spec_palace_stem(birth_stem, Branch::at(i)),
{
    let head = birth_stem.yin_head_stem().index() as u8;
    let mut stems = [Stem::Jia; 12];
    let mut i: usize = 0;
    while i < 12
        invariant
            0 <= i <= 12,
            head == birth_stem.spec_yin_head_stem().idx(),
            forall|k: int| 0 <= k < i ==> #[trigger] stems@[k] == spec_palace_stem(birth_stem, Branch::at(k)),
        decreases 12 - i,
    {
        let yin0 = (i as u8 + 10) % 12;
        assert(Branch::at(i as int).yin0() == yin0);
        stems[i] = Stem::from_index(head + yin0);
        i = i + 1;
    }
    stems
}

/// Bureau of the chart from the stem and branch of 命宫.
pub fn bureau_from_ming_palace(ming_palace_branch: Branch, palace_stems_by_branch: &[Stem; 12]) -> (r: FiveElementBureau)
    ensures
        r == FiveElementBureau::spec_from_ming_palace(palace_stems_by_branch@[ming_palace_branch.idx()], ming_palace_branch),
{
    FiveElementBureau::from_ming_palace(palace_stems_by_branch[ming_palace_branch.index()], ming_palace_branch)
}

/// Names, branches and stems of the twelve palaces, indexed by branch (子 = 0).
#[verifier::rlimit(30)]
pub fn compute_palace_placements(ming_palace_branch: Branch, palace_stems_by_branch: &[Stem; 12]) -> (r: [PalacePlacement; 12])
    ensures
        forall|i: int| 0 <= i < 12 ==> (#[trigger] r@[i]) == (PalacePlacement {
            name: spec_palace_name(ming_palace_branch, Branch::at(i)),
            branch: Branch::at(i),
            stem: palace_stems_by_branch@[i],
        }),
{
    let placeholder = PalacePlacement { name: PalaceName::Ming, branch: Branch::Zi, stem: Stem::Jia };
    let mut placements = [placeholder; 12];
    let ming = ming_palace_branch.index();
    let mut i: usize = 0;
    while i < 12
        invariant
            0 <= i <= 12,
            ming == ming_palace_branch.idx(),
            forall|k: int| 0 <= k < i ==> (#[trigger] placements@[k]) == (PalacePlacement {
                name: spec_palace_name(ming_palace_branch, Branch::at(k)),
                branch: Branch::at(k),
                stem: palace_stems_by_branch@[k],
            }),
        decreases 12 - i,
    {
        proof {
            assert((ming + 12 - i) % 12 == (ming - i) % 12) by {
                vstd::arithmetic::div_mod::lemma_mod_add_multiples_vanish(ming - i, 12);
            }
            crate::branch::lemma_branch_index(Branch::at(i as int), i as int);
            crate::palace_name::lemma_palace_name_index(PalaceName::Ming, PalaceName::Ming, ming - i);
            crate::palace_name::lemma_palace_name_index(PalaceName::Ming, PalaceName::Ming, (ming + 12 - i) % 12);
            assert(PalaceName::at(((ming + 12 - i) % 12) as int) == spec_palace_name(ming_palace_branch, Branch::at(i as int)));
        }
        placements[i] = PalacePlacement {
            name: PalaceName::from_index((ming + 12 - i) % 12),
            branch: Branch::from_index(i as u8),
            stem: palace_stems_by_branch[i],
        };
        i = i + 1;
    }
    placements
}

/// Name of the palace at a branch.
pub fn palace_name_at(branch: Branch, placements_by_branch: &[PalacePlacement; 12]) -> (r: PalaceName)
    ensures
        r == placements_by_branch@[branch.idx()].name,
{
    placements_by_branch[branch.index()].name
}

/// Position of 紫微 on the 寅 ring for a lunar day and a bureau number (起紫微).
pub fn compute_zi_wei_yin0(day: u8, bureau_number: u8) -> (r: u8)
    requires
        2 <= bureau_number <= 6,
    ensures
        r == spec_zi_wei_yin0(day as int, bureau_number as int),
        r < 12,
{
    let n = bureau_number as i32;
    let d = day as i32;
    let q = (d + n - 1) / n;
    proof {
        let ni = n as int;
        let di = d as int;
        let x = di + ni - 1;
        lemma_fundamental_div_mod(x, ni);
        let qi = x / ni;
        let ri = x % ni;
        assert(0 <= qi <= 130 && ni * qi <= x && x < ni * qi + ni && qi * ni == ni * qi) by (nonlinear_arith)
            requires
                x == ni * qi + ri,
                0 <= ri < ni,
                0 <= di <= 255,
                2 <= ni <= 6,
                x == di + ni - 1,
        ;
        assert(q as int == qi);
    }
    let shortfall = q * n - d;
    let signed = if shortfall == 0 {
        0
    } else if shortfall % 2 == 1 {
        -shortfall
    } else {
        shortfall
    };
    twelve_index(q - 1 + signed)
}

/// Branches of the fourteen major stars from the 寅-ring position of 紫微: the 紫微
/// series backward from 紫微, the 天府 series forward from its mirror; the four minor
/// slots hold 子.
pub fn compute_major_branches_from_zi_wei_yin0(zi_wei_yin0: u8) -> (r: [Branch; 18])
    requires
        zi_wei_yin0 < 12,
    ensures
        forall|i: int| 0 <= i < 14 ==> #[trigger] r@[i] == spec_branch_from_yin0(
            spec_major_star_yin0(StarName::at(i), zi_wei_yin0 as int),
        ),
        forall|i: int| 14 <= i < 18 ==> #[trigger] r@[i] == Branch::Zi,
{
    let catalogue = StarName::all();
    let mut branches = [Branch::Zi; 18];
    let mut i: usize = 0;
    while i < 14
        invariant
            0 <= i <= 14,
            zi_wei_yin0 < 12,
            forall|k: int| 0 <= k < 18 ==> #[trigger] catalogue@[k] == StarName::at(k),
            forall|k: int| 0 <= k < i ==> #[trigger] branches@[k] == spec_branch_from_yin0(
                spec_major_star_yin0(StarName::at(k), zi_wei_yin0 as int),
            ),
            forall|k: int| 14 <= k < 18 ==> #[trigger] branches@[k] == Branch::Zi,
        decreases 14 - i,
    {
        branches[i] = major_star_branch(catalogue[i], zi_wei_yin0);
        i = i + 1;
    }
    branches
}

/// Branches of the fourteen major stars, indexed by catalogue position; the four minor
/// slots hold 子 until the minor stars are merged in.
pub fn compute_major_star_branches(day: u8, bureau_number: u8) -> (r: [Branch; 18])
    requires
        2 <= bureau_number <= 6,
    ensures
        forall|i: int| 0 <= i < 14 ==> #[trigger] r@[i] == spec_branch_from_yin0(
            spec_major_star_yin0(StarName::at(i), spec_zi_wei_yin0(day as int, bureau_number as int)),
        ),
        forall|i: int| 14 <= i < 18 ==> #[trigger] r@[i] == Branch::Zi,
{
    let z = compute_zi_wei_yin0(day, bureau_number);
    compute_major_branches_from_zi_wei_yin0(z)
}

/// Branch of one of the fourteen major stars from the 寅-ring position of 紫微.
pub fn major_star_branch(star: StarName, zi_wei_yin0: u8) -> (r: Branch)
    requires
        zi_wei_yin0 < 12,
    ensures
        r == spec_branch_from_yin0(spec_major_star_yin0(star, zi_wei_yin0 as int)),
{
    let z = zi_wei_yin0 as i32;
    let t = twelve_index(-z) as i32;
    let yin0 = match star {
        StarName::ZiWei => twelve_index(z - 0),
        StarName::TianJi => twelve_index(z - 1),
        StarName::TaiYang => twelve_index(z - 3),
        StarName::WuQu => twelve_index(z - 4),
        StarName::TianTong => twelve_index(z - 5),
        StarName::LianZhen => twelve_index(z - 8),
        StarName::TianFu => twelve_index(t + 0),
        StarName::TaiYin => twelve_index(t + 1),
        StarName::TanLang => twelve_index(t + 2),
        StarName::JuMen => twelve_index(t + 3),
        StarName::TianXiang => twelve_index(t + 4),
        StarName::TianLiang => twelve_index(t + 5),
        StarName::QiSha => twelve_index(t + 6),
        StarName::PoJun => twelve_index(t + 10),
        _ => 0,
    };
    proof {
        crate::position::lemma_yin0_round_trip(Branch::Zi, spec_major_star_yin0(star, zi_wei_yin0 as int));
    }
    branch_from_yin0(yin0)
}

/// Branches of the four minor stars: 左辅 and 右弼 by month, 文昌 and 文曲 by hour.
pub fn compute_minor_star_branches(month: u8, hour: u8) -> (r: MinorStarBranches)
    ensures
        r.zuo_fu == spec_branch_from_yin0(2 + month as int),
        r.you_bi == spec_branch_from_yin0(8 - month as int),
        r.wen_chang == spec_branch_from_yin0(8 - hour as int),
        r.wen_qu == spec_branch_from_yin0(2 + hour as int),
{
    let zuo_fu = branch_from_yin0(twelve_index(2 + month as i32));
    let you_bi = branch_from_yin0(twelve_index(8 - month as i32));
    let wen_chang = branch_from_yin0(twelve_index(8 - hour as i32));
    let wen_qu = branch_from_yin0(twelve_index(2 + hour as i32));
    proof {
        crate::position::lemma_yin0_round_trip(Branch::Zi, 2 + month as int);
        crate::position::lemma_yin0_round_trip(Branch::Zi, 8 - month as int);
        crate::position::lemma_yin0_round_trip(Branch::Zi, 8 - hour as int);
        crate::position::lemma_yin0_round_trip(Branch::Zi, 2 + hour as int);
    }
    MinorStarBranches { zuo_fu, you_bi, wen_chang, wen_qu }
}

/// Writes the four minor stars into the eighteen-slot branch table.
pub fn merge_star_branches(branches_by_star: [Branch; 18], minor_star_branches: MinorStarBranches) -> (r: [Branch; 18])
    ensures
        forall|i: int| 0 <= i < 14 ==> #[trigger] r@[i] == branches_by_star@[i],
        r@[14] == minor_star_branches.zuo_fu,
        r@[15] == minor_star_branches.you_bi,
        r@[16] == minor_star_branches.wen_chang,
        r@[17] == minor_star_branches.wen_qu,
{
    let mut branches = branches_by_star;
    branches[14] = minor_star_branches.zuo_fu;
    branches[15] = minor_star_branches.you_bi;
    branches[16] = minor_star_branches.wen_chang;
    branches[17] = minor_star_branches.wen_qu;
    branches
}

/// Branches of all eighteen stars, indexed by catalogue position (安星).
///
/// `day` is the lunar day `1..=30`, `month` and `hour` are `0..=11`.
pub fn compute_star_branches(day: u8, bureau: FiveElementBureau, month: u8, hour: u8) -> (r: [Branch; 18])
    requires
        1 <= day <= 30,
        month < 12,
        hour < 12,
    ensures
        forall|i: int| 0 <= i < 18 ==> #[trigger] r@[i] == spec_star_branch(
            StarName::at(i), day as int, bureau.spec_number(), month as int, hour as int,
        ),
{
    let majors = compute_major_star_branches(day, bureau.number());
    let minors = compute_minor_star_branches(month, hour);
    let r = merge_star_branches(majors, minors);
    assert forall|i: int| 0 <= i < 18 implies #[trigger] r@[i] == spec_star_branch(
        StarName::at(i), day as int, bureau.spec_number(), month as int, hour as int,
    ) by {
        if i < 14 {
            assert(r@[i] == majors@[i]);
        }
    }
    r
}

/// Row of a bureau in the table of 紫微 positions: 水二 = 0 … 火六 = 4.
pub fn bureau_index(bureau: FiveElementBureau) -> (r: usize)
    ensures
        r == bureau.spec_number() - 2,
{
    match bureau {
        FiveElementBureau::WaterTwo => 0,
        FiveElementBureau::WoodThree => 1,
        FiveElementBureau::MetalFour => 2,
        FiveElementBureau::EarthFive => 3,
        FiveElementBureau::FireSix => 4,
    }
}

/// The 寅-ring position of 紫微 for every bureau (rows 水二 … 火六) and every lunar day
/// (columns 初一 … 三十).
pub fn build_zi_wei_yin0_by_bureau_day() -> (r: [[u8; 30]; 5])
    ensures
        forall|b: int, d: int| 0 <= b < 5 && 0 <= d < 30 ==> #[trigger] r@[b]@[d] == spec_zi_wei_yin0(d + 1, b + 2),
{
    let mut table = [[0u8; 30]; 5];
    let mut b: usize = 0;
    while b < 5
        invariant
            0 <= b <= 5,
            forall|k: int, d: int| 0 <= k < b && 0 <= d < 30 ==> #[trigger] table@[k]@[d] == spec_zi_wei_yin0(d + 1, k + 2),
        decreases 5 - b,
    {
        let mut row = [0u8; 30];
        let mut d: usize = 0;
        while d < 30
            invariant
                0 <= b < 5,
                0 <= d <= 30,
                forall|j: int| 0 <= j < d ==> #[trigger] row@[j] == spec_zi_wei_yin0(j + 1, b + 2),
            decreases 30 - d,
        {
            row[d] = compute_zi_wei_yin0(d as u8 + 1, b as u8 + 2);
            d = d + 1;
        }
        table[b] = row;
        b = b + 1;
    }
    table
}

/// The branches of the fourteen major stars for every 寅-ring position of 紫微.
pub fn build_major_branches_by_zi_wei_yin0() -> (r: [[Branch; 18]; 12])
    ensures
        forall|z: int, i: int| 0 <= z < 12 && 0 <= i < 14 ==> #[trigger] r@[z]@[i] == spec_branch_from_yin0(
            spec_major_star_yin0(StarName::at(i), z),
        ),
        forall|z: int, i: int| 0 <= z < 12 && 14 <= i < 18 ==> #[trigger] r@[z]@[i] == Branch::Zi,
{
    let mut table = [[Branch::Zi; 18]; 12];
    let mut z: usize = 0;
    while z < 12
        invariant
            0 <= z <= 12,
            forall|k: int, i: int| 0 <= k < z && 0 <= i < 14 ==> #[trigger] table@[k]@[i] == spec_branch_from_yin0(
                spec_major_star_yin0(StarName::at(i), k),
            ),
            forall|k: int, i: int| 0 <= k < z && 14 <= i < 18 ==> #[trigger] table@[k]@[i] == Branch::Zi,
        decreases 12 - z,
    {
        table[z] = compute_major_branches_from_zi_wei_yin0(z as u8);
        z = z + 1;
    }
    table
}

/// 左辅 and 右弼 for every month: 左辅 forward from 辰, 右弼 backward from 戌.
pub fn build_zuo_you_by_month() -> (r: [[Branch; 2]; 12])
    ensures
        forall|m: int| 0 <= m < 12 ==> (#[trigger] r@[m])@[0] == spec_branch_from_yin0(2 + m)
            && r@[m]@[1] == spec_branch_from_yin0(8 - m),
{
    let mut table = [[Branch::Zi; 2]; 12];
    let mut m: u8 = 0;
    while m < 12
        invariant
            0 <= m <= 12,
            forall|k: int| 0 <= k < m ==> (#[trigger] table@[k])@[0] == spec_branch_from_yin0(2 + k)
                && table@[k]@[1] == spec_branch_from_yin0(8 - k),
        decreases 12 - m,
    {
        let minors = compute_minor_star_branches(m, 0);
        table[m as usize] = [minors.zuo_fu, minors.you_bi];
        m = m + 1;
    }
    table
}

/// 文昌 and 文曲 for every hour: 文昌 backward from 戌, 文曲 forward from 辰.
pub fn build_chang_qu_by_hour() -> (r: [[Branch; 2]; 12])
    ensures
        forall|h: int| 0 <= h < 12 ==> (#[trigger] r@[h])@[0] == spec_branch_from_yin0(8 - h)
            && r@[h]@[1] == spec_branch_from_yin0(2 + h),
{
    let mut table = [[Branch::Zi; 2]; 12];
    let mut h: u8 = 0;
    while h < 12
        invariant
            0 <= h <= 12,
            forall|k: int| 0 <= k < h ==> (#[trigger] table@[k])@[0] == spec_branch_from_yin0(8 - k)
                && table@[k]@[1] == spec_branch_from_yin0(2 + k),
        decreases 12 - h,
    {
        let minors = compute_minor_star_branches(0, h);
        table[h as usize] = [minors.wen_chang, minors.wen_qu];
        h = h + 1;
    }
    table
}

} // verus!
