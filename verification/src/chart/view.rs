//! Views of the chart (本命, 大限, 流年) and the values that queries under a view return.
use crate::branch::Branch;
use crate::star::StarName;
use crate::stem::Stem;
use crate::transformation::Transformation;
use vstd::prelude::*;

verus! {

/// A light view under which the fixed chart is read: natal, the `step`-th ten-year
/// step, or the year with a given lunar year number.
///
/// A view only relabels the duties and adds the layer transformations; it never
/// changes the natal chart.
#[derive(Debug, Clone, Copy, PartialEq, Eq, Structural)]
pub enum ZiweiView {
    /// Natal duties, no overlay.
    Natal,
    /// The ten-year step with index `step` (0 is the first step).
    Decade {
        /// Step index; only `0..=11` names a step.
        step: u8,
    },
    /// The year with lunar year number `year`; its 命 stands at the year branch (太岁).
    Annual {
        /// Lunar year number.
        year: i32,
    },
}

/// One ten-year step (大限).
#[derive(Debug, Clone, Copy, PartialEq, Eq, Structural)]
pub struct DecadeStep {
    /// Step index, 0 for the first step.
    pub step: u8,
    /// Branch of the 命 of the step.
    pub ming_branch: Branch,
    /// First virtual age of the step (inclusive); the first step starts at the bureau number.
    pub age_start: u8,
    /// Last virtual age of the step (inclusive), `age_start + 9`.
    pub age_end: u8,
    /// Natal stem of the palace at `ming_branch`, the stem of the step.
    pub stem: Stem,
}

/// One layer transformation: the transformation, the transformed star and the natal
/// branch of that star.
#[derive(Debug, Clone, Copy, PartialEq, Eq, Structural)]
pub struct LayerTransformation {
    /// The transformation.
    pub transformation: Transformation,
    /// The transformed star.
    pub star: StarName,
    /// Natal branch of the star.
    pub branch: Branch,
}

/// One year of a ten-year step: `lunar_year = birth_year + virtual_age - 1`.
#[derive(Debug, Clone, Copy, PartialEq, Eq, Structural)]
pub struct DecadeYear {
    /// Lunar year number.
    pub lunar_year: i32,
    /// Virtual age (虚岁).
    pub virtual_age: u8,
}

/// Why the lunar years of a step could not be given.
#[derive(Debug, Clone, Copy, PartialEq, Eq, Structural)]
pub enum DecadeYearsError {
    /// The chart was built from a year pillar only and has no real lunar birth year.
    BirthYearUnavailable,
    /// At least one year does not fit in `i32`.
    LunarYearOutOfRange,
}

impl DecadeYearsError {
    /// Human-readable description of the error.
    pub fn message(self) -> (r: &'static str)
        ensures
            r@ == match self {
                DecadeYearsError::BirthYearUnavailable => "真实农历出生年不可用；请使用 Ziwei::from_birth 构造命盘"@,
                DecadeYearsError::LunarYearOutOfRange => "大限流年超出 i32 可表示范围"@,
            },
    {
        match self {
            DecadeYearsError::BirthYearUnavailable => "真实农历出生年不可用；请使用 Ziwei::from_birth 构造命盘",
            DecadeYearsError::LunarYearOutOfRange => "大限流年超出 i32 可表示范围",
        }
    }
}

/// Birth date after the calendar layer normalized it.
#[derive(Debug, Clone, Copy, PartialEq, Eq, Structural)]
pub struct NormalizedDate {
    /// Year.
    pub year: i32,
    /// Month.
    pub month: u8,
    /// Day.
    pub day: u8,
    /// Hour, kept as `0..=23` for now.
    pub hour: u8,
}

/// The layer transformation `t` of a stem, with the star's branch taken from `star_branches`.
pub open spec fn spec_layer_transformation(stem: Stem, star_branches: Seq<Branch>, t: Transformation) -> LayerTransformation {
    let star = stem.spec_transformation_star(t);
    LayerTransformation { transformation: t, star, branch: star_branches[star.idx()] }
}

/// The four layer transformations of a stem, in the order 禄, 权, 科, 忌.
pub fn stem_layer_transformations(stem: Stem, star_branches: &[Branch; 18]) -> (r: [LayerTransformation; 4])
    ensures
        forall|t: int| 0 <= t < 4 ==> #[trigger] r@[t] == spec_layer_transformation(stem, star_branches@, Transformation::at(t)),
{
    let all = Transformation::all();
    let placeholder = LayerTransformation { transformation: Transformation::A, star: StarName::ZiWei, branch: Branch::Zi };
    let mut layer = [placeholder; 4];
    let mut k: usize = 0;
    while k < 4
        invariant
            0 <= k <= 4,
            forall|j: int| 0 <= j < 4 ==> #[trigger] all@[j] == Transformation::at(j),
            forall|j: int| 0 <= j < k ==> #[trigger] layer@[j] == spec_layer_transformation(stem, star_branches@, Transformation::at(j)),
        decreases 4 - k,
    {
        let transformation = all[k];
        let star = stem.transformation_star(transformation);
        layer[k] = LayerTransformation { transformation, star, branch: star_branches[star.index()] };
        k = k + 1;
    }
    layer
}

} // verus!
