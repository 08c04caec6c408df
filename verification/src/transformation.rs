//! The four transformations (四化): 禄, 权, 科, 忌.
use vstd::prelude::*;

verus! {

/// One of the four transformations; `A`, `B`, `C`, `D` read as 禄, 权, 科, 忌.
#[derive(Debug, Clone, Copy, PartialEq, Eq, Hash, Structural)]
pub enum Transformation {
    /// 禄.
    A,
    /// 权.
    B,
    /// 科.
    C,
    /// 忌.
    D,
}

impl Transformation {
    /// 禄, the same value as [`Transformation::A`].
    pub const LU: Transformation = Transformation::A;

    /// 权, the same value as [`Transformation::B`].
    pub const QUAN: Transformation = Transformation::B;

    /// 科, the same value as [`Transformation::C`].
    pub const KE: Transformation = Transformation::C;

    /// 忌, the same value as [`Transformation::D`].
    pub const JI: Transformation = Transformation::D;

    /// The four transformations in table order 禄, 权, 科, 忌.
    pub const ALL: [Transformation; 4] = [
        Transformation::A,
        Transformation::B,
        Transformation::C,
        Transformation::D,
    ];

    /// Table position: 禄 = 0 … 忌 = 3.
    pub open spec fn idx(self) -> int {
        match self {
            Transformation::A => 0,
            Transformation::B => 1,
            Transformation::C => 2,
            Transformation::D => 3,
        }
    }

    /// Transformation at table position `i` (0 ≤ i < 4).
    pub open spec fn at(i: int) -> Transformation {
        if i == 0 {
            Transformation::A
        } else if i == 1 {
            Transformation::B
        } else if i == 2 {
            Transformation::C
        } else {
            Transformation::D
        }
    }

    /// Table position: 禄 = 0 … 忌 = 3.
    pub fn index(self) -> (r: usize)
        ensures
            r == self.idx(),
            r < 4,
    {
        match self {
            Transformation::A => 0,
            Transformation::B => 1,
            Transformation::C => 2,
            Transformation::D => 3,
        }
    }

    /// The four transformations in table order, as an array value.
    pub fn all() -> (r: [Transformation; 4])
        ensures
            forall|i: int| 0 <= i < 4 ==> #[trigger] r@[i] == Transformation::at(i),
    {
        [Transformation::A, Transformation::B, Transformation::C, Transformation::D]
    }

    /// Simplified Chinese label: 禄, 权, 科 or 忌.
    pub fn simplified_chinese(self) -> (r: &'static str)
        ensures
            r@ == match self {
                Transformation::A => "禄"@,
                Transformation::B => "权"@,
                Transformation::C => "科"@,
                Transformation::D => "忌"@,
            },
    {
        match self {
            Transformation::A => "禄",
            Transformation::B => "权",
            Transformation::C => "科",
            Transformation::D => "忌",
        }
    }

    /// Traditional Chinese label: 祿, 權, 科 or 忌.
    pub fn traditional_chinese(self) -> (r: &'static str)
        ensures
            r@ == match self {
                Transformation::A => "祿"@,
                Transformation::B => "權"@,
                Transformation::C => "科"@,
                Transformation::D => "忌"@,
            },
    {
        match self {
            Transformation::A => "祿",
            Transformation::B => "權",
            Transformation::C => "科",
            Transformation::D => "忌",
        }
    }
}

} // verus!
