//! The twelve ten-year periods (大限) of a natal chart, with their years and ages.
use super::branch::Branch;
use super::input::Gender;
use super::stem::Stem;
use vstd::prelude::*;

verus! {

/// Direction in which the periods advance around the ring.
#[derive(Debug, Clone, Copy, PartialEq, Eq, Hash, Structural)]
pub enum DecadeDirection {
    /// Forward (顺行).
    Forward,
    /// Reverse (逆行).
    Reverse,
}

impl DecadeDirection {
    /// Forward when the yin-yang of the birth stem agrees with the gender, else reverse.
    pub open spec fn spec_from_birth_facts(gender: Gender, birth_stem: Stem) -> DecadeDirection {
        if birth_stem.spec_is_yang() == gender.spec_is_yang() {
            DecadeDirection::Forward
        } else {
            DecadeDirection::Reverse
        }
    }

    /// Direction of the periods: forward for a yang stem with a yang gender or a yin stem
    /// with a yin gender, reverse otherwise.
    pub fn from_birth_facts(gender: Gender, birth_stem: Stem) -> (r: DecadeDirection)
        ensures
            r == DecadeDirection::spec_from_birth_facts(gender, birth_stem),
    {
        if birth_stem.is_yang() == gender.is_yang() {
            DecadeDirection::Forward
        } else {
            DecadeDirection::Reverse
        }
    }
}

/// Zero-based index of one of the twelve periods (`0..=11`).
#[derive(Debug, Clone, Copy, PartialEq, Eq, PartialOrd, Ord, Hash, Structural)]
pub struct DecadeIndex(u8);

/// A period index outside `0..=11`.
#[derive(Debug, Clone, Copy, PartialEq, Eq, Structural)]
pub struct DecadeIndexError {
    value: u8,
}

impl DecadeIndex {
    /// Index of the first period.
    pub fn first() -> (r: DecadeIndex)
        ensures
            r.spec_get() == 0,
            r.wf(),
    {
        DecadeIndex(0)
    }

    /// Index value held.
    pub closed spec fn spec_get(self) -> u8 {
        self.0
    }

    /// Every index that exists is within `0..=11`.
    #[verifier::type_invariant]
    pub closed spec fn wf(self) -> bool {
        self.0 <= 11
    }

    /// Builds a valid period index.
    pub fn try_new(value: u8) -> (r: Result<DecadeIndex, DecadeIndexError>)
        ensures
            r is Ok <==> value <= 11,
            r matches Ok(i) ==> i.spec_get() == value && i.wf(),
            r matches Err(e) ==> e.spec_value() == value,
    {
        if value <= 11 {
            Ok(DecadeIndex(value))
        } else {
            Err(DecadeIndexError { value })
        }
    }

    /// Conversion from a raw value; the same as [`DecadeIndex::try_new`].
    pub fn try_from(value: u8) -> (r: Result<DecadeIndex, DecadeIndexError>)
        ensures
            r is Ok <==> value <= 11,
            r matches Ok(i) ==> i.spec_get() == value && i.wf(),
            r matches Err(e) ==> e.spec_value() == value,
    {
        DecadeIndex::try_new(value)
    }

    /// The zero-based index.
    pub fn get(self) -> (r: u8)
        ensures
            r == self.spec_get(),
            r <= 11,
    {
        proof {
            use_type_invariant(self);
        }
        self.0
    }
}

impl DecadeIndexError {
    /// Human-readable description: the accepted range and the rejected value.
    pub fn message(self) -> (r: String)
        ensures
            r@ == "大限序号须为 0..=11，实际为 "@ + crate::text::spec_decimal(self.spec_value() as nat) + ""@,
    {
        crate::text::decimal_between("大限序号须为 0..=11，实际为 ", self.value as u32, "")
    }

    /// Rejected value held.
    pub closed spec fn spec_value(self) -> u8 {
        self.value
    }

    /// The rejected raw value.
    pub fn value(self) -> (r: u8)
        ensures
            r == self.spec_value(),
    {
        self.value
    }
}

/// One year of a period: the normalized lunar year, when known, and the age (虚岁).
#[derive(Debug, Clone, Copy, PartialEq, Eq, Structural)]
pub struct DecadeYear {
    year: Option<i32>,
    age: u8,
}

impl DecadeYear {
    /// Lunar year held.
    pub closed spec fn spec_year(self) -> Option<i32> {
        self.year
    }

    /// Age held.
    pub closed spec fn spec_age(self) -> u8 {
        self.age
    }

    /// Assembles a period year.
    pub fn new(year: Option<i32>, age: u8) -> (r: DecadeYear)
        ensures
            r.spec_year() == year,
            r.spec_age() == age,
    {
        DecadeYear { year, age }
    }

    /// Normalized lunar year; `None` when the chart was built without one.
    pub fn year(self) -> (r: Option<i32>)
        ensures
            r == self.spec_year(),
    {
        self.year
    }

    /// Age (虚岁).
    pub fn age(self) -> (r: u8)
        ensures
            r == self.spec_age(),
    {
        self.age
    }
}

/// One ten-year period: its index, the branch of its 命宫 and its ten years.
#[derive(Debug, Clone, Copy, PartialEq, Eq)]
pub struct Decade {
    index: DecadeIndex,
    ming_palace_branch: Branch,
    years: [DecadeYear; 10],
}

impl Decade {
    /// Index held.
    pub closed spec fn spec_index(self) -> DecadeIndex {
        self.index
    }

    /// Branch of the period 命宫 held.
    pub closed spec fn spec_ming_palace_branch(self) -> Branch {
        self.ming_palace_branch
    }

    /// Years held.
    pub closed spec fn spec_years(self) -> [DecadeYear; 10] {
        self.years
    }

    /// Assembles a period.
    pub fn new(index: DecadeIndex, ming_palace_branch: Branch, years: [DecadeYear; 10]) -> (r: Decade)
        ensures
            r.spec_index() == index,
            r.spec_ming_palace_branch() == ming_palace_branch,
            r.spec_years() == years,
    {
        Decade { index, ming_palace_branch, years }
    }

    /// Zero-based index of the period.
    pub fn index(self) -> (r: DecadeIndex)
        ensures
            r == self.spec_index(),
    {
        self.index
    }

    /// Branch of the 命宫 of the period.
    pub fn ming_palace_branch(self) -> (r: Branch)
        ensures
            r == self.spec_ming_palace_branch(),
    {
        self.ming_palace_branch
    }

    /// The ten years of the period.
    pub fn years(&self) -> (r: &[DecadeYear; 10])
        ensures
            *r == self.spec_years(),
    {
        &self.years
    }

    /// First age of the period.
    pub fn age_start(&self) -> (r: u8)
        ensures
            r == self.spec_years()@[0].spec_age(),
    {
        self.years[0].age()
    }

    /// Last age of the period.
    pub fn age_end(&self) -> (r: u8)
        ensures
            r == self.spec_years()@[9].spec_age(),
    {
        self.years[9].age()
    }
}

/// Branch of the 命宫 of period `i`: the natal 命宫 moved `i` steps in the direction.
pub open spec fn spec_decade_ming_branch(ming: Branch, direction: DecadeDirection, i: int) -> Branch {
    match direction {
        DecadeDirection::Forward => Branch::at(ming.idx() + i),
        DecadeDirection::Reverse => Branch::at(ming.idx() - i),
    }
}

/// Age of year `j` of period `i`: the first period starts at the bureau number and each
/// period spans ten ages.
pub open spec fn spec_decade_age(bureau_number: int, i: int, j: int) -> int {
    bureau_number + 10 * i + j
}

/// Lunar year of a given age: `birth_year + age - 1`, when the birth year is known.
pub open spec fn spec_age_year(year: Option<i32>, age: int) -> Option<i32> {
    match year {
        Some(y) => Some((y + age - 1) as i32),
        None => None,
    }
}

/// Whether `d` is period `i` of a chart with the given direction, birth year, 命宫 and
/// bureau number.
pub open spec fn spec_decade_is(
    d: Decade,
    direction: DecadeDirection,
    year: Option<i32>,
    ming: Branch,
    bureau_number: int,
    i: int,
) -> bool {
    &&& d.spec_index().spec_get() == i
    &&& d.spec_index().wf()
    &&& d.spec_ming_palace_branch() == spec_decade_ming_branch(ming, direction, i)
    &&& forall|j: int| 0 <= j < 10 ==> (#[trigger] d.spec_years()@[j]).spec_age() == spec_decade_age(bureau_number, i, j)
        && d.spec_years()@[j].spec_year() == spec_age_year(year, spec_decade_age(bureau_number, i, j))
}

/// Branch of the 命宫 of period `i`.
fn decade_ming_branch(ming_palace_branch: Branch, direction: DecadeDirection, i: u8) -> (r: Branch)
    requires
        i < 12,
    ensures
        r == spec_decade_ming_branch(ming_palace_branch, direction, i as int),
{
    let ming = ming_palace_branch.index() as u8;
    match direction {
        DecadeDirection::Forward => {
            proof {
                crate::branch::lemma_branch_index(Branch::Zi, ming + i);
            }
            Branch::from_index((ming + i) % 12)
        },
        DecadeDirection::Reverse => {
            proof {
                vstd::arithmetic::div_mod::lemma_mod_add_multiples_vanish(ming - i, 12);
                crate::branch::lemma_branch_index(Branch::Zi, ming - i);
            }
            Branch::from_index((ming + 12 - i) % 12)
        },
    }
}

/// Builds period `i` of a chart.
fn build_decade(
    direction: DecadeDirection,
    year: Option<i32>,
    ming_palace_branch: Branch,
    bureau_number: u8,
    i: u8,
) -> (r: Decade)
    requires
        2 <= bureau_number <= 6,
        i < 12,
        year matches Some(y) ==> y <= i32::MAX - (bureau_number + 118),
    ensures
        spec_decade_is(r, direction, year, ming_palace_branch, bureau_number as int, i as int),
{
    let branch = decade_ming_branch(ming_palace_branch, direction, i);
    let age_start: u8 = bureau_number + 10 * i;
    let mut years = [DecadeYear { year: None, age: 0 }; 10];
    let mut j: u8 = 0;
    while j < 10
        invariant
            0 <= j <= 10,
            age_start == bureau_number + 10 * i,
            age_start <= 116,
            2 <= bureau_number <= 6,
            i < 12,
            year matches Some(y) ==> y <= i32::MAX - (bureau_number + 118),
            forall|m: int| 0 <= m < j ==> (#[trigger] years@[m]).spec_age() == spec_decade_age(bureau_number as int, i as int, m)
                && years@[m].spec_year() == spec_age_year(year, spec_decade_age(bureau_number as int, i as int, m)),
        decreases 10 - j,
    {
        let age: u8 = age_start + j;
        let lunar_year = match year {
            Some(birth_year) => {
                assert(birth_year <= i32::MAX - (bureau_number + 118));
                assert(age <= bureau_number + 119 && age >= 2);
                Some(birth_year + (age as i32 - 1))
            },
            None => None,
        };
        years[j as usize] = DecadeYear { year: lunar_year, age };
        j = j + 1;
    }
    Decade { index: DecadeIndex(i), ming_palace_branch: branch, years }
}

/// Builds the direction and the twelve periods of a chart.
///
/// `bureau_number` is 2 to 6; a known birth year is at most
/// `i32::MAX - (bureau_number + 118)`, so that the year of the last age,
/// `bureau_number + 119`, fits.
pub fn build_decades(
    gender: Gender,
    birth_stem: Stem,
    year: Option<i32>,
    ming_palace_branch: Branch,
    bureau_number: u8,
) -> (r: (DecadeDirection, [Decade; 12]))
    requires
        2 <= bureau_number <= 6,
        year matches Some(y) ==> y <= i32::MAX - (bureau_number + 118),
    ensures
        r.0 == DecadeDirection::spec_from_birth_facts(gender, birth_stem),
        forall|i: int| 0 <= i < 12 ==> spec_decade_is(#[trigger] r.1@[i], r.0, year, ming_palace_branch, bureau_number as int, i),
{
    let direction = DecadeDirection::from_birth_facts(gender, birth_stem);
    let placeholder = Decade { index: DecadeIndex(0), ming_palace_branch: Branch::Zi, years: [DecadeYear { year: None, age: 0 }; 10] };
    let mut decades = [placeholder; 12];
    let mut i: u8 = 0;
    while i < 12
        invariant
            0 <= i <= 12,
            2 <= bureau_number <= 6,
            year matches Some(y) ==> y <= i32::MAX - (bureau_number + 118),
            direction == DecadeDirection::spec_from_birth_facts(gender, birth_stem),
            forall|k: int| 0 <= k < i ==> spec_decade_is(#[trigger] decades@[k], direction, year, ming_palace_branch, bureau_number as int, k),
        decreases 12 - i,
    {
        decades[i as usize] = build_decade(direction, year, ming_palace_branch, bureau_number, i);
        i = i + 1;
    }
    (direction, decades)
}

/// Two indices with the same value are the same index.
pub proof fn lemma_decade_index_ext(a: DecadeIndex, b: DecadeIndex)
    requires
        a.spec_get() == b.spec_get(),
    ensures
        a == b,
{
}

} // verus!
