//! Ten-year and yearly duties, their indices, and the ages and years of a period.
use crate::bureau::FiveElementBureau;
use crate::error::ZiweiError;
use crate::palace_name::PalaceName;
use vstd::prelude::*;

verus! {

/// A duty read in a ten-year period, such as 大命.
#[derive(Debug, Clone, Copy, PartialEq, Eq, Hash, Structural)]
pub struct Decade {
    name: PalaceName,
}

impl Decade {
    /// Palace name held.
    pub closed spec fn spec_name(self) -> PalaceName {
        self.name
    }

    /// The ten-year duty of a palace name.
    pub fn new(name: PalaceName) -> (r: Decade)
        ensures
            r.spec_name() == name,
    {
        Decade { name }
    }

    /// The palace name of the duty.
    pub fn name(self) -> (r: PalaceName)
        ensures
            r == self.spec_name(),
    {
        self.name
    }

    /// Simplified Chinese short name, such as 大命.
    pub fn name_hans(self) -> (r: &'static str)
        ensures
            r@ == self.spec_name().spec_decade_hans(),
    {
        self.name.simplified_chinese().decade
    }

    /// Traditional Chinese short name, such as 大財.
    pub fn name_hant(self) -> (r: &'static str)
        ensures
            r@ == self.spec_name().spec_decade_hant(),
    {
        self.name.traditional_chinese().decade
    }
}

/// A duty read in one year, such as 流命.
#[derive(Debug, Clone, Copy, PartialEq, Eq, Hash, Structural)]
pub struct Yearly {
    name: PalaceName,
}

impl Yearly {
    /// Palace name held.
    pub closed spec fn spec_name(self) -> PalaceName {
        self.name
    }

    /// The yearly duty of a palace name.
    pub fn new(name: PalaceName) -> (r: Yearly)
        ensures
            r.spec_name() == name,
    {
        Yearly { name }
    }

    /// The palace name of the duty.
    pub fn name(self) -> (r: PalaceName)
        ensures
            r == self.spec_name(),
    {
        self.name
    }

    /// Simplified Chinese short name, such as 流命.
    pub fn name_hans(self) -> (r: &'static str)
        ensures
            r@ == self.spec_name().spec_yearly_hans(),
    {
        self.name.simplified_chinese().yearly
    }

    /// Traditional Chinese short name, such as 流財.
    pub fn name_hant(self) -> (r: &'static str)
        ensures
            r@ == self.spec_name().spec_yearly_hant(),
    {
        self.name.traditional_chinese().yearly
    }
}

/// Index of one of the twelve ten-year periods, `0..=11`.
#[derive(Debug, Clone, Copy, PartialEq, Eq, Hash, Structural)]
pub struct DecadeIndex(u8);

impl DecadeIndex {
    /// Value held.
    pub closed spec fn spec_get(self) -> u8 {
        self.0
    }

    /// Accepts `0..=11` and rejects any other value.
    pub fn try_from(value: u8) -> (r: Result<DecadeIndex, ZiweiError>)
        ensures
            r is Ok <==> value <= 11,
            r matches Ok(i) ==> i.spec_get() == value,
            r matches Err(e) ==> e == (ZiweiError::InvalidDecadeIndex { value }),
    {
        if value <= 11 {
            Ok(DecadeIndex(value))
        } else {
            Err(ZiweiError::InvalidDecadeIndex { value })
        }
    }

    /// The zero-based index.
    pub fn get(self) -> (r: u8)
        ensures
            r == self.spec_get(),
    {
        self.0
    }
}

/// Index of one of the ten years of a period, `0..=9`.
#[derive(Debug, Clone, Copy, PartialEq, Eq, Hash, Structural)]
pub struct YearlyIndex(u8);

impl YearlyIndex {
    /// Value held.
    pub closed spec fn spec_get(self) -> u8 {
        self.0
    }

    /// Accepts `0..=9` and rejects any other value.
    pub fn try_from(value: u8) -> (r: Result<YearlyIndex, ZiweiError>)
        ensures
            r is Ok <==> value <= 9,
            r matches Ok(i) ==> i.spec_get() == value,
            r matches Err(e) ==> e == (ZiweiError::InvalidYearlyIndex { value }),
    {
        if value <= 9 {
            Ok(YearlyIndex(value))
        } else {
            Err(ZiweiError::InvalidYearlyIndex { value })
        }
    }

    /// The zero-based index.
    pub fn get(self) -> (r: u8)
        ensures
            r == self.spec_get(),
    {
        self.0
    }
}

/// The ages (虚岁) that a palace covers as a ten-year period.
#[derive(Debug, Clone, Copy, PartialEq, Eq, Hash, Structural)]
pub struct DecadeAge {
    start: u8,
    end: u8,
}

impl DecadeAge {
    /// First age held.
    pub closed spec fn spec_start(self) -> u8 {
        self.start
    }

    /// Last age held.
    pub closed spec fn spec_end(self) -> u8 {
        self.end
    }

    /// The ages of the period at `position` (`0..=11`): it starts at the bureau number
    /// plus ten per position and spans ten ages.
    pub fn new(bureau: FiveElementBureau, position: u8) -> (r: DecadeAge)
        requires
            position <= 11,
        ensures
            r.spec_start() == bureau.spec_number() + 10 * position,
            r.spec_end() == bureau.spec_number() + 10 * position + 9,
    {
        let start: u8 = bureau.number() + 10 * position;
        DecadeAge { start, end: start + 9 }
    }

    /// First age of the period.
    pub fn start(self) -> (r: u8)
        ensures
            r == self.spec_start(),
    {
        self.start
    }

    /// Last age of the period.
    pub fn end(self) -> (r: u8)
        ensures
            r == self.spec_end(),
    {
        self.end
    }
}

/// One year of a period: the age and, when known, the lunar year.
#[derive(Debug, Clone, Copy, PartialEq, Eq, Hash, Structural)]
pub struct DecadeYear {
    age: u8,
    year: Option<i32>,
}

impl DecadeYear {
    /// Age held.
    pub closed spec fn spec_age(self) -> u8 {
        self.age
    }

    /// Year held.
    pub closed spec fn spec_year(self) -> Option<i32> {
        self.year
    }

    /// A year of a period.
    pub fn new(age: u8, year: Option<i32>) -> (r: DecadeYear)
        ensures
            r.spec_age() == age,
            r.spec_year() == year,
    {
        DecadeYear { age, year }
    }

    /// The age (虚岁).
    pub fn age(&self) -> (r: u8)
        ensures
            r == self.spec_age(),
    {
        self.age
    }

    /// The lunar year, when known.
    pub fn year(&self) -> (r: Option<i32>)
        ensures
            r == self.spec_year(),
    {
        self.year
    }
}

} // verus!
