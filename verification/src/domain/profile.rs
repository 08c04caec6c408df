//! Normalized birth profile: lunar year, gender, year pillar, month, hour and day.
use crate::branch::Branch;
use crate::error::ZiweiError;
use crate::stem::Stem;
use vstd::prelude::*;

verus! {

/// Gender of the native.
#[derive(Debug, Clone, Copy, PartialEq, Eq, Hash, Structural)]
pub enum Gender {
    /// Male.
    Male,
    /// Female.
    Female,
}

/// Lunar birth month, `1..=12`.
#[derive(Debug, Clone, Copy, PartialEq, Eq, Hash, Structural)]
pub struct BirthMonth(u8);

impl BirthMonth {
    /// Value held.
    pub closed spec fn spec_get(self) -> u8 {
        self.0
    }

    /// Accepts `1..=12` and rejects any other value.
    pub fn try_from(value: u8) -> (r: Result<BirthMonth, ZiweiError>)
        ensures
            r is Ok <==> 1 <= value <= 12,
            r matches Ok(m) ==> m.spec_get() == value,
            r matches Err(e) ==> e == (ZiweiError::InvalidLunisolarMonth { value }),
    {
        if 1 <= value && value <= 12 {
            Ok(BirthMonth(value))
        } else {
            Err(ZiweiError::InvalidLunisolarMonth { value })
        }
    }

    /// The month, 正月 = 1.
    pub fn get(self) -> (r: u8)
        ensures
            r == self.spec_get(),
    {
        self.0
    }
}

/// Lunar birth day, `1..=30`.
#[derive(Debug, Clone, Copy, PartialEq, Eq, Hash, Structural)]
pub struct BirthDay(u8);

impl BirthDay {
    /// Value held.
    pub closed spec fn spec_get(self) -> u8 {
        self.0
    }

    /// Accepts `1..=30` and rejects any other value.
    pub fn try_from(value: u8) -> (r: Result<BirthDay, ZiweiError>)
        ensures
            r is Ok <==> 1 <= value <= 30,
            r matches Ok(d) ==> d.spec_get() == value,
            r matches Err(e) ==> e == (ZiweiError::InvalidLunisolarDay { value }),
    {
        if 1 <= value && value <= 30 {
            Ok(BirthDay(value))
        } else {
            Err(ZiweiError::InvalidLunisolarDay { value })
        }
    }

    /// The day, 初一 = 1.
    pub fn get(self) -> (r: u8)
        ensures
            r == self.spec_get(),
    {
        self.0
    }
}

/// The normalized birth profile of a chart.
#[derive(Debug, Clone, Copy, PartialEq, Eq, Structural)]
pub struct Profile {
    lunar_year: Option<i32>,
    gender: Gender,
    year_stem: Stem,
    year_branch: Branch,
    birth_month: BirthMonth,
    birth_hour: Branch,
    birth_day: Option<BirthDay>,
}

impl Profile {
    /// Lunar year held.
    pub closed spec fn spec_lunar_year(self) -> Option<i32> {
        self.lunar_year
    }

    /// Gender held.
    pub closed spec fn spec_gender(self) -> Gender {
        self.gender
    }

    /// Year stem held.
    pub closed spec fn spec_year_stem(self) -> Stem {
        self.year_stem
    }

    /// Year branch held.
    pub closed spec fn spec_year_branch(self) -> Branch {
        self.year_branch
    }

    /// Month held.
    pub closed spec fn spec_birth_month(self) -> BirthMonth {
        self.birth_month
    }

    /// Hour branch held.
    pub closed spec fn spec_birth_hour(self) -> Branch {
        self.birth_hour
    }

    /// Day held.
    pub closed spec fn spec_birth_day(self) -> Option<BirthDay> {
        self.birth_day
    }

    /// A profile from its parts.
    pub fn new(
        lunar_year: Option<i32>,
        gender: Gender,
        year_stem: Stem,
        year_branch: Branch,
        birth_month: BirthMonth,
        birth_hour: Branch,
        birth_day: Option<BirthDay>,
    ) -> (r: Profile)
        ensures
            r.spec_lunar_year() == lunar_year,
            r.spec_gender() == gender,
            r.spec_year_stem() == year_stem,
            r.spec_year_branch() == year_branch,
            r.spec_birth_month() == birth_month,
            r.spec_birth_hour() == birth_hour,
            r.spec_birth_day() == birth_day,
    {
        Profile { lunar_year, gender, year_stem, year_branch, birth_month, birth_hour, birth_day }
    }

    /// Lunar year, when known.
    pub fn lunar_year(self) -> (r: Option<i32>)
        ensures
            r == self.spec_lunar_year(),
    {
        self.lunar_year
    }

    /// Gender.
    pub fn gender(self) -> (r: Gender)
        ensures
            r == self.spec_gender(),
    {
        self.gender
    }

    /// Year stem.
    pub fn year_stem(self) -> (r: Stem)
        ensures
            r == self.spec_year_stem(),
    {
        self.year_stem
    }

    /// Year branch.
    pub fn year_branch(self) -> (r: Branch)
        ensures
            r == self.spec_year_branch(),
    {
        self.year_branch
    }

    /// Lunar month.
    pub fn birth_month(self) -> (r: BirthMonth)
        ensures
            r == self.spec_birth_month(),
    {
        self.birth_month
    }

    /// Hour branch.
    pub fn birth_hour(self) -> (r: Branch)
        ensures
            r == self.spec_birth_hour(),
    {
        self.birth_hour
    }

    /// Lunar day, when known.
    pub fn birth_day(self) -> (r: Option<BirthDay>)
        ensures
            r == self.spec_birth_day(),
    {
        self.birth_day
    }
}

} // verus!
