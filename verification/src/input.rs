//! Validated birth data: the lunar birth record and the raw chart input.
//!
//! - [`ZiweiBirth`] keeps the normalized lunar year; the year pillar follows from it.
//! - [`ZiweiInput`] carries the year pillar (干支) directly and no lunar year.
//! Calendar conversion, leap months and the late 子 hour are settled before either
//! value is built.
use super::branch::Branch;
use super::stem::Stem;
use vstd::arithmetic::div_mod::lemma_mod_multiples_vanish;
use super::text::{push_decimal, push_signed_decimal, spec_decimal, spec_signed_decimal};
use vstd::prelude::*;

verus! {

/// Sex of the native, read as yin (female) or yang (male).
#[derive(Debug, Clone, Copy, PartialEq, Eq, Hash, Structural)]
pub enum Gender {
    /// 阴 (female).
    Yin,
    /// 阳 (male).
    Yang,
}

impl Gender {
    /// Whether the gender is yang.
    pub open spec fn spec_is_yang(self) -> bool {
        self == Gender::Yang
    }

    /// Whether the gender is yang (male).
    pub fn is_yang(self) -> (r: bool)
        ensures
            r == self.spec_is_yang(),
    {
        match self {
            Gender::Yang => true,
            Gender::Yin => false,
        }
    }
}

/// A validation error of birth data.
#[allow(inconsistent_fields)]
#[derive(Debug, Clone, Copy, PartialEq, Eq, Structural)]
pub enum ZiweiInputError {
    /// The lunar month is not within `0..=11`.
    MonthOutOfRange {
        /// The rejected value.
        value: u8,
    },
    /// The lunar day is not within `1..=30`.
    DayOutOfRange {
        /// The rejected value.
        value: u8,
    },
    /// The hour (时辰) is not within `0..=11`.
    HourOutOfRange {
        /// The rejected value.
        value: u8,
    },
    /// The year stem and branch do not form a sexagenary pair.
    InvalidYearPillar {
        /// Year stem.
        stem: Stem,
        /// Year branch.
        branch: Branch,
    },
    /// The lunar year is so large that the years of the twelfth decade would not fit in `i32`.
    YearOutOfRange {
        /// The rejected value.
        value: i32,
    },
}

impl ZiweiInputError {
    /// Human-readable description of the error with the rejected values.
    pub fn message(self) -> (r: String)
        ensures
            r@ == match self {
                ZiweiInputError::MonthOutOfRange { value } => "month must be within 0..=11, got "@ + spec_decimal(value as nat),
                ZiweiInputError::DayOutOfRange { value } => "day must be within 1..=30, got "@ + spec_decimal(value as nat),
                ZiweiInputError::HourOutOfRange { value } => "hour must be within 0..=11, got "@ + spec_decimal(value as nat),
                ZiweiInputError::InvalidYearPillar { stem, branch } =>
                    "year stem and branch do not form a sexagenary pair (stem index "@ + spec_decimal(stem.idx() as nat)
                        + ", branch index "@ + spec_decimal(branch.idx() as nat) + ")"@,
                ZiweiInputError::YearOutOfRange { value } =>
                    "lunar year must be at most 2147483523 so that every decade year fits, got "@ + spec_signed_decimal(value as int),
            },
    {
        let mut s = String::new();
        proof {
            assert(Seq::<char>::empty() + "x"@ == "x"@);
        }
        match self {
            ZiweiInputError::MonthOutOfRange { value } => {
                s.append("month must be within 0..=11, got ");
                push_decimal(&mut s, value as u32);
            },
            ZiweiInputError::DayOutOfRange { value } => {
                s.append("day must be within 1..=30, got ");
                push_decimal(&mut s, value as u32);
            },
            ZiweiInputError::HourOutOfRange { value } => {
                s.append("hour must be within 0..=11, got ");
                push_decimal(&mut s, value as u32);
            },
            ZiweiInputError::InvalidYearPillar { stem, branch } => {
                s.append("year stem and branch do not form a sexagenary pair (stem index ");
                push_decimal(&mut s, stem.index() as u32);
                s.append(", branch index ");
                push_decimal(&mut s, branch.index() as u32);
                s.append(")");
            },
            ZiweiInputError::YearOutOfRange { value } => {
                s.append("lunar year must be at most 2147483523 so that every decade year fits, got ");
                push_signed_decimal(&mut s, value);
            },
        }
        s
    }
}

/// Largest lunar year whose twelve decades (ages up to 125) stay within `i32`.
pub open spec fn spec_max_birth_year() -> int {
    i32::MAX - 124
}

/// The first error of month, day and hour, checked in that order.
pub open spec fn spec_month_day_hour_error(month: u8, day: u8, hour: u8) -> Option<ZiweiInputError> {
    if month > 11 {
        Some(ZiweiInputError::MonthOutOfRange { value: month })
    } else if day < 1 || day > 30 {
        Some(ZiweiInputError::DayOutOfRange { value: day })
    } else if hour > 11 {
        Some(ZiweiInputError::HourOutOfRange { value: hour })
    } else {
        None
    }
}

/// The error that a birth record is rejected with, if any.
pub open spec fn spec_birth_error(year: i32, month: u8, day: u8, hour: u8) -> Option<ZiweiInputError> {
    if spec_month_day_hour_error(month, day, hour) is Some {
        spec_month_day_hour_error(month, day, hour)
    } else if year > spec_max_birth_year() {
        Some(ZiweiInputError::YearOutOfRange { value: year })
    } else {
        None
    }
}

/// A stem and a branch form one of the sixty sexagenary pairs exactly when their
/// positions have the same parity.
pub open spec fn spec_is_sexagenary(stem: Stem, branch: Branch) -> bool {
    stem.idx() % 2 == branch.idx() % 2
}

/// The error that a raw chart input is rejected with, if any.
pub open spec fn spec_input_error(stem: Stem, branch: Branch, month: u8, day: u8, hour: u8) -> Option<ZiweiInputError> {
    if spec_month_day_hour_error(month, day, hour) is Some {
        spec_month_day_hour_error(month, day, hour)
    } else if !spec_is_sexagenary(stem, branch) {
        Some(ZiweiInputError::InvalidYearPillar { stem, branch })
    } else {
        None
    }
}

/// Year stem of a lunar year: `(year - 4) mod 10`, so that year 4 is 甲.
pub open spec fn spec_stem_from_year(year: int) -> Stem {
    Stem::at(year - 4)
}

/// Year branch of a lunar year: `(year - 4) mod 12`, so that year 4 is 子.
pub open spec fn spec_branch_from_year(year: int) -> Branch {
    Branch::at(year - 4)
}

/// Checks month `0..=11`, day `1..=30` and hour `0..=11`, in that order.
pub fn validate_month_day_hour(month: u8, day: u8, hour: u8) -> (r: Result<(), ZiweiInputError>)
    ensures
        r is Ok <==> spec_month_day_hour_error(month, day, hour) is None,
        r matches Err(e) ==> spec_month_day_hour_error(month, day, hour) == Some(e),
        r is Ok <==> month <= 11 && 1 <= day <= 30 && hour <= 11,
        month > 11 ==> r == Err::<(), ZiweiInputError>(ZiweiInputError::MonthOutOfRange { value: month }),
        month <= 11 && (day < 1 || day > 30) ==> r == Err::<(), ZiweiInputError>(ZiweiInputError::DayOutOfRange { value: day }),
        month <= 11 && 1 <= day <= 30 && hour > 11 ==> r == Err::<(), ZiweiInputError>(ZiweiInputError::HourOutOfRange { value: hour }),
{
    if month > 11 {
        return Err(ZiweiInputError::MonthOutOfRange { value: month });
    }
    if day < 1 || day > 30 {
        return Err(ZiweiInputError::DayOutOfRange { value: day });
    }
    if hour > 11 {
        return Err(ZiweiInputError::HourOutOfRange { value: hour });
    }
    Ok(())
}

/// Checks that the year stem and branch form a sexagenary pair (same parity).
pub fn validate_year_pillar(stem: Stem, branch: Branch) -> (r: Result<(), ZiweiInputError>)
    ensures
        r is Ok <==> spec_is_sexagenary(stem, branch),
        r matches Err(e) ==> e == (ZiweiInputError::InvalidYearPillar { stem, branch }),
{
    if stem.index() % 2 == branch.index() % 2 {
        Ok(())
    } else {
        Err(ZiweiInputError::InvalidYearPillar { stem, branch })
    }
}

/// `(year - 4) mod modulus` for a modulus of ten or twelve, without overflow at the
/// ends of the `i32` range.
fn year_cycle_index(year: i32, modulus: u8) -> (r: u8)
    requires
        modulus == 10 || modulus == 12,
    ensures
        r == (year - 4) % (modulus as int),
        r < modulus,
{
    // 60 · 35791395 = 2147483700 is a multiple of both moduli larger than 2^31 + 4.
    let shifted: i64 = year as i64 - 4 + 2147483700i64;
    proof {
        if modulus == 10 {
            lemma_mod_multiples_vanish(214748370, year - 4, 10);
        } else {
            lemma_mod_multiples_vanish(178956975, year - 4, 12);
        }
    }
    ((shifted as u64) % (modulus as u64)) as u8
}

/// Year stem of a lunar year, `(year - 4) mod 10` (year 4 is 甲子).
pub fn stem_from_year(year: i32) -> (r: Stem)
    ensures
        r == spec_stem_from_year(year as int),
{
    Stem::from_index(year_cycle_index(year, 10))
}

/// Year branch of a lunar year, `(year - 4) mod 12` (year 4 is 甲子).
pub fn branch_from_year(year: i32) -> (r: Branch)
    ensures
        r == spec_branch_from_year(year as int),
{
    Branch::from_index(year_cycle_index(year, 12))
}

/// Lunar birth record: gender, normalized lunar year, month (正月 = 0),
/// day (初一 = 1) and hour (子时 = 0).
#[derive(Debug, Clone, Copy, PartialEq, Eq, Structural)]
pub struct ZiweiBirth {
    gender: Gender,
    year: i32,
    month: u8,
    day: u8,
    hour: u8,
}

impl ZiweiBirth {
    /// Gender held in the record.
    pub closed spec fn spec_gender(self) -> Gender {
        self.gender
    }

    /// Lunar year held in the record.
    pub closed spec fn spec_year(self) -> i32 {
        self.year
    }

    /// Lunar month held in the record.
    pub closed spec fn spec_month(self) -> u8 {
        self.month
    }

    /// Lunar day held in the record.
    pub closed spec fn spec_day(self) -> u8 {
        self.day
    }

    /// Hour held in the record.
    pub closed spec fn spec_hour(self) -> u8 {
        self.hour
    }

    /// Every record that exists passed validation.
    #[verifier::type_invariant]
    pub closed spec fn wf(self) -> bool {
        spec_birth_error(self.year, self.month, self.day, self.hour) is None
    }

    /// Builds a validated birth record.
    ///
    /// Month, day and hour are checked first, in that order; then the year must leave
    /// room for the years of all twelve decades (`year <= i32::MAX - 124`).
    pub fn try_new(gender: Gender, year: i32, month: u8, day: u8, hour: u8) -> (r: Result<Self, ZiweiInputError>)
        ensures
            r is Ok <==> spec_birth_error(year, month, day, hour) is None,
            r matches Err(e) ==> spec_birth_error(year, month, day, hour) == Some(e),
            r is Ok <==> month <= 11 && 1 <= day <= 30 && hour <= 11 && year <= 2147483523,
            r matches Ok(b) ==> b.wf() && b.spec_gender() == gender && b.spec_year() == year
                && b.spec_month() == month && b.spec_day() == day && b.spec_hour() == hour,
    {
        validate_month_day_hour(month, day, hour)?;
        if year > i32::MAX - 124 {
            return Err(ZiweiInputError::YearOutOfRange { value: year });
        }
        Ok(ZiweiBirth { gender, year, month, day, hour })
    }

    /// The validity facts of a record: month, day and hour in range and a year that
    /// leaves room for twelve decades.
    pub proof fn lemma_wf(self)
        requires
            self.wf(),
        ensures
            self.spec_month() < 12,
            1 <= self.spec_day() <= 30,
            self.spec_hour() < 12,
            self.spec_year() <= spec_max_birth_year(),
    {
    }

    /// Gender of the native.
    pub fn gender(self) -> (r: Gender)
        ensures
            r == self.spec_gender(),
    {
        self.gender
    }

    /// Normalized lunar year.
    pub fn year(self) -> (r: i32)
        ensures
            r == self.spec_year(),
    {
        self.year
    }

    /// Lunar month, 正月 = 0.
    pub fn month(self) -> (r: u8)
        ensures
            r == self.spec_month(),
    {
        self.month
    }

    /// Lunar day, 初一 = 1.
    pub fn day(self) -> (r: u8)
        ensures
            r == self.spec_day(),
    {
        self.day
    }

    /// Hour (时辰), 子时 = 0.
    pub fn hour(self) -> (r: u8)
        ensures
            r == self.spec_hour(),
    {
        self.hour
    }
}

/// Raw chart input: gender, year stem and branch, month (正月 = 0), day (初一 = 1)
/// and hour (子时 = 0); no chart result can be injected through it.
#[derive(Debug, Clone, Copy, PartialEq, Eq, Structural)]
pub struct ZiweiInput {
    gender: Gender,
    birth_stem: Stem,
    birth_branch: Branch,
    month: u8,
    day: u8,
    hour: u8,
}

impl ZiweiInput {
    /// Gender held in the input.
    pub closed spec fn spec_gender(self) -> Gender {
        self.gender
    }

    /// Year stem held in the input.
    pub closed spec fn spec_birth_stem(self) -> Stem {
        self.birth_stem
    }

    /// Year branch held in the input.
    pub closed spec fn spec_birth_branch(self) -> Branch {
        self.birth_branch
    }

    /// Lunar month held in the input.
    pub closed spec fn spec_month(self) -> u8 {
        self.month
    }

    /// Lunar day held in the input.
    pub closed spec fn spec_day(self) -> u8 {
        self.day
    }

    /// Hour held in the input.
    pub closed spec fn spec_hour(self) -> u8 {
        self.hour
    }

    /// Every input that exists passed validation.
    #[verifier::type_invariant]
    pub closed spec fn wf(self) -> bool {
        spec_input_error(self.birth_stem, self.birth_branch, self.month, self.day, self.hour) is None
    }

    /// The validity facts of an input.
    pub proof fn lemma_wf(self)
        requires
            self.wf(),
        ensures
            self.spec_month() < 12,
            1 <= self.spec_day() <= 30,
            self.spec_hour() < 12,
            spec_is_sexagenary(self.spec_birth_stem(), self.spec_birth_branch()),
    {
    }

    /// Builds a validated raw input.
    ///
    /// Month, day and hour are checked first, then the year pillar.
    pub fn try_new(
        gender: Gender,
        birth_stem: Stem,
        birth_branch: Branch,
        month: u8,
        day: u8,
        hour: u8,
    ) -> (r: Result<Self, ZiweiInputError>)
        ensures
            r is Ok <==> spec_input_error(birth_stem, birth_branch, month, day, hour) is None,
            r is Ok <==> month <= 11 && 1 <= day <= 30 && hour <= 11
                && (birth_stem.idx() + birth_branch.idx()) % 2 == 0,
            r matches Err(e) ==> spec_input_error(birth_stem, birth_branch, month, day, hour) == Some(e),
            r matches Ok(i) ==> i.wf() && i.spec_gender() == gender && i.spec_birth_stem() == birth_stem
                && i.spec_birth_branch() == birth_branch && i.spec_month() == month
                && i.spec_day() == day && i.spec_hour() == hour,
    {
        validate_month_day_hour(month, day, hour)?;
        validate_year_pillar(birth_stem, birth_branch)?;
        Ok(ZiweiInput { gender, birth_stem, birth_branch, month, day, hour })
    }

    /// The raw input of a birth record: the year pillar follows from the lunar year.
    pub fn from_birth(birth: ZiweiBirth) -> (r: ZiweiInput)
        ensures
            r.wf(),
            r.spec_gender() == birth.spec_gender(),
            r.spec_birth_stem() == spec_stem_from_year(birth.spec_year() as int),
            r.spec_birth_branch() == spec_branch_from_year(birth.spec_year() as int),
            r.spec_month() == birth.spec_month(),
            r.spec_day() == birth.spec_day(),
            r.spec_hour() == birth.spec_hour(),
    {
        proof {
            use_type_invariant(&birth);
        }
        let stem = stem_from_year(birth.year());
        let branch = branch_from_year(birth.year());
        proof {
            // (year - 4) mod 10 and (year - 4) mod 12 have the parity of year - 4.
            lemma_year_pillar_parity(birth.spec_year() as int);
        }
        ZiweiInput {
            gender: birth.gender(),
            birth_stem: stem,
            birth_branch: branch,
            month: birth.month(),
            day: birth.day(),
            hour: birth.hour(),
        }
    }

    /// Gender of the native.
    pub fn gender(self) -> (r: Gender)
        ensures
            r == self.spec_gender(),
    {
        self.gender
    }

    /// Year stem.
    pub fn birth_stem(self) -> (r: Stem)
        ensures
            r == self.spec_birth_stem(),
    {
        self.birth_stem
    }

    /// Year branch.
    pub fn birth_branch(self) -> (r: Branch)
        ensures
            r == self.spec_birth_branch(),
    {
        self.birth_branch
    }

    /// Lunar month, 正月 = 0.
    pub fn month(self) -> (r: u8)
        ensures
            r == self.spec_month(),
    {
        self.month
    }

    /// Lunar day, 初一 = 1.
    pub fn day(self) -> (r: u8)
        ensures
            r == self.spec_day(),
    {
        self.day
    }

    /// Hour (时辰), 子时 = 0.
    pub fn hour(self) -> (r: u8)
        ensures
            r == self.spec_hour(),
    {
        self.hour
    }
}

/// A sexagenary stem position `s` and branch position `b` are met by some position of
/// the sixty-year cycle (Chinese remainder theorem, checked pair by pair).
proof fn lemma_cycle_witness(s: int, b: int)
    requires
        0 <= s < 10,
        0 <= b < 12,
        s % 2 == b % 2,
    ensures
        exists|n: int| 0 <= n < 60 && #[trigger] cycle_position_matches(n, s, b),
{
    if s == 0 && b == 0 {
        assert(cycle_position_matches(0, 0, 0));
    } else if s == 1 && b == 1 {
        assert(cycle_position_matches(1, 1, 1));
    } else if s == 2 && b == 2 {
        assert(cycle_position_matches(2, 2, 2));
    } else if s == 3 && b == 3 {
        assert(cycle_position_matches(3, 3, 3));
    } else if s == 4 && b == 4 {
        assert(cycle_position_matches(4, 4, 4));
    } else if s == 5 && b == 5 {
        assert(cycle_position_matches(5, 5, 5));
    } else if s == 6 && b == 6 {
        assert(cycle_position_matches(6, 6, 6));
    } else if s == 7 && b == 7 {
        assert(cycle_position_matches(7, 7, 7));
    } else if s == 8 && b == 8 {
        assert(cycle_position_matches(8, 8, 8));
    } else if s == 9 && b == 9 {
        assert(cycle_position_matches(9, 9, 9));
    } else if s == 0 && b == 10 {
        assert(cycle_position_matches(10, 0, 10));
    } else if s == 1 && b == 11 {
        assert(cycle_position_matches(11, 1, 11));
    } else if s == 2 && b == 0 {
        assert(cycle_position_matches(12, 2, 0));
    } else if s == 3 && b == 1 {
        assert(cycle_position_matches(13, 3, 1));
    } else if s == 4 && b == 2 {
        assert(cycle_position_matches(14, 4, 2));
    } else if s == 5 && b == 3 {
        assert(cycle_position_matches(15, 5, 3));
    } else if s == 6 && b == 4 {
        assert(cycle_position_matches(16, 6, 4));
    } else if s == 7 && b == 5 {
        assert(cycle_position_matches(17, 7, 5));
    } else if s == 8 && b == 6 {
        assert(cycle_position_matches(18, 8, 6));
    } else if s == 9 && b == 7 {
        assert(cycle_position_matches(19, 9, 7));
    } else if s == 0 && b == 8 {
        assert(cycle_position_matches(20, 0, 8));
    } else if s == 1 && b == 9 {
        assert(cycle_position_matches(21, 1, 9));
    } else if s == 2 && b == 10 {
        assert(cycle_position_matches(22, 2, 10));
    } else if s == 3 && b == 11 {
        assert(cycle_position_matches(23, 3, 11));
    } else if s == 4 && b == 0 {
        assert(cycle_position_matches(24, 4, 0));
    } else if s == 5 && b == 1 {
        assert(cycle_position_matches(25, 5, 1));
    } else if s == 6 && b == 2 {
        assert(cycle_position_matches(26, 6, 2));
    } else if s == 7 && b == 3 {
        assert(cycle_position_matches(27, 7, 3));
    } else if s == 8 && b == 4 {
        assert(cycle_position_matches(28, 8, 4));
    } else if s == 9 && b == 5 {
        assert(cycle_position_matches(29, 9, 5));
    } else if s == 0 && b == 6 {
        assert(cycle_position_matches(30, 0, 6));
    } else if s == 1 && b == 7 {
        assert(cycle_position_matches(31, 1, 7));
    } else if s == 2 && b == 8 {
        assert(cycle_position_matches(32, 2, 8));
    } else if s == 3 && b == 9 {
        assert(cycle_position_matches(33, 3, 9));
    } else if s == 4 && b == 10 {
        assert(cycle_position_matches(34, 4, 10));
    } else if s == 5 && b == 11 {
        assert(cycle_position_matches(35, 5, 11));
    } else if s == 6 && b == 0 {
        assert(cycle_position_matches(36, 6, 0));
    } else if s == 7 && b == 1 {
        assert(cycle_position_matches(37, 7, 1));
    } else if s == 8 && b == 2 {
        assert(cycle_position_matches(38, 8, 2));
    } else if s == 9 && b == 3 {
        assert(cycle_position_matches(39, 9, 3));
    } else if s == 0 && b == 4 {
        assert(cycle_position_matches(40, 0, 4));
    } else if s == 1 && b == 5 {
        assert(cycle_position_matches(41, 1, 5));
    } else if s == 2 && b == 6 {
        assert(cycle_position_matches(42, 2, 6));
    } else if s == 3 && b == 7 {
        assert(cycle_position_matches(43, 3, 7));
    } else if s == 4 && b == 8 {
        assert(cycle_position_matches(44, 4, 8));
    } else if s == 5 && b == 9 {
        assert(cycle_position_matches(45, 5, 9));
    } else if s == 6 && b == 10 {
        assert(cycle_position_matches(46, 6, 10));
    } else if s == 7 && b == 11 {
        assert(cycle_position_matches(47, 7, 11));
    } else if s == 8 && b == 0 {
        assert(cycle_position_matches(48, 8, 0));
    } else if s == 9 && b == 1 {
        assert(cycle_position_matches(49, 9, 1));
    } else if s == 0 && b == 2 {
        assert(cycle_position_matches(50, 0, 2));
    } else if s == 1 && b == 3 {
        assert(cycle_position_matches(51, 1, 3));
    } else if s == 2 && b == 4 {
        assert(cycle_position_matches(52, 2, 4));
    } else if s == 3 && b == 5 {
        assert(cycle_position_matches(53, 3, 5));
    } else if s == 4 && b == 6 {
        assert(cycle_position_matches(54, 4, 6));
    } else if s == 5 && b == 7 {
        assert(cycle_position_matches(55, 5, 7));
    } else if s == 6 && b == 8 {
        assert(cycle_position_matches(56, 6, 8));
    } else if s == 7 && b == 9 {
        assert(cycle_position_matches(57, 7, 9));
    } else if s == 8 && b == 10 {
        assert(cycle_position_matches(58, 8, 10));
    } else if s == 9 && b == 11 {
        assert(cycle_position_matches(59, 9, 11));
    }
}

/// Whether position `m` of the sixty-year cycle has stem position `s` and branch position `b`.
spec fn cycle_position_matches(m: int, s: int, b: int) -> bool {
    m % 10 == s && m % 12 == b
}

/// Representative lunar year of a year pillar within one sixty-year cycle, where
/// 甲子 is year 4.  A pillar that is not sexagenary falls back to year 4.
pub fn representative_year(stem: Stem, branch: Branch) -> (r: i32)
    ensures
        spec_is_sexagenary(stem, branch) ==> 4 <= r < 64 && spec_stem_from_year(r as int) == stem
            && spec_branch_from_year(r as int) == branch,
        !spec_is_sexagenary(stem, branch) ==> r == 4,
{
    let stem_i = stem.index() as i32;
    let branch_i = branch.index() as i32;
    let mut n: i32 = 0;
    while n < 60
        invariant
            0 <= n <= 60,
            stem_i == stem.idx(),
            branch_i == branch.idx(),
            forall|m: int| 0 <= m < n ==> !#[trigger] cycle_position_matches(m, stem_i as int, branch_i as int),
        decreases 60 - n,
    {
        if n % 10 == stem_i && n % 12 == branch_i {
            proof {
                assert(spec_is_sexagenary(stem, branch)) by (nonlinear_arith)
                    requires
                        n % 10 == stem.idx(),
                        n % 12 == branch.idx(),
                        0 <= n,
                ;
            }
            return 4 + n;
        }
        n = n + 1;
    }
    proof {
        if spec_is_sexagenary(stem, branch) {
            lemma_cycle_witness(stem_i as int, branch_i as int);
            let w = choose|w: int| 0 <= w < 60 && #[trigger] cycle_position_matches(w, stem_i as int, branch_i as int);
            assert(false);
        }
    }
    4
}

/// Two raw inputs that agree on every field are the same input.
pub proof fn lemma_input_ext(a: ZiweiInput, b: ZiweiInput)
    requires
        a.spec_gender() == b.spec_gender(),
        a.spec_birth_stem() == b.spec_birth_stem(),
        a.spec_birth_branch() == b.spec_birth_branch(),
        a.spec_month() == b.spec_month(),
        a.spec_day() == b.spec_day(),
        a.spec_hour() == b.spec_hour(),
    ensures
        a == b,
{
}

/// Every lunar year yields a sexagenary year pillar.
pub proof fn lemma_year_pillar_parity(year: int)
    ensures
        spec_is_sexagenary(spec_stem_from_year(year), spec_branch_from_year(year)),
{
    let x = year - 4;
    assert(x % 10 % 2 == x % 2 && x % 12 % 2 == x % 2) by (nonlinear_arith);
}

} // verus!
