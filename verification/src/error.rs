//! Validation errors of the domain values (months, days, year pillars and indices).
use super::branch::Branch;
use super::stem::Stem;
use super::text::{push_decimal, spec_decimal};
use vstd::prelude::*;

verus! {

/// The validation error of the domain values.
#[allow(inconsistent_fields)]
#[derive(Debug, Clone, Copy, PartialEq, Eq, Structural)]
pub enum ZiweiError {
    /// The year stem and branch do not form a sexagenary pair.
    InvalidSexagenaryYear {
        /// Year stem.
        stem: Stem,
        /// Year branch.
        branch: Branch,
    },
    /// The lunar month is not within `1..=12`.
    InvalidLunisolarMonth {
        /// The rejected value.
        value: u8,
    },
    /// The lunar day is not within `1..=30`.
    InvalidLunisolarDay {
        /// The rejected value.
        value: u8,
    },
    /// The ten-year index is not within `0..=11`.
    InvalidDecadeIndex {
        /// The rejected value.
        value: u8,
    },
    /// The yearly index is not within `0..=9`.
    InvalidYearlyIndex {
        /// The rejected value.
        value: u8,
    },
}

impl ZiweiError {
    /// Human-readable description of the error with the rejected values.
    pub fn message(self) -> (r: String)
        ensures
            r@ == match self {
                ZiweiError::InvalidSexagenaryYear { stem, branch } =>
                    "无效六十甲子："@ + stem.spec_chinese() + branch.spec_chinese(),
                ZiweiError::InvalidLunisolarMonth { value } => "无效农历月份："@ + spec_decimal(value as nat),
                ZiweiError::InvalidLunisolarDay { value } => "无效农历日期："@ + spec_decimal(value as nat),
                ZiweiError::InvalidDecadeIndex { value } => "无效大限序号："@ + spec_decimal(value as nat),
                ZiweiError::InvalidYearlyIndex { value } => "无效流年序号："@ + spec_decimal(value as nat),
            },
    {
        let mut s = String::new();
        proof {
            assert(Seq::<char>::empty() + "x"@ == "x"@);
        }
        match self {
            ZiweiError::InvalidSexagenaryYear { stem, branch } => {
                s.append("无效六十甲子：");
                s.append(stem.chinese());
                s.append(branch.chinese());
            },
            ZiweiError::InvalidLunisolarMonth { value } => {
                s.append("无效农历月份：");
                push_decimal(&mut s, value as u32);
            },
            ZiweiError::InvalidLunisolarDay { value } => {
                s.append("无效农历日期：");
                push_decimal(&mut s, value as u32);
            },
            ZiweiError::InvalidDecadeIndex { value } => {
                s.append("无效大限序号：");
                push_decimal(&mut s, value as u32);
            },
            ZiweiError::InvalidYearlyIndex { value } => {
                s.append("无效流年序号：");
                push_decimal(&mut s, value as u32);
            },
        }
        s
    }
}

} // verus!
