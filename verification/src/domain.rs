//! Domain values of a natal chart as read by its users: ten-year and yearly duties,
//! period indices and ages, birth profiles, palaces with their stars, and the rules that
//! lay the palaces out from 寅.
pub mod luck;
pub mod natal;
pub mod palace;
pub mod profile;
pub mod rules;
pub mod star;

pub use crate::palace_name::PalaceName as PalaceKey;
pub use crate::star::{StarCategory as StarType, StarName as StarKey, StarSelfTransformations as SelfTransformations};
pub use luck::{Decade, DecadeAge, DecadeIndex, DecadeYear, Yearly, YearlyIndex};
pub use natal::Natal;
pub use palace::{Palace, PalaceScope};
pub use profile::{BirthDay, BirthMonth, Gender, Profile};
pub use star::Star;
