//! Zi Wei Dou Shu (紫微斗数) chart engine with machine-checked rules.
//!
//! From validated lunar birth data the crate computes an immutable natal chart: twelve
//! palaces with their stems and duties, eighteen stars, the four birth transformations,
//! the palace transformation edges with self-transformations, the five-element bureau
//! and the twelve ten-year periods ([`create_from_birth`], [`create_from_input`]).
//! The [`chart`] module offers the same rules as a queryable chart read under natal,
//! ten-year or yearly views.

pub mod branch;
pub mod bureau;
pub mod chart;
pub mod decade;
pub mod domain;
pub mod error;
pub mod input;
pub mod natal;
pub mod natal_laws;
pub mod palace;
pub mod palace_name;
pub mod placement;
pub mod position;
pub mod star;
pub mod star_count;
pub mod table_laws;
pub mod stem;
pub mod text;
pub mod transformation;
pub mod transformation_facts;
pub mod year_transformation;
pub mod zodiac;

pub use branch::Branch;
pub use bureau::FiveElementBureau;
pub use error::ZiweiError;
pub use domain::Profile;
pub use decade::{Decade, DecadeDirection, DecadeIndex, DecadeIndexError, DecadeYear};
pub use input::{Gender, ZiweiBirth, ZiweiInput, ZiweiInputError};
pub use natal::{create_from_birth, create_from_input, Natal, NatalContext};
pub use palace::{Palace, PalaceTransformation};
pub use palace_name::PalaceName;
pub use star::{Star, StarCategory, StarGalaxy, StarName, StarSelfTransformations};
pub use stem::Stem;
pub use transformation::Transformation;
pub use zodiac::Zodiac;
