//! The queryable chart (命盘): twelve palaces with their duties, the branches of the
//! eighteen stars, the forty-eight palace-stem flies and the twelve ten-year steps,
//! read under a natal, ten-year or yearly view.
pub mod fly;
pub mod laws;
pub mod layout;
pub mod parallel;
pub mod palace;
pub mod view;
pub mod ziwei;

pub use crate::palace_name::{PalaceName as PalaceRole, PalaceRoleLabel};
pub use crate::star::{StarLabel, StarName as Star};
pub use fly::{SelfTransformation, ZiweiFly};
pub use palace::Palace;
pub use view::{DecadeStep, DecadeYear, DecadeYearsError, LayerTransformation, NormalizedDate, ZiweiView};
pub use ziwei::{Ziwei, ZiweiHandle};
