pub mod formulas;
pub mod validators;

pub use formulas::{BmrCoefficients, BmrMethod, Gender};
pub use validators::{Sign, ValidationError, validate_positive};
pub use validators::{ERR_ACTIVITY, ERR_AGE, ERR_HEIGHT, ERR_HIP, ERR_MASS, ERR_WAIST};
