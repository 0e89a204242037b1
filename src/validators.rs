use vstd::prelude::*;

verus! {

pub const ERR_HEIGHT: &'static str = "Height must be greater than zero.";

pub const ERR_MASS: &'static str = "Weight must be greater than zero.";

pub const ERR_AGE: &'static str = "Age must be greater than zero.";

pub const ERR_WAIST: &'static str = "Waist circumference must be greater than zero.";

pub const ERR_HIP: &'static str = "Hip circumference must be greater than zero.";

pub const ERR_ACTIVITY: &'static str = "Activity level must be positive.";

/// Where a measured scalar lies relative to zero: the only property of a
/// measurement that the validation rules read.
#[derive(Clone, Copy, Debug, PartialEq, Eq, Structural)]
pub enum Sign {
    Positive,
    Zero,
    Negative,
    /// The reading compares with nothing, zero included (for instance NaN).
    Undefined,
}

impl Sign {
    pub open spec fn spec_is_positive(self) -> bool {
        self is Positive
    }

    #[verifier::when_used_as_spec(spec_is_positive)]
    pub fn is_positive(self) -> (r: bool)
        ensures
            r == (self is Positive),
    {
        match self {
            Sign::Positive => true,
            _ => false,
        }
    }
}

/// The input that a formula refused, named after the quantity.
#[derive(Clone, Copy, Debug, PartialEq, Eq, Structural)]
pub enum ValidationError {
    HeightError,
    MassError,
    AgeError,
    WaistError,
    HipError,
    ActivityError,
}

pub open spec fn error_message(e: ValidationError) -> &'static str {
    match e {
        ValidationError::HeightError => ERR_HEIGHT,
        ValidationError::MassError => ERR_MASS,
        ValidationError::AgeError => ERR_AGE,
        ValidationError::WaistError => ERR_WAIST,
        ValidationError::HipError => ERR_HIP,
        ValidationError::ActivityError => ERR_ACTIVITY,
    }
}

impl ValidationError {
    /// The fixed human-readable text of this error.
    pub fn message(&self) -> (r: &'static str)
        ensures
            r == error_message(*self),
    {
        match self {
            ValidationError::HeightError => ERR_HEIGHT,
            ValidationError::MassError => ERR_MASS,
            ValidationError::AgeError => ERR_AGE,
            ValidationError::WaistError => ERR_WAIST,
            ValidationError::HipError => ERR_HIP,
            ValidationError::ActivityError => ERR_ACTIVITY,
        }
    }
}

/// Accepts a strictly positive reading; anything else (zero, negative,
/// undefined) fails with `error`.
pub open spec fn positive_or(sign: Sign, error: ValidationError) -> Result<(), ValidationError> {
    if sign.is_positive() {
        Ok(())
    } else {
        Err(error)
    }
}

pub fn validate_positive(sign: Sign, error: ValidationError) -> (r: Result<(), ValidationError>)
    ensures
        r == positive_or(sign, error),
        r is Ok <==> sign is Positive,
        sign is Zero ==> r == Err::<(), ValidationError>(error),
{
    if sign.is_positive() {
        Ok(())
    } else {
        Err(error)
    }
}

} // verus!
