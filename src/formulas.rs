use vstd::prelude::*;

use crate::validators::{validate_positive, Sign, ValidationError};

verus! {

/// Biological sex selector used by the metabolic-rate formulas.
#[derive(Clone, Copy, Debug, PartialEq, Eq, Structural)]
pub enum Gender {
    Male,
    Female,
}

/// Which published equation estimates the basal metabolic rate.
#[derive(Clone, Copy, Debug, PartialEq, Eq, Structural)]
pub enum BmrMethod {
    /// Harris–Benedict as revised by Roza and Shizgal.
    HarrisBenedict,
    MifflinStJeor,
}

/// A linear basal-metabolic-rate equation,
/// `base + mass * kg + height * cm + age * years`, every coefficient in
/// thousandths of a kilocalorie (per unit of its input).
#[derive(Clone, Copy, Debug, PartialEq, Eq, Structural)]
pub struct BmrCoefficients {
    pub base: i64,
    pub mass: i64,
    pub height: i64,
    pub age: i64,
}

pub open spec fn bmr_equation(method: BmrMethod, gender: Gender) -> BmrCoefficients {
    match (method, gender) {
        (BmrMethod::HarrisBenedict, Gender::Male) =>
            BmrCoefficients { base: 88362, mass: 13397, height: 4799, age: (-5677) as i64 },
        (BmrMethod::HarrisBenedict, Gender::Female) =>
            BmrCoefficients { base: 447593, mass: 9247, height: 3098, age: (-4330) as i64 },
        (BmrMethod::MifflinStJeor, Gender::Male) =>
            BmrCoefficients { base: 5000, mass: 10000, height: 6250, age: (-5000) as i64 },
        (BmrMethod::MifflinStJeor, Gender::Female) =>
            BmrCoefficients { base: (-161000) as i64, mass: 10000, height: 6250, age: (-5000) as i64 },
    }
}

/// The coefficients of the equation that `method` gives for `gender`: the
/// two selectors are independent, four equations in all.
pub fn bmr_coefficients(method: BmrMethod, gender: Gender) -> (r: BmrCoefficients)
    ensures
        r == bmr_equation(method, gender),
{
    match method {
        BmrMethod::HarrisBenedict => match gender {
            Gender::Male => BmrCoefficients { base: 88362, mass: 13397, height: 4799, age: -5677 },
            Gender::Female => BmrCoefficients {
                base: 447593,
                mass: 9247,
                height: 3098,
                age: -4330,
            },
        },
        BmrMethod::MifflinStJeor => match gender {
            Gender::Male => BmrCoefficients { base: 5000, mass: 10000, height: 6250, age: -5000 },
            Gender::Female => BmrCoefficients {
                base: -161000,
                mass: 10000,
                height: 6250,
                age: -5000,
            },
        },
    }
}

/// Body mass index checks height first, then mass.
pub open spec fn bmi_validation(height: Sign, mass: Sign) -> Result<(), ValidationError> {
    if !height.is_positive() {
        Err(ValidationError::HeightError)
    } else if !mass.is_positive() {
        Err(ValidationError::MassError)
    } else {
        Ok(())
    }
}

/// Basal metabolic rate checks mass, then height, then age, for either method.
pub open spec fn bmr_validation(mass: Sign, height: Sign, age: Sign) -> Result<
    (),
    ValidationError,
> {
    if !mass.is_positive() {
        Err(ValidationError::MassError)
    } else if !height.is_positive() {
        Err(ValidationError::HeightError)
    } else if !age.is_positive() {
        Err(ValidationError::AgeError)
    } else {
        Ok(())
    }
}

/// Total daily energy expenditure checks the activity level before anything
/// else, then reports exactly what the basal metabolic rate reports.
pub open spec fn tdee_validation(activity: Sign, mass: Sign, height: Sign, age: Sign) -> Result<
    (),
    ValidationError,
> {
    if !activity.is_positive() {
        Err(ValidationError::ActivityError)
    } else {
        bmr_validation(mass, height, age)
    }
}

/// Body adiposity index checks hip circumference first, then height.
pub open spec fn bai_validation(hip: Sign, height: Sign) -> Result<(), ValidationError> {
    if !hip.is_positive() {
        Err(ValidationError::HipError)
    } else if !height.is_positive() {
        Err(ValidationError::HeightError)
    } else {
        Ok(())
    }
}

/// Waist-to-height ratio checks waist circumference first, then height.
pub open spec fn whtr_validation(waist: Sign, height: Sign) -> Result<(), ValidationError> {
    if !waist.is_positive() {
        Err(ValidationError::WaistError)
    } else if !height.is_positive() {
        Err(ValidationError::HeightError)
    } else {
        Ok(())
    }
}

/// Decides whether body mass index may be computed from readings of these
/// signs; `Ok` means every input is strictly positive.
pub fn check_bmi(height: Sign, mass: Sign) -> (r: Result<(), ValidationError>)
    ensures
        r == bmi_validation(height, mass),
        r is Ok <==> height is Positive && mass is Positive,
        !(height is Positive) ==> r == Err::<(), ValidationError>(ValidationError::HeightError),
        height is Positive && !(mass is Positive) ==> r == Err::<(), ValidationError>(
            ValidationError::MassError,
        ),
{
    validate_positive(height, ValidationError::HeightError)?;
    validate_positive(mass, ValidationError::MassError)?;
    Ok(())
}

/// Decides whether the basal metabolic rate may be computed from readings of
/// these signs. Mass is checked first, then height, then age.
pub fn check_bmr(mass: Sign, height: Sign, age: Sign) -> (r: Result<(), ValidationError>)
    ensures
        r == bmr_validation(mass, height, age),
        r is Ok <==> mass is Positive && height is Positive && age is Positive,
        !(mass is Positive) ==> r == Err::<(), ValidationError>(ValidationError::MassError),
        mass is Positive && !(height is Positive) ==> r == Err::<(), ValidationError>(
            ValidationError::HeightError,
        ),
{
    validate_positive(mass, ValidationError::MassError)?;
    validate_positive(height, ValidationError::HeightError)?;
    validate_positive(age, ValidationError::AgeError)?;
    Ok(())
}

/// Decides whether total daily energy expenditure may be computed: the
/// activity level is checked on its own first, then the basal metabolic rate's
/// inputs, whose error is passed on unchanged.
pub fn check_tdee(activity: Sign, mass: Sign, height: Sign, age: Sign) -> (r: Result<
    (),
    ValidationError,
>)
    ensures
        r == tdee_validation(activity, mass, height, age),
        activity is Positive ==> r == bmr_validation(mass, height, age),
        !(activity is Positive) ==> r == Err::<(), ValidationError>(
            ValidationError::ActivityError,
        ),
{
    validate_positive(activity, ValidationError::ActivityError)?;
    check_bmr(mass, height, age)
}

/// Decides whether the body adiposity index may be computed: hip
/// circumference first, then height.
pub fn check_bai(hip: Sign, height: Sign) -> (r: Result<(), ValidationError>)
    ensures
        r == bai_validation(hip, height),
        r is Ok <==> hip is Positive && height is Positive,
        !(hip is Positive) ==> r == Err::<(), ValidationError>(ValidationError::HipError),
        hip is Positive && !(height is Positive) ==> r == Err::<(), ValidationError>(
            ValidationError::HeightError,
        ),
{
    validate_positive(hip, ValidationError::HipError)?;
    validate_positive(height, ValidationError::HeightError)?;
    Ok(())
}

/// Decides whether the waist-to-height ratio may be computed: waist
/// circumference first, then height.
pub fn check_whtr(waist: Sign, height: Sign) -> (r: Result<(), ValidationError>)
    ensures
        r == whtr_validation(waist, height),
        r is Ok <==> waist is Positive && height is Positive,
        !(waist is Positive) ==> r == Err::<(), ValidationError>(ValidationError::WaistError),
        waist is Positive && !(height is Positive) ==> r == Err::<(), ValidationError>(
            ValidationError::HeightError,
        ),
{
    validate_positive(waist, ValidationError::WaistError)?;
    validate_positive(height, ValidationError::HeightError)?;
    Ok(())
}

} // verus!
