//! Checks on the codes that the user types.
//!
//! Each code picks one of a few choices. A code that picks none is refused
//! with an error that says which question it answered.

use vstd::prelude::*;

verus! {

/// Holds the checks; it has no state.
pub struct InputValidator {}

/// A code that picks none of the choices offered.
#[derive(Debug, Clone, Copy, PartialEq, Eq)]
pub enum ValidationError {
    /// Neither registering (0) nor summarizing (1).
    ServiceType,
    /// Neither income (0) nor expense (1).
    RegisterType,
    /// None of the three kinds (0, 1, 2) of a category.
    CategoryType,
}

impl ValidationError {
    /// The text of [`ValidationError::message`].
    pub open spec fn message_text(self) -> Seq<char> {
        match self {
            ValidationError::ServiceType => "入力値が不正です"@,
            ValidationError::RegisterType => "登録種別の入力値が不正です"@,
            ValidationError::CategoryType => "カテゴリ入力値が不正です"@,
        }
    }

    /// What to tell the user.
    pub fn message(&self) -> (r: &'static str)
        ensures
            r@ == self.message_text(),
    {
        match self {
            ValidationError::ServiceType => "入力値が不正です",
            ValidationError::RegisterType => "登録種別の入力値が不正です",
            ValidationError::CategoryType => "カテゴリ入力値が不正です",
        }
    }
}

/// What the check of a service type answers: 0 and 1 pass.
pub open spec fn checked_service_type(service_type: u8) -> Result<(), ValidationError> {
    if service_type <= 1 {
        Ok(())
    } else {
        Err(ValidationError::ServiceType)
    }
}

/// What the check of a registration type answers: 0 and 1 pass.
pub open spec fn checked_register_type(register_type: u8) -> Result<(), ValidationError> {
    if register_type <= 1 {
        Ok(())
    } else {
        Err(ValidationError::RegisterType)
    }
}

/// What the check of a category code answers: 0, 1 and 2 pass, under
/// every registration type.
pub open spec fn checked_category_type(register_type: u8, category_type: u8) -> Result<
    (),
    ValidationError,
> {
    if category_type <= 2 {
        Ok(())
    } else {
        Err(ValidationError::CategoryType)
    }
}

impl InputValidator {
    /// Accepts the service types 0 (register) and 1 (summarize).
    pub fn validate_service_type(service_type: u8) -> (r: Result<(), ValidationError>)
        ensures
            r == checked_service_type(service_type),
    {
        match service_type {
            0 | 1 => Ok(()),
            _ => Err(ValidationError::ServiceType),
        }
    }

    /// Accepts the registration types 0 (income) and 1 (expense).
    pub fn validate_register_type(register_type: u8) -> (r: Result<(), ValidationError>)
        ensures
            r == checked_register_type(register_type),
    {
        match register_type {
            0 | 1 => Ok(()),
            _ => Err(ValidationError::RegisterType),
        }
    }

    /// Accepts the category codes 0, 1 and 2. The registration type decides
    /// which kinds the codes stand for, not which codes there are.
    pub fn validate_category_type(register_type: u8, category_type: u8) -> (r: Result<
        (),
        ValidationError,
    >)
        ensures
            r == checked_category_type(register_type, category_type),
    {
        if register_type == 0 {
            match category_type {
                0 | 1 | 2 => Ok(()),
                _ => Err(ValidationError::CategoryType),
            }
        } else {
            match category_type {
                0 | 1 | 2 => Ok(()),
                _ => Err(ValidationError::CategoryType),
            }
        }
    }
}

} // verus!
