//! What the book does with its entries: checking what was typed, taking
//! over what the store held, registering an entry, and reporting by month.

use crate::services::validate::checked_service_type;
use crate::services::validate::InputValidator;
use crate::services::validate::ValidationError;
use crate::text::parse_unsigned;
use crate::text::parsed_unsigned;
use crate::text::trim;
use crate::text::trimmed;
use vstd::prelude::*;

pub mod io;
pub mod register;
pub mod summarize;
pub mod validate;

verus! {

/// Why no service was picked.
#[derive(Debug, Clone, Copy, PartialEq, Eq)]
pub enum ServiceError {
    /// The service type is not a number from 0 to 255.
    NotNumeric,
    /// The service type is a number but picks no service.
    Validation(ValidationError),
}

impl ServiceError {
    /// The text of [`ServiceError::message`].
    pub open spec fn message_text(self) -> Seq<char> {
        match self {
            ServiceError::NotNumeric => "数値で入力してください"@,
            ServiceError::Validation(e) => e.message_text(),
        }
    }

    /// What to tell the user.
    pub fn message(&self) -> (r: &'static str)
        ensures
            r@ == self.message_text(),
    {
        match self {
            ServiceError::NotNumeric => "数値で入力してください",
            ServiceError::Validation(e) => e.message(),
        }
    }
}

/// The service type that `text` writes: a number from 0 to 255 that is 0
/// (register) or 1 (summarize).
pub open spec fn service_type_of(text: Seq<char>) -> Result<u8, ServiceError> {
    match parsed_unsigned(text, 255) {
        None => Err(ServiceError::NotNumeric),
        Some(code) => match checked_service_type(code as u8) {
            Err(e) => Err(ServiceError::Validation(e)),
            Ok(_) => Ok(code as u8),
        },
    }
}

/// Reads a service type from a text without white space around it.
pub fn parse_service_type(text: &str) -> (r: Result<u8, ServiceError>)
    ensures
        r == service_type_of(text@),
{
    match parse_unsigned(text, 255) {
        None => Err(ServiceError::NotNumeric),
        Some(code) => {
            let service_type = code as u8;
            match InputValidator::validate_service_type(service_type) {
                Err(e) => Err(ServiceError::Validation(e)),
                Ok(_) => Ok(service_type),
            }
        },
    }
}

/// The service type that the user typed in `line`: 0 to register an entry,
/// 1 to summarize the book.
pub fn input_service_type(line: &str) -> (r: Result<u8, ServiceError>)
    ensures
        r == service_type_of(trimmed(line@)),
{
    parse_service_type(trim(line))
}

} // verus!
