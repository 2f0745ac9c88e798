//! The errors that the service reports.

use vstd::prelude::*;
use vstd::string::StringExecFns;

verus! {

/// An error of the service, with the detail that describes the occurrence.
#[derive(Debug)]
pub enum AppError {
    /// Something that was asked for does not exist.
    NotFound(String),
    /// An input was not of the form that it must have.
    InvalidInput(String),
    /// The service itself failed.
    Internal(String),
}

impl AppError {
    /// The detail that the error carries.
    pub open spec fn detail(&self) -> Seq<char> {
        match self {
            AppError::NotFound(detail) => detail@,
            AppError::InvalidInput(detail) => detail@,
            AppError::Internal(detail) => detail@,
        }
    }

    /// The words that introduce the detail in the error's message.
    pub open spec fn prefix(&self) -> Seq<char> {
        match self {
            AppError::NotFound(_) => "Not found: "@,
            AppError::InvalidInput(_) => "Invalid input: "@,
            AppError::Internal(_) => "Internal error: "@,
        }
    }

    /// The message of the error: what kind it is of, then its detail.
    pub open spec fn message_text(&self) -> Seq<char> {
        self.prefix() + self.detail()
    }

    /// The message of the error, for display.
    pub fn message(&self) -> (text: String)
        ensures
            text@ == self.message_text(),
    {
        match self {
            AppError::NotFound(detail) => String::from("Not found: ").concat(detail.as_str()),
            AppError::InvalidInput(detail) => String::from("Invalid input: ").concat(
                detail.as_str(),
            ),
            AppError::Internal(detail) => String::from("Internal error: ").concat(detail.as_str()),
        }
    }
}

} // verus!
