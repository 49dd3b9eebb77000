//! What a client is told when its request fails.

use vstd::prelude::*;
use vstd::string::*;
use crate::errors::ImageError;
use crate::request::Rejection;

verus! {

/// The answer to a request that failed: the status of the response and the
/// two texts of its body.
#[derive(Debug, Clone, PartialEq, Eq)]
pub struct AppError {
    pub status: u16,
    /// What went wrong, the same for every failure.
    pub err: String,
    /// The text of the failure itself.
    pub msg: String,
}

impl AppError {
    /// What every failed request is told first.
    pub open spec fn headline_spec() -> Seq<char> {
        "an error occured while processing image"@
    }

    /// What every failed request is told first.
    pub fn headline() -> (text: &'static str)
        ensures
            text@ == Self::headline_spec(),
    {
        "an error occured while processing image"
    }

    /// The text of a rejection: that of the error in it.
    pub open spec fn rejection_text(rejection: Rejection) -> Seq<char> {
        match rejection {
            Rejection::Param(e) => e.message_spec(),
            Rejection::Auth(e) => e.message_spec(),
        }
    }

    /// The answer to a request whose processing failed: status 500 and the
    /// text of the error.
    pub fn from_failure(error: &ImageError) -> (answer: AppError)
        ensures
            answer.status == 500,
            answer.err@ == Self::headline_spec(),
            answer.msg@ == error.message_spec(),
    {
        AppError {
            status: error.status_code(),
            err: String::from_str(Self::headline()),
            msg: error.message(),
        }
    }

    /// The answer to a request that was turned away: its status and the text
    /// of the error.
    pub fn from_rejection(rejection: &Rejection) -> (answer: AppError)
        ensures
            answer.status == rejection.status_spec(),
            answer.err@ == Self::headline_spec(),
            answer.msg@ == Self::rejection_text(*rejection),
    {
        let msg = match rejection {
            Rejection::Param(e) => e.message(),
            Rejection::Auth(e) => e.message(),
        };
        AppError {
            status: rejection.status_code(),
            err: String::from_str(Self::headline()),
            msg,
        }
    }
}

} // verus!
