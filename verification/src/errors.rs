//! The typed error payload that a failed conversion returns to the caller.

use vstd::prelude::*;

verus! {

/// The failure payload of a conversion request: a fixed machine-readable
/// `reason` token (or `None` when only a generic converter-code message
/// applies), the raw converter exit code when one was observed, and a
/// human-readable message.
pub struct ErrorResponse {
    pub reason: Option<&'static str>,
    pub x2t_code: Option<i32>,
    pub message: String,
}

/// Mathematical model of an [`ErrorResponse`]: the same three fields with
/// strings abstracted to character sequences.
pub struct ErrorResponseV {
    pub reason: Option<Seq<char>>,
    pub x2t_code: Option<i32>,
    pub message: Seq<char>,
}

impl View for ErrorResponse {
    type V = ErrorResponseV;

    open spec fn view(&self) -> ErrorResponseV {
        ErrorResponseV {
            reason: match self.reason {
                Some(s) => Some(s@),
                None => None,
            },
            x2t_code: self.x2t_code,
            message: self.message@,
        }
    }
}

} // verus!
