//! An application error with a numeric code.
use vstd::prelude::*;
use crate::utils::{i32_of_text, parse_int};

verus! {

/// The code of an input or output failure.
pub const IO_ERROR: i32 = 10000;

/// The code of text that is no number.
pub const NUMBER_PARSE_ERROR: i32 = 10001;

/// An error with a code and a message.
#[derive(Debug)]
pub struct AppError {
    pub code: i32,
    pub message: String,
}

impl AppError {
    /// The error with `code` and `message`.
    pub fn new(code: i32, message: String) -> (r: AppError)
        ensures
            r.code == code,
            r.message == message,
    {
        AppError { code, message }
    }
}

/// Reads an `i32` from `s`; an error with [`NUMBER_PARSE_ERROR`] where `s`
/// is no integer in range.
pub fn parse_number(s: &str) -> (r: Result<i32, AppError>)
    ensures
        r is Ok <==> i32_of_text(s@) is Some,
        r matches Ok(v) ==> i32_of_text(s@) == Some(v),
        r matches Err(e) ==> e.code == NUMBER_PARSE_ERROR,
{
    match parse_int(s) {
        Ok(v) => Ok(v),
        Err(message) => Err(AppError::new(NUMBER_PARSE_ERROR, message)),
    }
}

/// Reads `"a123"`, which is no number, and so fails with [`NUMBER_PARSE_ERROR`].
pub fn parse() -> (r: Result<i32, AppError>)
    ensures
        r matches Err(e) && e.code == NUMBER_PARSE_ERROR,
{
    let s = "a123";
    proof {
        reveal_strlit("a123");
        assert(s@[0] == 'a');
        assert(!('0' <= s@[0] <= '9'));
        assert(!crate::utils::is_decimal(s@));
    }
    parse_number(s)
}

} // verus!
