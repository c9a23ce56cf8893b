//! The key that guards the API documentation.

use vstd::prelude::*;

use crate::errors::HttpError;

verus! {

/// Whether a request for the documentation is let through: it is where the key it presents
/// is the expected one, and also where the guard only takes notes.
pub open spec fn spec_api_key_accepted(
    presented: Option<Seq<char>>,
    expected: Seq<char>,
    log_only: bool,
) -> bool {
    log_only || presented == Some(expected)
}

/// Decides on a request for the documentation by the key it presents.
pub fn check_api_key(presented: Option<&str>, expected: &str, log_only: bool) -> (r: Result<
    (),
    HttpError,
>)
    ensures
        match r {
            Ok(_) => spec_api_key_accepted(
                crate::extractors::header_view(presented),
                expected@,
                log_only,
            ),
            Err(e) => e is InvalidSwaggerAPIKey && !spec_api_key_accepted(
                crate::extractors::header_view(presented),
                expected@,
                log_only,
            ),
        },
{
    if log_only {
        return Ok(());
    }
    match presented {
        Some(key) => if key.to_owned() == expected.to_owned() {
            Ok(())
        } else {
            Err(HttpError::InvalidSwaggerAPIKey)
        },
        None => Err(HttpError::InvalidSwaggerAPIKey),
    }
}

} // verus!
