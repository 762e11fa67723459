use fake::Fake;
use vstd::prelude::*;

use crate::email::{parse_spec, result_view, Email};
use crate::error::InvalidEmailError;

verus! {

/// Relies on `fake::faker::internet::en::FreeEmail`: draws a random address
/// at a free mail provider. Nothing is promised of the drawn text.
#[verifier::external_body]
fn draw_free_email() -> String {
    fake::faker::internet::en::FreeEmail().fake::<String>()
}

/// A random `Email`, drawn from the fake-data provider and parsed once.
/// Whatever was drawn, an address that comes back parses again to itself;
/// a drawn text that the format rule rejects gives `ParseError`.
pub fn get_random_email() -> (r: Result<Email, InvalidEmailError>)
    ensures
        match r {
            Ok(e) => parse_spec(e@) == result_view(r),
            Err(err) => err == InvalidEmailError::ParseError,
        },
{
    let drawn = draw_free_email();
    Email::from_string(drawn)
}

} // verus!
