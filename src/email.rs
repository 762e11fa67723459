use vstd::prelude::*;

use crate::error::InvalidEmailError;
use crate::format::{email_rule_accepts, is_email_format};

verus! {

/// What parsing `s` gives, as a view: the text itself when the format rule
/// accepts it, and `ParseError` otherwise.
pub open spec fn parse_spec(s: Seq<char>) -> Result<Seq<char>, InvalidEmailError> {
    if is_email_format(s) {
        Ok(s)
    } else {
        Err(InvalidEmailError::ParseError)
    }
}

/// An email address that the format rule accepts, held exactly as given.
#[derive(Debug, Hash)]
pub struct Email(String);

impl View for Email {
    type V = Seq<char>;

    closed spec fn view(&self) -> Seq<char> {
        self.0@
    }
}

/// The view of a parse outcome.
pub open spec fn result_view(r: Result<Email, InvalidEmailError>) -> Result<Seq<char>, InvalidEmailError> {
    match r {
        Ok(e) => Ok(e@),
        Err(err) => Err(err),
    }
}

impl Email {
    #[verifier::type_invariant]
    spec fn inv(&self) -> bool {
        is_email_format(self.0@)
    }

    /// Builds an `Email` from `input`, unchanged, when the format rule
    /// accepts it.
    pub fn parse(input: &str) -> (r: Result<Email, InvalidEmailError>)
        ensures
            result_view(r) == parse_spec(input@),
    {
        if email_rule_accepts(input) {
            Ok(Email(input.to_owned()))
        } else {
            Err(InvalidEmailError::ParseError)
        }
    }

    /// The address as text; it is the text it was built from, and the
    /// format rule accepts it.
    pub fn as_str(&self) -> (r: &str)
        ensures
            r@ == self@,
            is_email_format(r@),
    {
        proof {
            use_type_invariant(self);
        }
        self.0.as_str()
    }

    /// Builds an `Email` from an owned string, keeping the string itself.
    pub fn from_string(value: String) -> (r: Result<Email, InvalidEmailError>)
        ensures
            result_view(r) == parse_spec(value@),
    {
        Email::try_from(value)
    }

    /// Gives back the text of the address.
    pub fn into_string(self) -> (r: String)
        ensures
            r@ == self@,
            is_email_format(r@),
    {
        proof {
            use_type_invariant(&self);
        }
        self.0
    }
}

impl Clone for Email {
    fn clone(&self) -> (r: Self)
        ensures
            r@ == self@,
    {
        proof {
            use_type_invariant(self);
        }
        Email(self.0.clone())
    }
}

impl PartialEq for Email {
    fn eq(&self, other: &Email) -> (r: bool) {
        self.0 == other.0
    }
}

impl vstd::std_specs::cmp::PartialEqSpecImpl for Email {
    open spec fn obeys_eq_spec() -> bool {
        true
    }

    open spec fn eq_spec(&self, other: &Email) -> bool {
        self@ == other@
    }
}

impl Eq for Email {}

impl std::str::FromStr for Email {
    type Err = InvalidEmailError;

    fn from_str(s: &str) -> (r: Result<Email, InvalidEmailError>)
        ensures
            result_view(r) == parse_spec(s@),
    {
        Email::parse(s)
    }
}

impl AsRef<str> for Email {
    fn as_ref(&self) -> (r: &str)
        ensures
            r@ == self@,
            is_email_format(r@),
    {
        self.as_str()
    }
}

impl std::ops::Deref for Email {
    type Target = str;

    fn deref(&self) -> (r: &str)
        ensures
            r@ == self@,
            is_email_format(r@),
    {
        self.as_str()
    }
}

impl TryFrom<String> for Email {
    type Error = InvalidEmailError;

    fn try_from(value: String) -> (r: Result<Email, InvalidEmailError>)
        ensures
            result_view(r) == parse_spec(value@),
    {
        if email_rule_accepts(value.as_str()) {
            Ok(Email(value))
        } else {
            Err(InvalidEmailError::ParseError)
        }
    }
}

impl vstd::std_specs::convert::TryFromSpecImpl<String> for Email {
    open spec fn obeys_try_from_spec() -> bool {
        true
    }

    closed spec fn try_from_spec(v: String) -> Result<Email, InvalidEmailError> {
        if is_email_format(v@) {
            Ok(Email(v))
        } else {
            Err(InvalidEmailError::ParseError)
        }
    }
}

impl From<Email> for String {
    fn from(value: Email) -> (r: String)
        ensures
            r@ == value@,
            is_email_format(r@),
    {
        proof {
            use_type_invariant(&value);
        }
        value.0
    }
}

impl vstd::std_specs::convert::FromSpecImpl<Email> for String {
    open spec fn obeys_from_spec() -> bool {
        true
    }

    closed spec fn from_spec(v: Email) -> String {
        v.0
    }
}

/// Encoding then decoding is the identity: for every text `s` that the
/// format rule accepts, parsing `s` succeeds with `s` as its text, and
/// parsing that text again gives the same outcome.
pub proof fn lemma_encode_decode_round_trip(s: Seq<char>)
    requires
        is_email_format(s),
    ensures
        parse_spec(s) == Ok::<Seq<char>, InvalidEmailError>(s),
        parse_spec(parse_spec(s)->Ok_0) == parse_spec(s),
{
}

} // verus!
