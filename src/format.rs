use vstd::prelude::*;

verus! {

/// No character of `s` is an `@`.
pub open spec fn has_no_at(s: Seq<char>) -> bool {
    forall|i: int| 0 <= i < s.len() ==> s[i] != '@'
}

/// The part after the `@`: no `@`, and a `.` with at least one character
/// on each side of it.
pub open spec fn is_domain_part(d: Seq<char>) -> bool {
    &&& has_no_at(d)
    &&& exists|j: int| 1 <= j && j + 1 < d.len() && d[j] == '.'
}

/// The email format rule: a non-empty local part without `@`, one `@`,
/// then a domain part (the pattern `^[^@]+@[^@]+\.[^@]+$`).
pub open spec fn is_email_format(s: Seq<char>) -> bool {
    exists|k: int|
        1 <= k < s.len() && s[k] == '@' && has_no_at(#[trigger] s.subrange(0, k))
            && is_domain_part(s.subrange(k + 1, s.len() as int))
}

/// Relies on `validate::rules::email`: the rule matches its input against the
/// regular expression `^[^@]+@[^@]+\.[^@]+$` and accepts exactly on a match.
#[verifier::external_body]
pub(crate) fn email_rule_accepts(s: &str) -> (r: bool)
    ensures
        r == is_email_format(s@),
{
    validate::rules::email().validate(s).is_ok()
}

} // verus!
