//! Address syntax, as judged by the `email_address` crate.
use crate::validation::{ValidationError, Violation};
use email_address::EmailAddress;
use std::str::FromStr;
use vstd::prelude::*;

verus! {

/// Why `address` is not an address: the message of the error with which
/// `email_address` refuses it, or `None` where it accepts it.
pub uninterp spec fn email_rejection(address: Seq<char>) -> Option<Seq<char>>;

/// The violations of an optional email field: none where it is absent or
/// accepted, else the one invalid value with the reason for the refusal.
pub open spec fn email_violations(email: Option<Seq<char>>) -> Seq<Violation> {
    match email {
        Some(address) => match email_rejection(address) {
            Some(reason) => seq![Violation::InvalidFieldValue("email"@, reason)],
            None => Seq::empty(),
        },
        None => Seq::empty(),
    }
}

/// Calls `EmailAddress::from_str` of `email_address` on `address`, and
/// `to_string` on the error it may return.
///
/// Trusted, not proved: the outcome depends on `address` alone, it is `Ok`
/// exactly where the crate accepts the address, and an `Err` carries the
/// text that the crate's error displays. The address parsed is dropped; only
/// the verdict is kept.
#[verifier::external_body]
fn parse_email(address: &str) -> (verdict: Result<(), String>)
    ensures
        verdict is Ok <==> email_rejection(address@) is None,
        verdict matches Err(reason) ==> email_rejection(address@) == Some(reason@),
{
    match EmailAddress::from_str(address) {
        Ok(_) => Ok(()),
        Err(e) => Err(e.to_string()),
    }
}

/// Turns the verdict on an email field into the error to report, if any:
/// a refusal becomes an invalid value of the field `email` that carries the
/// reason, an acceptance becomes nothing.
pub fn email_error(verdict: Result<(), String>) -> (error: Option<ValidationError>)
    ensures
        verdict is Ok ==> error is None,
        verdict matches Err(reason) ==> error matches Some(e) && e@
            == Violation::InvalidFieldValue("email"@, reason@),
{
    match verdict {
        Ok(_) => None,
        Err(reason) => Some(ValidationError::InvalidFieldValue("email".to_owned(), reason)),
    }
}

/// Checks the syntax of `address` and gives the error to report, if any.
pub fn check_email(address: &str) -> (error: Option<ValidationError>)
    ensures
        error is None <==> email_rejection(address@) is None,
        error matches Some(e) ==> email_violations(Some(address@)) == seq![e@],
{
    email_error(parse_email(address))
}

} // verus!
