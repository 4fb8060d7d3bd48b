//! The vocabulary of validation: what can be wrong with a field, and the
//! contract of a value that can check itself.
use crate::errors::{Displayable, Errors};
use vstd::prelude::*;
use vstd::std_specs::cmp::PartialEqSpec;
use vstd::string::StringExecFns;

verus! {

/// What a [`ValidationError`] says, as plain mathematical data: field names
/// and messages as sequences of characters.
pub enum Violation {
    /// The named field is required and was absent or empty.
    MissingRequiredField(Seq<char>),
    /// The named field holds a value that was rejected, with the message of
    /// the underlying cause.
    InvalidFieldValue(Seq<char>, Seq<char>),
}

/// A rule that a field has broken.
#[derive(Debug)]
pub enum ValidationError {
    /// A required field is missing; holds the field's name.
    MissingRequiredField(String),
    /// A field holds an invalid value; holds the field's name and the
    /// message of the underlying cause.
    InvalidFieldValue(String, String),
}

impl View for ValidationError {
    type V = Violation;

    open spec fn view(&self) -> Violation {
        match self {
            ValidationError::MissingRequiredField(field) => Violation::MissingRequiredField(
                field@,
            ),
            ValidationError::InvalidFieldValue(field, cause) => Violation::InvalidFieldValue(
                field@,
                cause@,
            ),
        }
    }
}

/// The text of a violation: `field '<name>' is required`, or
/// `field '<name>' has invalid value: <cause>`.
pub open spec fn violation_text(violation: Violation) -> Seq<char> {
    match violation {
        Violation::MissingRequiredField(field) => "field '"@ + field + "' is required"@,
        Violation::InvalidFieldValue(field, cause) => "field '"@ + field
            + "' has invalid value: "@ + cause,
    }
}

/// The violations of a required field: none where it is present and not
/// empty, else the one missing field. No trimming is done, so a value made
/// of blanks counts as present.
pub open spec fn required_violations(field: Seq<char>, value: Option<Seq<char>>) -> Seq<
    Violation,
> {
    match value {
        Some(text) if text.len() > 0 => Seq::empty(),
        _ => seq![Violation::MissingRequiredField(field)],
    }
}

/// What a sequence of errors says, error by error.
pub open spec fn described(errs: Seq<ValidationError>) -> Seq<Violation> {
    errs.map_values(|e: ValidationError| e@)
}

impl PartialEq for ValidationError {
    /// Two errors are equal when they are of the same kind, name the same
    /// field and, for an invalid value, carry the same message of the cause.
    fn eq(&self, other: &Self) -> (same: bool) {
        match self {
            ValidationError::MissingRequiredField(field) => match other {
                ValidationError::MissingRequiredField(other_field) => *other_field == *field,
                ValidationError::InvalidFieldValue(_, _) => false,
            },
            ValidationError::InvalidFieldValue(field, cause) => match other {
                ValidationError::MissingRequiredField(_) => false,
                ValidationError::InvalidFieldValue(other_field, other_cause) => *field
                    == *other_field && *cause == *other_cause,
            },
        }
    }
}

impl vstd::std_specs::cmp::PartialEqSpecImpl for ValidationError {
    open spec fn obeys_eq_spec() -> bool {
        true
    }

    open spec fn eq_spec(&self, other: &Self) -> bool {
        self@ == other@
    }
}

impl Displayable for ValidationError {
    open spec fn rendered(&self) -> Seq<char> {
        violation_text(self@)
    }

    fn display(&self) -> (text: String) {
        let mut text = String::from_str("field '");
        match self {
            ValidationError::MissingRequiredField(field) => {
                text.append(field.as_str());
                text.append("' is required");
            },
            ValidationError::InvalidFieldValue(field, cause) => {
                text.append(field.as_str());
                text.append("' has invalid value: ");
                text.append(cause.as_str());
            },
        }
        text
    }
}

/// A value that can check itself against its rules.
///
/// `validate` reports every violation, not only the first, in the order in
/// which the rules are listed by `violations`.
pub trait Validate {
    /// Every rule that the value breaks, in order.
    spec fn violations(&self) -> Seq<Violation>;

    /// Checks the value: `Ok` exactly when no rule is broken, else every
    /// violation in order.
    fn validate(&self) -> (outcome: Result<(), Errors<ValidationError>>)
        ensures
            outcome is Ok <==> self.violations().len() == 0,
            outcome matches Err(errs) ==> described(errs@) == self.violations(),
    ;
}

} // verus!
