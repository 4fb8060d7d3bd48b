//! Fragments that are built through a staging object.
//!
//! A builder holds the fields of a fragment while they are still optional.
//! Its `build` is the only way to a finished fragment: it validates every
//! field and yields either the fragment or every violation it found.
pub mod person;

pub use crate::validation::ValidationError;
pub use person::{Person, PersonBuilder};

use crate::errors::Errors;
use crate::validation::{described, Violation};
use vstd::prelude::*;

verus! {

/// The errors of one validation pass.
pub type ValidationErrors = Errors<ValidationError>;

/// A staging object from which a validated `T` is built.
pub trait Build<T>: Sized {
    /// Every rule that the staged fields break, in the order of the fields.
    spec fn violations(&self) -> Seq<Violation>;

    /// Validates all staged fields and builds the value.
    ///
    /// Succeeds exactly when no rule is broken; otherwise no value is made
    /// and every violation is reported, in order. Either way the builder is
    /// left as it was and can be used again.
    fn build(&mut self) -> (outcome: Result<T, ValidationErrors>)
        ensures
            *final(self) == *old(self),
            outcome is Ok <==> old(self).violations().len() == 0,
            outcome matches Err(errs) ==> described(errs@) == old(self).violations(),
    ;
}

} // verus!
