//! A person named in a commit, checked after it has been put together.
//!
//! A [`Person`] is a name and an optional email address. [`Person::parse`]
//! assembles a candidate, validates it, and hands it out only if it is
//! valid.
use crate::email::{check_email, email_violations};
use crate::errors::{Displayable, Errors};
use crate::text::optional_slice_text;
use crate::validation::{described, required_violations, Validate, ValidationError, Violation};
use vstd::prelude::*;
use vstd::string::StringExecFns;

verus! {

/// What a [`Person`] holds, as plain mathematical data.
pub struct PersonView {
    pub name: Seq<char>,
    pub email: Option<Seq<char>>,
}

/// Every rule that a person with these fields breaks: first the name, which
/// is required, then the email, which must be an address if it is there.
pub open spec fn person_violations(person: PersonView) -> Seq<Violation> {
    required_violations("name"@, Some(person.name)) + email_violations(person.email)
}

/// The line that shows a person: the name, then, where there is an email,
/// one space and the email in angle brackets.
pub open spec fn person_text(person: PersonView) -> Seq<char> {
    match person.email {
        Some(email) => person.name + " <"@ + email + ">"@,
        None => person.name,
    }
}

/// A person in a commit: a name and an optional email address.
#[derive(Debug)]
pub struct Person {
    name: String,
    email: Option<String>,
}

impl View for Person {
    type V = PersonView;

    closed spec fn view(&self) -> PersonView {
        PersonView {
            name: self.name@,
            email: match self.email {
                Some(email) => Some(email@),
                None => None,
            },
        }
    }
}

impl Person {
    /// Makes a person of `name` and `email` if together they break no rule,
    /// and reports every rule they break otherwise.
    pub fn parse(name: &str, email: Option<&str>) -> (outcome: Result<
        Self,
        Errors<ValidationError>,
    >)
        ensures
            outcome is Ok <==> person_violations(
                PersonView { name: name@, email: optional_slice_text(email) },
            ).len() == 0,
            outcome matches Ok(person) ==> person@ == (PersonView {
                name: name@,
                email: optional_slice_text(email),
            }),
            outcome matches Err(errs) ==> described(errs@) == person_violations(
                PersonView { name: name@, email: optional_slice_text(email) },
            ),
    {
        let person = Person {
            name: name.to_owned(),
            email: match email {
                Some(address) => Some(address.to_owned()),
                None => None,
            },
        };
        match person.validate() {
            Ok(_) => Ok(person),
            Err(errs) => Err(errs),
        }
    }

    /// The person's name.
    pub fn name(&self) -> (name: &str)
        ensures
            name@ == self@.name,
    {
        self.name.as_str()
    }

    /// The person's email address, if there is one.
    pub fn email(&self) -> (email: Option<&str>)
        ensures
            optional_slice_text(email) == self@.email,
    {
        match &self.email {
            Some(address) => Some(address.as_str()),
            None => None,
        }
    }
}

impl Validate for Person {
    open spec fn violations(&self) -> Seq<Violation> {
        person_violations(self@)
    }

    /// Checks the name, then the email, and reports both where both fail.
    fn validate(&self) -> (outcome: Result<(), Errors<ValidationError>>) {
        let mut errs = Errors::new();
        if self.name.as_str().is_empty() {
            errs.append(ValidationError::MissingRequiredField("name".to_owned()));
        }
        assert(described(errs@) =~= required_violations("name"@, Some(self@.name)));
        if let Some(email) = &self.email {
            if let Some(error) = check_email(email.as_str()) {
                errs.append(error);
            }
        }
        assert(described(errs@) =~= person_violations(self@));
        if errs.is_empty() {
            Ok(())
        } else {
            Err(errs)
        }
    }
}

impl Displayable for Person {
    open spec fn rendered(&self) -> Seq<char> {
        person_text(self@)
    }

    fn display(&self) -> (text: String) {
        let mut text = self.name.clone();
        if let Some(email) = &self.email {
            text.append(" <");
            text.append(email.as_str());
            text.append(">");
        }
        text
    }
}

} // verus!
