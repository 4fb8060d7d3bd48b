//! A person named in a commit trailer, built through [`PersonBuilder`].
//!
//! A [`Person`] is a name, the person's relationship to the commit
//! (co-author, tester, ...) and an optional email address.
use crate::email::{check_email, email_rejection, email_violations};
use crate::errors::{Displayable, Errors};
use crate::model::{Build, ValidationErrors};
use crate::text::{optional_slice_text, optional_text};
use crate::validation::{described, required_violations, ValidationError, Violation};
use vstd::prelude::*;
use vstd::string::StringExecFns;

verus! {

/// The relationship given to a person for whom none, or an empty one, was
/// staged.
pub const DEFAULT_RELATIONSHIP: &'static str = "Co-Authored-By";

/// What a [`Person`] holds, as plain mathematical data.
pub struct PersonView {
    pub name: Seq<char>,
    pub relationship: Seq<char>,
    pub email: Option<Seq<char>>,
}

/// What a [`PersonBuilder`] holds, as plain mathematical data.
pub struct PersonDraft {
    pub name: Option<Seq<char>>,
    pub relationship: Option<Seq<char>>,
    pub email: Option<Seq<char>>,
}

/// The relationship that a build settles on: the staged one, or the default
/// where none or an empty one was staged.
pub open spec fn resolved_relationship(staged: Option<Seq<char>>) -> Seq<char> {
    match staged {
        Some(relationship) if relationship.len() > 0 => relationship,
        _ => DEFAULT_RELATIONSHIP@,
    }
}

/// Every rule that a draft breaks: first the name, which is required, then
/// the email, which must be an address if it is there.
pub open spec fn draft_violations(draft: PersonDraft) -> Seq<Violation> {
    required_violations("name"@, draft.name) + email_violations(draft.email)
}

/// The person that a draft without violations becomes.
pub open spec fn built_person(draft: PersonDraft) -> PersonView {
    PersonView {
        name: match draft.name {
            Some(name) => name,
            None => Seq::empty(),
        },
        relationship: resolved_relationship(draft.relationship),
        email: draft.email,
    }
}

/// What makes a person valid: a name, a relationship, and an email that is
/// an address if it is there.
pub open spec fn valid_person(person: PersonView) -> bool {
    &&& person.name.len() > 0
    &&& person.relationship.len() > 0
    &&& email_violations(person.email).len() == 0
}

/// The trailer line of a person: `<relationship>: <name>`, then, where
/// there is an email, one space and the email in angle brackets.
pub open spec fn person_text(person: PersonView) -> Seq<char> {
    let line = person.relationship + ": "@ + person.name;
    match person.email {
        Some(email) => line + " <"@ + email + ">"@,
        None => line,
    }
}

/// Building a person and checking an assembled one find the same
/// violations in the same order, whatever relationship is staged.
pub proof fn lemma_building_agrees_with_validating(
    name: Seq<char>,
    relationship: Option<Seq<char>>,
    email: Option<Seq<char>>,
)
    ensures
        draft_violations(PersonDraft { name: Some(name), relationship, email })
            == crate::person::person_violations(crate::person::PersonView { name, email }),
{
}

/// A validated person. Every value of this type is valid: it can only be
/// made by [`PersonBuilder`]'s `build`.
#[derive(Debug)]
pub struct Person {
    name: String,
    relationship: String,
    email: Option<String>,
}

impl View for Person {
    type V = PersonView;

    closed spec fn view(&self) -> PersonView {
        PersonView {
            name: self.name@,
            relationship: self.relationship@,
            email: optional_text(self.email),
        }
    }
}

impl Person {
    #[verifier::type_invariant]
    spec fn is_valid(&self) -> bool {
        valid_person(self@)
    }

    /// Starts a builder for a person called `name`.
    pub fn builder(name: &str) -> (builder: PersonBuilder)
        ensures
            builder@ == (PersonDraft { name: Some(name@), relationship: None, email: None }),
    {
        PersonBuilder { name: Some(name.to_owned()), relationship: None, email: None }
    }

    /// The person's name, which is never empty.
    pub fn name(&self) -> (name: &str)
        ensures
            name@ == self@.name,
            name@.len() > 0,
    {
        proof {
            use_type_invariant(self);
        }
        self.name.as_str()
    }

    /// The person's relationship to the commit, which is never empty.
    pub fn relationship(&self) -> (relationship: &str)
        ensures
            relationship@ == self@.relationship,
            relationship@.len() > 0,
    {
        proof {
            use_type_invariant(self);
        }
        self.relationship.as_str()
    }

    /// The person's email, if there is one; it is always an address.
    pub fn email(&self) -> (email: Option<&str>)
        ensures
            optional_slice_text(email) == self@.email,
            email matches Some(address) ==> email_rejection(address@) is None,
    {
        proof {
            use_type_invariant(self);
        }
        match &self.email {
            Some(address) => Some(address.as_str()),
            None => None,
        }
    }
}

impl Clone for Person {
    /// A person with the same fields.
    fn clone(&self) -> (copy: Self)
        ensures
            copy@ == self@,
    {
        proof {
            use_type_invariant(self);
        }
        Person {
            name: self.name.clone(),
            relationship: self.relationship.clone(),
            email: match &self.email {
                Some(address) => Some(address.clone()),
                None => None,
            },
        }
    }
}

impl Displayable for Person {
    open spec fn rendered(&self) -> Seq<char> {
        person_text(self@)
    }

    fn display(&self) -> (text: String) {
        let mut text = self.relationship.clone();
        text.append(": ");
        text.append(self.name.as_str());
        if let Some(email) = &self.email {
            text.append(" <");
            text.append(email.as_str());
            text.append(">");
        }
        text
    }
}

/// The staging object of a [`Person`]: every field is optional until
/// `build` has checked it.
#[derive(Clone, Debug)]
pub struct PersonBuilder {
    name: Option<String>,
    relationship: Option<String>,
    email: Option<String>,
}

impl View for PersonBuilder {
    type V = PersonDraft;

    closed spec fn view(&self) -> PersonDraft {
        PersonDraft {
            name: optional_text(self.name),
            relationship: optional_text(self.relationship),
            email: optional_text(self.email),
        }
    }
}

impl Default for PersonBuilder {
    /// A builder with nothing staged.
    fn default() -> (builder: Self)
        ensures
            builder@ == (PersonDraft { name: None, relationship: None, email: None }),
    {
        PersonBuilder { name: None, relationship: None, email: None }
    }
}

impl PersonBuilder {
    /// Stages the relationship of the person to the commit.
    pub fn relationship(&mut self, value: &str) -> (builder: &mut Self)
        ensures
            builder@ == (PersonDraft { relationship: Some(value@), ..old(self)@ }),
            *final(self) == *final(builder),
    {
        self.relationship = Some(value.to_owned());
        self
    }

    /// Stages the email address of the person.
    pub fn email(&mut self, value: &str) -> (builder: &mut Self)
        ensures
            builder@ == (PersonDraft { email: Some(value@), ..old(self)@ }),
            *final(self) == *final(builder),
    {
        self.email = Some(value.to_owned());
        self
    }

    /// Checks the name: it is required and must not be empty.
    pub fn validate_name(&mut self) -> (outcome: Result<String, ValidationError>)
        ensures
            *final(self) == *old(self),
            outcome is Ok <==> required_violations("name"@, old(self)@.name).len() == 0,
            outcome matches Ok(name) ==> old(self)@.name == Some(name@),
            outcome matches Err(error) ==> required_violations("name"@, old(self)@.name)
                == seq![error@],
    {
        match &self.name {
            Some(name) if !name.as_str().is_empty() => Ok(name.clone()),
            _ => Err(ValidationError::MissingRequiredField("name".to_owned())),
        }
    }

    /// Checks the email: it may be absent, and must be an address if it is
    /// there. An accepted email is handed on unchanged.
    pub fn validate_email(&mut self) -> (outcome: Result<Option<String>, ValidationError>)
        ensures
            *final(self) == *old(self),
            outcome is Ok <==> email_violations(old(self)@.email).len() == 0,
            outcome matches Ok(email) ==> optional_text(email) == old(self)@.email,
            outcome matches Err(error) ==> email_violations(old(self)@.email) == seq![error@],
    {
        match &self.email {
            Some(email) => match check_email(email.as_str()) {
                Some(error) => Err(error),
                None => Ok(Some(email.clone())),
            },
            None => Ok(None),
        }
    }

    /// The relationship to build with: the staged one, or the default where
    /// none or an empty one was staged.
    pub fn get_relationship_or_default(&mut self) -> (relationship: String)
        ensures
            *final(self) == *old(self),
            relationship@ == resolved_relationship(old(self)@.relationship),
    {
        match &self.relationship {
            Some(relationship) if !relationship.as_str().is_empty() => relationship.clone(),
            _ => DEFAULT_RELATIONSHIP.to_owned(),
        }
    }
}

impl Build<Person> for PersonBuilder {
    open spec fn violations(&self) -> Seq<Violation> {
        draft_violations(self@)
    }

    /// Validates the name and the email, settles the relationship, and
    /// builds the person if nothing was wrong.
    fn build(&mut self) -> (outcome: Result<Person, ValidationErrors>)
        ensures
            outcome matches Ok(person) ==> person@ == built_person(old(self)@) && valid_person(
                person@,
            ),
    {
        let mut errs = Errors::new();
        let name = match self.validate_name() {
            Ok(name) => name,
            Err(error) => {
                errs.append(error);
                String::new()
            },
        };
        assert(described(errs@) =~= required_violations("name"@, self@.name));
        let relationship = self.get_relationship_or_default();
        let email = match self.validate_email() {
            Ok(email) => email,
            Err(error) => {
                errs.append(error);
                None
            },
        };
        assert(described(errs@) =~= draft_violations(self@));
        if errs.is_empty() {
            proof {
                reveal_strlit("Co-Authored-By");
            }
            Ok(Person { name, relationship, email })
        } else {
            Err(errs)
        }
    }
}

} // verus!
