//! The footer block of a commit message.
//!
//! A [`Footer`] holds at most one thing: the message of a breaking change.
use crate::errors::Displayable;
use crate::model::{Build, ValidationErrors};
use crate::text::optional_text;
use crate::validation::Violation;
use vstd::prelude::*;
use vstd::string::StringExecFns;

verus! {

/// The text of a footer: nothing where no breaking change is noted, else
/// the line `BREAKING CHANGE: <message>` with its line break.
pub open spec fn footer_text(breaking_change: Option<Seq<char>>) -> Seq<char> {
    match breaking_change {
        Some(message) => "BREAKING CHANGE: "@ + message + "\n"@,
        None => Seq::empty(),
    }
}

/// A footer. Its view is the message of the breaking change, if any.
#[derive(Debug)]
pub struct Footer {
    breaking_change: Option<String>,
}

impl View for Footer {
    type V = Option<Seq<char>>;

    closed spec fn view(&self) -> Option<Seq<char>> {
        optional_text(self.breaking_change)
    }
}

impl Footer {
    /// Starts a builder with nothing staged.
    pub fn builder() -> (builder: FooterBuilder)
        ensures
            builder@ is None,
    {
        FooterBuilder::default()
    }
}

impl Displayable for Footer {
    open spec fn rendered(&self) -> Seq<char> {
        footer_text(self@)
    }

    fn display(&self) -> (text: String) {
        match &self.breaking_change {
            Some(message) => {
                let mut text = String::from_str("BREAKING CHANGE: ");
                text.append(message.as_str());
                text.append("\n");
                text
            },
            None => String::new(),
        }
    }
}

/// The staging object of a [`Footer`]. Its view is the staged message of
/// the breaking change, if any.
#[derive(Clone, Debug)]
pub struct FooterBuilder {
    breaking_change: Option<String>,
}

impl View for FooterBuilder {
    type V = Option<Seq<char>>;

    closed spec fn view(&self) -> Option<Seq<char>> {
        optional_text(self.breaking_change)
    }
}

impl Default for FooterBuilder {
    /// A builder with nothing staged.
    fn default() -> (builder: Self)
        ensures
            builder@ is None,
    {
        FooterBuilder { breaking_change: None }
    }
}

impl FooterBuilder {
    /// Stages the message of a breaking change.
    pub fn breaking_change(&mut self, value: &str) -> (builder: &mut Self)
        ensures
            builder@ == Some(value@),
            *final(self) == *final(builder),
    {
        self.breaking_change = Some(value.to_owned());
        self
    }
}

impl Build<Footer> for FooterBuilder {
    /// A footer has no rule to break.
    open spec fn violations(&self) -> Seq<Violation> {
        Seq::empty()
    }

    /// Builds the footer, which always succeeds.
    fn build(&mut self) -> (outcome: Result<Footer, ValidationErrors>)
        ensures
            outcome matches Ok(footer) ==> footer@ == old(self)@,
    {
        Ok(
            Footer {
                breaking_change: match &self.breaking_change {
                    Some(message) => Some(message.clone()),
                    None => None,
                },
            },
        )
    }
}

} // verus!
