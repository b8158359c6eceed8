//! Faults of the host itself, as opposed to faults of a guest or of the database.

use vstd::prelude::*;
use crate::data::text_view;

verus! {

/// An invariant of the host that did not hold.
#[derive(Debug)]
pub struct Bug {
    pub description: String,
    /// What the failed operation said of itself.
    pub source: Option<String>,
}

/// A bug as a mathematical value.
pub ghost struct BugView {
    pub description: Seq<char>,
    pub source: Option<Seq<char>>,
}

impl View for Bug {
    type V = BugView;

    open spec fn view(&self) -> BugView {
        BugView { description: self.description@, source: text_view(self.source) }
    }
}

/// What every report of a bug begins with.
pub open spec fn report_prefix() -> Seq<char> {
    "internal error: "@
}

/// What stands between the description and the source.
pub open spec fn report_separator() -> Seq<char> {
    ": "@
}

impl BugView {
    /// The report of the bug: `internal error: {description}`, followed by
    /// `: {source}` where there is one.
    pub open spec fn report(self) -> Seq<char> {
        match self.source {
            Some(source) => report_prefix() + self.description + report_separator() + source,
            None => report_prefix() + self.description,
        }
    }
}

impl Bug {
    /// The report of the bug as text.
    pub fn to_string(&self) -> (s: String)
        ensures
            s@ == self@.report(),
    {
        let mut s = "internal error: ".to_owned();
        s.append(self.description.as_str());
        match &self.source {
            Some(source) => {
                s.append(": ");
                s.append(source.as_str());
            },
            None => {},
        }
        s
    }
}

/// Results that turn into a bug where they hold no value.
pub trait Context<T, E>: Sized {
    /// What `wrap_bug` makes of the value.
    spec fn wrapped(self, description: Seq<char>) -> Result<T, BugView>;

    /// The value, or the bug described by `description`.
    fn wrap_bug(self, description: &str) -> (r: Result<T, Bug>)
        ensures
            match r {
                Ok(value) => self.wrapped(description@) == Ok::<T, BugView>(value),
                Err(bug) => self.wrapped(description@) == Err::<T, BugView>(bug@),
            },
    ;
}

impl<T> Context<T, String> for Result<T, String> {
    open spec fn wrapped(self, description: Seq<char>) -> Result<T, BugView> {
        match self {
            Ok(value) => Ok(value),
            Err(source) => Err(BugView { description, source: Some(source@) }),
        }
    }

    fn wrap_bug(self, description: &str) -> (r: Result<T, Bug>) {
        match self {
            Ok(value) => Ok(value),
            Err(source) => Err(Bug { description: description.to_owned(), source: Some(source) }),
        }
    }
}

impl<T> Context<T, ()> for Option<T> {
    open spec fn wrapped(self, description: Seq<char>) -> Result<T, BugView> {
        match self {
            Some(value) => Ok(value),
            None => Err(BugView { description, source: None }),
        }
    }

    fn wrap_bug(self, description: &str) -> (r: Result<T, Bug>) {
        match self {
            Some(value) => Ok(value),
            None => Err(Bug { description: description.to_owned(), source: None }),
        }
    }
}

} // verus!
