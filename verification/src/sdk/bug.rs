//! Faults of the SDK or of the environment that runs the guest, reported
//! as values in place of panics: a panic costs the guest its instance.

use vstd::prelude::*;
use crate::data::text_view;

verus! {

/// A bug in the SDK or in the environment that runs the guest.
#[derive(Debug)]
pub struct Bug {
    /// What the failed operation said of itself.
    pub source: Option<String>,
}

impl View for Bug {
    type V = Option<Seq<char>>;

    open spec fn view(&self) -> Option<Seq<char>> {
        text_view(self.source)
    }
}

impl Bug {
    /// What a bug says of itself.
    pub fn to_string(&self) -> (s: String)
        ensures
            s@ == "bug detected"@,
    {
        "bug detected".to_owned()
    }
}

/// Results whose error is a bug.
pub trait BugContext<T, E>: Sized {
    /// What `wrap_bug` makes of the result.
    spec fn wrapped(self) -> Result<T, Option<Seq<char>>>;

    /// The value, or the bug that the error stands for.
    fn wrap_bug(self) -> (r: Result<T, Bug>)
        ensures
            match r {
                Ok(value) => self.wrapped() == Ok::<T, Option<Seq<char>>>(value),
                Err(bug) => self.wrapped() == Err::<T, Option<Seq<char>>>(bug@),
            },
    ;
}

impl<T> BugContext<T, String> for Result<T, String> {
    open spec fn wrapped(self) -> Result<T, Option<Seq<char>>> {
        match self {
            Ok(value) => Ok(value),
            Err(source) => Err(Some(source@)),
        }
    }

    fn wrap_bug(self) -> (r: Result<T, Bug>) {
        match self {
            Ok(value) => Ok(value),
            Err(source) => Err(Bug { source: Some(source) }),
        }
    }
}

} // verus!
