//! The two kinds of failure: a pattern that cannot be compiled, and a scan
//! that cannot be carried out.

use vstd::prelude::*;

verus! {

/// An error of this library.
#[derive(Debug)]
pub enum GrepError {
    /// The pattern or the matcher's configuration was refused when the matcher
    /// was built. Carries the message of the pattern compiler.
    Compile(String),
    /// A scan or a match failed while it ran. Carries the message of the
    /// engine.
    Operational(String),
}

/// What a [`GrepError`] is in contracts: its kind and its message.
pub enum GrepErrorView {
    Compile(Seq<char>),
    Operational(Seq<char>),
}

impl View for GrepError {
    type V = GrepErrorView;

    open spec fn view(&self) -> GrepErrorView {
        match *self {
            GrepError::Compile(m) => GrepErrorView::Compile(m@),
            GrepError::Operational(m) => GrepErrorView::Operational(m@),
        }
    }
}

impl GrepError {
    /// True if and only if the error was raised while a matcher was built.
    pub fn is_compile(&self) -> (r: bool)
        ensures
            r == (self@ is Compile),
    {
        match self {
            GrepError::Compile(_) => true,
            GrepError::Operational(_) => false,
        }
    }

    /// The message that the error carries.
    pub fn message(&self) -> (r: &String)
        ensures
            self@ == GrepErrorView::Compile(r@) || self@ == GrepErrorView::Operational(r@),
            r@ == self.message_spec(),
    {
        match self {
            GrepError::Compile(m) => m,
            GrepError::Operational(m) => m,
        }
    }

    /// The message of the error, whatever its kind.
    pub open spec fn message_spec(&self) -> Seq<char> {
        match *self {
            GrepError::Compile(m) => m@,
            GrepError::Operational(m) => m@,
        }
    }
}

} // verus!
