//! The terminal leaf of an error chain, and the capability of an error value
//! to describe itself.

use vstd::prelude::*;

verus! {

/// The capability of an error value to describe itself: it renders to text and
/// may expose one underlying cause. Chains are at most one level deep, so the
/// exposed cause is always a terminal [`ErrorCause`].
pub trait Describe {
    /// The rendered text of this error, as a sequence of characters.
    spec fn text_spec(&self) -> Seq<char>;

    /// The rendered text of the underlying cause, if one is held.
    spec fn source_spec(&self) -> Option<Seq<char>>;

    /// Render this error as text.
    fn render_text(&self) -> (r: String)
        ensures
            r@ == self.text_spec(),
    ;

    /// The underlying cause of this error, if one is held.
    fn chained_source(&self) -> (r: Option<&ErrorCause>)
        ensures
            r is Some <==> self.source_spec() is Some,
            r matches Some(c) ==> self.source_spec() == Some(c@),
    ;
}

/// A snapshot of the original description of an upstream failure. It is a
/// terminal leaf: it never wraps a further cause.
#[derive(Debug)]
pub struct ErrorCause {
    description: String,
}

impl View for ErrorCause {
    type V = Seq<char>;

    closed spec fn view(&self) -> Seq<char> {
        self.description@
    }
}

impl ErrorCause {
    /// Create a new `ErrorCause` holding `description`.
    pub fn new(description: &str) -> (r: ErrorCause)
        ensures
            r@ == description@,
    {
        ErrorCause { description: description.to_owned() }
    }
}

impl Describe for ErrorCause {
    /// An `ErrorCause` renders to exactly its stored description.
    open spec fn text_spec(&self) -> Seq<char> {
        self@
    }

    /// An `ErrorCause` never holds a further cause.
    open spec fn source_spec(&self) -> Option<Seq<char>> {
        None
    }

    fn render_text(&self) -> (r: String) {
        self.description.clone()
    }

    fn chained_source(&self) -> (r: Option<&ErrorCause>) {
        None
    }
}

} // verus!
