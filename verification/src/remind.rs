//! The primary error value: a message plus an optional chained cause.

use vstd::prelude::*;

use crate::cause::Describe;
use crate::cause::ErrorCause;

verus! {

/// The abstract state of an [`ErrorRemind`]: its message and, when one is
/// held, the rendered text of its cause.
pub struct RemindView {
    /// The error message.
    pub message: Seq<char>,
    /// The rendered text of the cause, if one is held.
    pub cause: Option<Seq<char>>,
}

impl RemindView {
    /// The state after chaining a cause whose rendered text is `d`: the
    /// message is kept and the cause, present or not, is replaced by `d`.
    pub open spec fn with_cause(self, d: Seq<char>) -> RemindView {
        RemindView { cause: Some(d), ..self }
    }

    /// The rendered text: the message, then `", "` and the cause's text when
    /// a cause is held, then a line terminator.
    pub open spec fn rendered(self) -> Seq<char> {
        match self.cause {
            Some(d) => self.message + ", "@ + d + "\n"@,
            None => self.message + "\n"@,
        }
    }
}

/// The primary error value: an error message and an optional single-level
/// cause. Immutable once built; [`ErrorRemind::cause`] returns a new value.
#[derive(Debug)]
pub struct ErrorRemind {
    message: String,
    cause: Option<ErrorCause>,
}

impl View for ErrorRemind {
    type V = RemindView;

    closed spec fn view(&self) -> RemindView {
        RemindView {
            message: self.message@,
            cause: match self.cause {
                Some(c) => Some(c@),
                None => None,
            },
        }
    }
}

impl ErrorRemind {
    /// Create a new `ErrorRemind` with `message` and no cause.
    pub fn new(message: &str) -> (r: ErrorRemind)
        ensures
            r@ == (RemindView { message: message@, cause: None }),
    {
        ErrorRemind { cause: None, message: message.to_owned() }
    }

    /// Chain the original cause of the error: the result keeps the message
    /// and holds a snapshot of `cause`'s rendered text, replacing any cause
    /// held before.
    pub fn cause<E: Describe>(self, cause: &E) -> (r: ErrorRemind)
        ensures
            r@ == self@.with_cause(cause.text_spec()),
    {
        ErrorRemind { cause: Some(ErrorCause::new(cause.render_text().as_str())), ..self }
    }

    /// Render this error as text: the message, `", "` and the cause's text
    /// when a cause is held, and a trailing line terminator.
    pub fn to_text(&self) -> (r: String)
        ensures
            r@ == self@.rendered(),
    {
        let mut s = self.message.clone();
        match &self.cause {
            Some(c) => {
                s.append(", ");
                let d = c.render_text();
                s.append(d.as_str());
            },
            None => {},
        }
        s.append("\n");
        s
    }
}

impl ErrorRemind {
    /// Convert a plain text value into an `ErrorRemind` with that text as its
    /// message and no cause.
    pub fn from_text(message: &str) -> (r: ErrorRemind)
        ensures
            r@ == (RemindView { message: message@, cause: None }),
    {
        ErrorRemind::new(message)
    }

    /// Convert any describable error into an `ErrorRemind` whose message is
    /// the fixed fallback phrase and whose cause is the error's rendered text.
    pub fn from_error<E: Describe>(e: &E) -> (r: ErrorRemind)
        ensures
            r@ == (RemindView { message: "unexpected error"@, cause: Some(e.text_spec()) }),
    {
        ErrorRemind::new("unexpected error").cause(e)
    }

    /// Convert this error into a generic catch-all I/O error carrying the full
    /// rendered text, for hosts that only understand that kind.
    pub fn into_io_error(self) -> std::io::Error {
        io_error_other(self.to_text())
    }
}

#[verifier::external_type_specification]
#[verifier::external_body]
pub struct ExIoError(std::io::Error);

/// Relies on std::io::Error::new: builds an error of the catch-all kind whose
/// payload is `message`. Nothing is claimed of the opaque result.
#[verifier::external_body]
fn io_error_other(message: String) -> std::io::Error {
    std::io::Error::new(std::io::ErrorKind::Other, message)
}

impl Describe for ErrorRemind {
    /// An `ErrorRemind` renders to its full text, line terminator included.
    open spec fn text_spec(&self) -> Seq<char> {
        self@.rendered()
    }

    /// The rendered text of the held cause, if any.
    open spec fn source_spec(&self) -> Option<Seq<char>> {
        self@.cause
    }

    fn render_text(&self) -> (r: String) {
        self.to_text()
    }

    fn chained_source(&self) -> (r: Option<&ErrorCause>) {
        match &self.cause {
            Some(c) => Some(c),
            None => None,
        }
    }
}

/// Chaining a cause twice retains only the later one: the earlier snapshot is
/// replaced, never nested.
pub proof fn lemma_with_cause_replaces(v: RemindView, d1: Seq<char>, d2: Seq<char>)
    ensures
        v.with_cause(d1).with_cause(d2) == v.with_cause(d2),
{
}

/// Rendering is a function of the stored state alone: any two renderings of
/// one value agree.
pub proof fn lemma_render_repeatable(e: &ErrorRemind, r1: Seq<char>, r2: Seq<char>)
    requires
        r1 == e@.rendered(),
        r2 == e@.rendered(),
    ensures
        r1 == r2,
{
}

} // verus!
