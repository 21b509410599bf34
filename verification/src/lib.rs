//! A small error-annotation library: it converts "absence of value" or
//! "failure" signals (missing optional values, failed operations, false
//! booleans, plain text messages) into a uniform error value carrying a
//! human-readable message and an optional chained cause.

use vstd::prelude::*;

mod cause;
mod remind;

pub use cause::Describe;
pub use cause::ErrorCause;
pub use remind::ErrorRemind;
pub use remind::RemindView;
pub use remind::lemma_render_repeatable;
pub use remind::lemma_with_cause_replaces;

verus! {

/// Whether `c` has the White_Space property, the class that text trimming
/// strips.
pub open spec fn is_space_char(c: char) -> bool {
    c == '\t' || c == '\n' || c == '\u{b}' || c == '\u{c}' || c == '\r' || c == ' '
        || c == '\u{85}' || c == '\u{a0}' || c == '\u{1680}' || c == '\u{2000}' || c == '\u{2001}'
        || c == '\u{2002}' || c == '\u{2003}' || c == '\u{2004}' || c == '\u{2005}'
        || c == '\u{2006}' || c == '\u{2007}' || c == '\u{2008}' || c == '\u{2009}'
        || c == '\u{200a}' || c == '\u{2028}' || c == '\u{2029}' || c == '\u{202f}'
        || c == '\u{205f}' || c == '\u{3000}'
}

/// Whether `s` is blank: empty, or made of whitespace alone.
pub open spec fn is_blank(s: Seq<char>) -> bool {
    forall|i: int| 0 <= i < s.len() ==> is_space_char(s[i])
}

/// Whether `c` has the White_Space property.
fn is_space(c: char) -> (r: bool)
    ensures
        r == is_space_char(c),
{
    c == '\t' || c == '\n' || c == '\u{b}' || c == '\u{c}' || c == '\r' || c == ' '
        || c == '\u{85}' || c == '\u{a0}' || c == '\u{1680}' || c == '\u{2000}' || c == '\u{2001}'
        || c == '\u{2002}' || c == '\u{2003}' || c == '\u{2004}' || c == '\u{2005}'
        || c == '\u{2006}' || c == '\u{2007}' || c == '\u{2008}' || c == '\u{2009}'
        || c == '\u{200a}' || c == '\u{2028}' || c == '\u{2029}' || c == '\u{202f}'
        || c == '\u{205f}' || c == '\u{3000}'
}

/// The method `error`, which converts a value already at hand into either its
/// wrapped success value or a fresh [`ErrorRemind`] built from `message`.
pub trait ErrorOccur<T, M = &'static str> {
    /// What `error` returns: the success value, or an `ErrorRemind`.
    type Output;

    /// The exact relation between the receiver, `message`, and the result of
    /// [`ErrorOccur::error`].
    spec fn occur_spec(self, message: M, r: Self::Output) -> bool;

    /// Use `message` to create the error.
    fn error(self, message: M) -> (r: Self::Output)
        ensures
            self.occur_spec(message, r),
    ;
}

impl<T> ErrorOccur<T> for Option<T> {
    type Output = Result<T, ErrorRemind>;

    /// A present value is passed through; an absent one becomes an
    /// `ErrorRemind` with `message` and no cause.
    open spec fn occur_spec(self, message: &'static str, r: Result<T, ErrorRemind>) -> bool {
        match self {
            Some(v) => r matches Ok(w) && w == v,
            None => r matches Err(e) && e@ == (RemindView { message: message@, cause: None }),
        }
    }

    /// If it is `None`, use `message` to create the error `ErrorRemind`.
    fn error(self, message: &'static str) -> (r: Result<T, ErrorRemind>) {
        match self {
            Some(v) => Ok(v),
            None => Err(ErrorRemind::new(message)),
        }
    }
}

impl<T, E: Describe> ErrorOccur<T> for Result<T, E> {
    type Output = Result<T, ErrorRemind>;

    /// A success is passed through; a failure becomes an `ErrorRemind` with
    /// `message`, chaining the original error's rendered text as its cause.
    open spec fn occur_spec(self, message: &'static str, r: Result<T, ErrorRemind>) -> bool {
        match self {
            Ok(v) => r matches Ok(w) && w == v,
            Err(e) => r matches Err(re) && re@ == (RemindView {
                message: message@,
                cause: Some(e.text_spec()),
            }),
        }
    }

    /// If it is `Err`, use `message` to create the error `ErrorRemind`.
    fn error(self, message: &'static str) -> (r: Result<T, ErrorRemind>) {
        match self {
            Ok(v) => Ok(v),
            Err(ref e) => Err(ErrorRemind::new(message).cause(e)),
        }
    }
}

impl ErrorOccur<bool> for bool {
    type Output = Result<bool, ErrorRemind>;

    /// `true` is passed through; `false` becomes an `ErrorRemind` with
    /// `message` and no cause.
    open spec fn occur_spec(self, message: &'static str, r: Result<bool, ErrorRemind>) -> bool {
        match self {
            true => r matches Ok(b) && b == true,
            false => r matches Err(e) && e@ == (RemindView { message: message@, cause: None }),
        }
    }

    /// If it is `false`, use `message` to create the error `ErrorRemind`.
    fn error(self, message: &'static str) -> (r: Result<bool, ErrorRemind>) {
        match self {
            true => Ok(true),
            false => Err(ErrorRemind::new(message)),
        }
    }
}

impl<T> ErrorOccur<T> for &'static str {
    type Output = Result<T, ErrorRemind>;

    /// A text value is an error already known: the result is always `Err`.
    /// Non-blank text prefixes `message`, joined by `", "`; blank text
    /// collapses to `message` alone.
    open spec fn occur_spec(self, message: &'static str, r: Result<T, ErrorRemind>) -> bool {
        r matches Err(e) && e@ == (RemindView {
            message: if is_blank(self@) {
                message@
            } else {
                self@ + ", "@ + message@
            },
            cause: None,
        })
    }

    /// Use the text itself to create the error `ErrorRemind` directly. It
    /// always returns `Err`.
    fn error(self, message: &'static str) -> (r: Result<T, ErrorRemind>) {
        if check_blank(self) {
            Err(ErrorRemind::new(message))
        } else {
            let mut s = self.to_owned();
            s.append(", ");
            s.append(message);
            Err(ErrorRemind::new(s.as_str()))
        }
    }
}

impl<T> ErrorOccur<T> for String {
    type Output = Result<T, ErrorRemind>;

    /// A text value is an error already known: the result is always `Err`.
    /// Non-blank text prefixes `message`, joined by `", "`; blank text
    /// collapses to `message` alone.
    open spec fn occur_spec(self, message: &'static str, r: Result<T, ErrorRemind>) -> bool {
        r matches Err(e) && e@ == (RemindView {
            message: if is_blank(self@) {
                message@
            } else {
                self@ + ", "@ + message@
            },
            cause: None,
        })
    }

    /// Use the text itself to create the error `ErrorRemind` directly. It
    /// always returns `Err`.
    fn error(self, message: &'static str) -> (r: Result<T, ErrorRemind>) {
        if check_blank(self.as_str()) {
            Err(ErrorRemind::new(message))
        } else {
            let mut s = self;
            s.append(", ");
            s.append(message);
            Err(ErrorRemind::new(s.as_str()))
        }
    }
}

/// For every non-blank text `s`, `s.error(m)` yields `Err`, and the error
/// renders as `s`, then `", "`, then `m`, then the line terminator.
pub proof fn lemma_str_error_nonblank<T>(s: &'static str, m: &'static str, r: Result<
    T,
    ErrorRemind,
>)
    requires
        !is_blank(s@),
        <&'static str as ErrorOccur<T>>::occur_spec(s, m, r),
    ensures
        r matches Err(e) && e@.rendered() == s@ + ", "@ + m@ + "\n"@,
{
}

/// For every blank text `s` (empty or whitespace alone), `s.error(m)` yields
/// `Err`, and the error renders as `m` alone, then the line terminator.
pub proof fn lemma_str_error_blank<T>(s: &'static str, m: &'static str, r: Result<T, ErrorRemind>)
    requires
        is_blank(s@),
        <&'static str as ErrorOccur<T>>::occur_spec(s, m, r),
    ensures
        r matches Err(e) && e@.rendered() == m@ + "\n"@,
{
}

/// For every non-blank owned text `s`, `s.error(m)` yields `Err`, and the
/// error renders as `s`, then `", "`, then `m`, then the line terminator.
pub proof fn lemma_string_error_nonblank<T>(s: String, m: &'static str, r: Result<T, ErrorRemind>)
    requires
        !is_blank(s@),
        <String as ErrorOccur<T>>::occur_spec(s, m, r),
    ensures
        r matches Err(e) && e@.rendered() == s@ + ", "@ + m@ + "\n"@,
{
}

/// For every blank owned text `s`, `s.error(m)` yields `Err`, and the error
/// renders as `m` alone, then the line terminator.
pub proof fn lemma_string_error_blank<T>(s: String, m: &'static str, r: Result<T, ErrorRemind>)
    requires
        is_blank(s@),
        <String as ErrorOccur<T>>::occur_spec(s, m, r),
    ensures
        r matches Err(e) && e@.rendered() == m@ + "\n"@,
{
}

/// For every present optional value, `error` passes the value through as
/// `Ok`; for an absent one it yields `Err`, and the error renders as `m`
/// alone, then the line terminator.
pub proof fn lemma_option_error<T>(o: Option<T>, m: &'static str, r: Result<T, ErrorRemind>)
    requires
        <Option<T> as ErrorOccur<T>>::occur_spec(o, m, r),
    ensures
        o matches Some(v) ==> (r matches Ok(w) && w == v),
        o is None ==> (r matches Err(e) && e@.rendered() == m@ + "\n"@),
{
}

/// For every successful result, `error` passes the value through as `Ok`;
/// for a failed one it yields `Err`, and the error renders as `m`, then
/// `", "`, then the original error's rendered text, then the line terminator.
pub proof fn lemma_result_error<T, E: Describe>(
    o: Result<T, E>,
    m: &'static str,
    r: Result<T, ErrorRemind>,
)
    requires
        <Result<T, E> as ErrorOccur<T>>::occur_spec(o, m, r),
    ensures
        o matches Ok(v) ==> (r matches Ok(w) && w == v),
        o matches Err(e) ==> (r matches Err(re) && re@.rendered() == m@ + ", "@
            + e.text_spec() + "\n"@),
{
}

/// `true.error(m)` yields `Ok(true)`; `false.error(m)` yields `Err`, and the
/// error renders as `m` alone, then the line terminator.
pub proof fn lemma_bool_error(b: bool, m: &'static str, r: Result<bool, ErrorRemind>)
    requires
        <bool as ErrorOccur<bool>>::occur_spec(b, m, r),
    ensures
        b ==> (r matches Ok(w) && w == true),
        !b ==> (r matches Err(e) && e@.rendered() == m@ + "\n"@),
{
}

/// Whether `s` is blank: empty, or made of whitespace alone.
fn check_blank(s: &str) -> (r: bool)
    ensures
        r == is_blank(s@),
{
    let n = s.unicode_len();
    let mut i: usize = 0;
    while i < n
        invariant
            0 <= i <= n,
            n == s@.len(),
            forall|j: int| 0 <= j < i ==> is_space_char(s@[j]),
        decreases n - i,
    {
        if !is_space(s.get_char(i)) {
            return false;
        }
        i = i + 1;
    }
    true
}

} // verus!
