use crate::error::Error;
use vstd::prelude::*;

verus! {

/// Whether a piece of text may serve as [`Content`]: it is non-empty and
/// holds no line-break character.
pub open spec fn content_ok(s: Seq<char>) -> bool {
    &&& s.len() > 0
    &&& forall|i: int| 0 <= i < s.len() ==> s[i] != '\n' && s[i] != '\r'
}

/// The verdict of validation on a piece of text: `None` when the text may
/// serve as [`Content`], otherwise the error it earns. Emptiness is checked
/// first, so the empty string earns [`Error::EmptyContent`].
pub open spec fn content_verdict(s: Seq<char>) -> Option<Error> {
    if s.len() == 0 {
        Some(Error::EmptyContent)
    } else if exists|i: int| 0 <= i < s.len() && (s[i] == '\n' || s[i] == '\r') {
        Some(Error::InvalidContent)
    } else {
        None
    }
}

/// Checks that `text` is non-empty and free of `'\n'` and `'\r'`.
pub fn validate(text: &str) -> (r: Result<(), Error>)
    ensures
        r is Ok <==> content_ok(text@),
        r is Err ==> Some(r->Err_0) == content_verdict(text@),
{
    let n = text.unicode_len();
    if n == 0 {
        return Err(Error::EmptyContent);
    }
    let mut i: usize = 0;
    while i < n
        invariant
            n == text@.len(),
            i <= n,
            forall|j: int| 0 <= j < i ==> text@[j] != '\n' && text@[j] != '\r',
        decreases n - i,
    {
        let c = text.get_char(i);
        if c == '\n' || c == '\r' {
            return Err(Error::InvalidContent);
        }
        i += 1;
    }
    Ok(())
}

/// Text that is known to be non-empty and without line-break characters.
///
/// Lines delineate blocks in the plain-line dialect, so a single piece of
/// content must never span more than one line (preformatted text is the one
/// exemption and is kept outside this type). The checked constructor
/// [`Content::new`] enforces this; [`Content::new_unchecked`] trusts the
/// caller and may leave a value that fails [`Content::validate`].
#[derive(Debug, Clone)]
pub struct Content {
    pub(crate) text: String,
}

impl View for Content {
    type V = Seq<char>;

    closed spec fn view(&self) -> Seq<char> {
        self.text@
    }
}

impl DeepView for Content {
    type V = Seq<char>;

    open spec fn deep_view(&self) -> Seq<char> {
        self.view()
    }
}

impl Content {
    /// Constructs a new, checked `Content`: the text must be non-empty and
    /// free of `'\n'` and `'\r'`.
    pub fn new(text: String) -> (r: Result<Content, Error>)
        ensures
            r is Ok <==> content_ok(text@),
            r is Ok ==> r->Ok_0@ == text@,
            r is Err ==> Some(r->Err_0) == content_verdict(text@),
    {
        match validate(text.as_str()) {
            Ok(()) => Ok(Content { text }),
            Err(e) => Err(e),
        }
    }

    /// Constructs a new, unchecked `Content`.
    ///
    /// Nothing is checked: handing over text that is empty or holds a
    /// line-break character leaves a value that later renders as broken
    /// markup and that [`Content::validate`] rejects. That is a logic
    /// error of the caller, not a safety issue.
    pub fn new_unchecked(text: String) -> (r: Content)
        ensures
            r@ == text@,
    {
        Content { text }
    }

    /// Re-checks the invariant, as [`validate`] does on raw text.
    pub fn validate(&self) -> (r: Result<(), Error>)
        ensures
            r is Ok <==> content_ok(self@),
            r is Err ==> Some(r->Err_0) == content_verdict(self@),
    {
        validate(self.text.as_str())
    }

    /// Returns the backing text.
    pub fn as_str(&self) -> (r: &str)
        ensures
            r@ == self@,
    {
        self.text.as_str()
    }

    /// Consumes the value, returning the backing text.
    pub fn into_string(self) -> (r: String)
        ensures
            r@ == self@,
    {
        self.text
    }
}

} // verus!
