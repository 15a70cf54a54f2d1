use vstd::prelude::*;

verus! {

/// The textual form of a URI.
///
/// The library treats a URI as opaque, pre-validated text: it is emitted
/// verbatim when a [`Link`](crate::Link) is rendered and never inspected.
/// Callers that hold a structured URI value from another crate convert it
/// to its string form before handing it to the library.
#[derive(Debug, Clone)]
pub struct Uri {
    pub(crate) text: String,
}

impl View for Uri {
    type V = Seq<char>;

    closed spec fn view(&self) -> Seq<char> {
        self.text@
    }
}

impl DeepView for Uri {
    type V = Seq<char>;

    open spec fn deep_view(&self) -> Seq<char> {
        self.view()
    }
}

impl Uri {
    /// Wraps the textual form of a URI.
    pub fn new(text: String) -> (r: Uri)
        ensures
            r@ == text@,
    {
        Uri { text }
    }

    /// Returns the URI's text.
    pub fn as_str(&self) -> (r: &str)
        ensures
            r@ == self@,
    {
        self.text.as_str()
    }

    /// Consumes the URI, returning its text.
    pub fn into_string(self) -> (r: String)
        ensures
            r@ == self@,
    {
        self.text
    }
}

} // verus!
