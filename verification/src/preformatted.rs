use crate::content::Content;
use vstd::prelude::*;

verus! {

/// The mathematical value of a [`Preformatted`] block: the verbatim text and
/// the optional alt text.
pub ghost struct PreformattedView {
    pub text: Seq<char>,
    pub alt: Option<Seq<char>>,
}

/// Preformatted text with optional alt text.
///
/// The main text is exempt from the no-line-break rule of
/// [`Content`]: it stands for a verbatim, possibly multi-line block.
#[derive(Debug, Clone)]
pub struct Preformatted {
    pub(crate) text: String,
    pub(crate) alt: Option<Content>,
}

impl View for Preformatted {
    type V = PreformattedView;

    closed spec fn view(&self) -> PreformattedView {
        PreformattedView { text: self.text@, alt: self.alt.deep_view() }
    }
}

impl DeepView for Preformatted {
    type V = PreformattedView;

    open spec fn deep_view(&self) -> PreformattedView {
        self.view()
    }
}

impl Preformatted {
    /// Constructs a new `Preformatted` block.
    pub fn new(text: String, alt: Option<Content>) -> (r: Preformatted)
        ensures
            r@ == (PreformattedView { text: text@, alt: alt.deep_view() }),
    {
        Preformatted { text, alt }
    }

    /// Returns a reference to the text.
    pub fn text(&self) -> (r: &String)
        ensures
            r@ == self@.text,
    {
        &self.text
    }

    /// Returns a mutable reference to the text.
    pub fn text_mut(&mut self) -> (r: &mut String)
        ensures
            r@ == old(self)@.text,
            final(self)@ == (PreformattedView { text: final(r)@, ..old(self)@ }),
    {
        &mut self.text
    }

    /// Returns a reference to the alt text.
    pub fn alt(&self) -> (r: &Option<Content>)
        ensures
            r.deep_view() == self@.alt,
    {
        &self.alt
    }

    /// Returns a mutable reference to the alt text.
    pub fn alt_mut(&mut self) -> (r: &mut Option<Content>)
        ensures
            r.deep_view() == old(self)@.alt,
            final(self)@ == (PreformattedView { alt: final(r).deep_view(), ..old(self)@ }),
    {
        &mut self.alt
    }
}

} // verus!
