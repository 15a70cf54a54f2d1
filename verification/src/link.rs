use crate::content::Content;
use crate::uri::Uri;
use vstd::prelude::*;

verus! {

/// The mathematical value of a [`Link`]: the URI's text and the optional
/// label's text.
pub ghost struct LinkView {
    pub uri: Seq<char>,
    pub label: Option<Seq<char>>,
}

/// A URI with an optional label.
#[derive(Debug, Clone)]
pub struct Link {
    pub(crate) uri: Uri,
    pub(crate) label: Option<Content>,
}

impl View for Link {
    type V = LinkView;

    closed spec fn view(&self) -> LinkView {
        LinkView { uri: self.uri@, label: self.label.deep_view() }
    }
}

impl DeepView for Link {
    type V = LinkView;

    open spec fn deep_view(&self) -> LinkView {
        self.view()
    }
}

impl Link {
    /// Constructs a new `Link` from a URI and an optional label.
    pub fn new(uri: Uri, label: Option<Content>) -> (r: Link)
        ensures
            r@ == (LinkView { uri: uri@, label: label.deep_view() }),
    {
        Link { uri, label }
    }

    /// Returns a reference to the URI.
    pub fn uri(&self) -> (r: &Uri)
        ensures
            r@ == self@.uri,
    {
        &self.uri
    }

    /// Returns a mutable reference to the URI.
    pub fn uri_mut(&mut self) -> (r: &mut Uri)
        ensures
            r@ == old(self)@.uri,
            final(self)@ == (LinkView { uri: final(r)@, ..old(self)@ }),
    {
        &mut self.uri
    }

    /// Returns a reference to the label.
    pub fn label(&self) -> (r: &Option<Content>)
        ensures
            r.deep_view() == self@.label,
    {
        &self.label
    }

    /// Returns a mutable reference to the label.
    pub fn label_mut(&mut self) -> (r: &mut Option<Content>)
        ensures
            r.deep_view() == old(self)@.label,
            final(self)@ == (LinkView { label: final(r).deep_view(), ..old(self)@ }),
    {
        &mut self.label
    }
}

/// The link a bare URI converts to: that URI, with no label.
pub closed spec fn spec_link_from_uri(uri: Uri) -> Link {
    Link { uri, label: None }
}

/// What a converted bare URI looks like at the view level: the URI's text
/// and no label.
pub proof fn lemma_link_from_uri(uri: Uri)
    ensures
        spec_link_from_uri(uri)@ == (LinkView { uri: uri@, label: None }),
{
}

impl core::convert::From<Uri> for Link {
    fn from(uri: Uri) -> (r: Link) {
        Link { uri, label: None }
    }
}

impl vstd::std_specs::convert::FromSpecImpl<Uri> for Link {
    open spec fn obeys_from_spec() -> bool {
        true
    }

    open spec fn from_spec(uri: Uri) -> Link {
        spec_link_from_uri(uri)
    }
}

} // verus!
