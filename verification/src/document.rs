use crate::content::content_ok;
use crate::content::content_verdict;
use crate::content::Content;
use crate::error::Error;
use crate::link::Link;
use crate::preformatted::Preformatted;
use crate::uri::Uri;
use crate::Block;
use crate::BlockView;
use crate::Level;
use vstd::prelude::*;

verus! {

/// Whether every content-bearing field of the block satisfies the content
/// invariant. A preformatted block's main text is unconstrained, and so is
/// a URI.
pub open spec fn block_ok(b: BlockView) -> bool {
    match b {
        BlockView::Text(c) => content_ok(c),
        BlockView::Link(l) => match l.label {
            Some(label) => content_ok(label),
            None => true,
        },
        BlockView::Heading(_, c) => content_ok(c),
        BlockView::ListItem(c) => content_ok(c),
        BlockView::Quote(c) => content_ok(c),
        BlockView::Preformatted(p) => match p.alt {
            Some(alt) => content_ok(alt),
            None => true,
        },
        BlockView::Empty => true,
    }
}

/// The validation verdict on one block: the verdict on its content-bearing
/// field, if it has one.
pub open spec fn block_verdict(b: BlockView) -> Option<Error> {
    match b {
        BlockView::Text(c) => content_verdict(c),
        BlockView::Link(l) => match l.label {
            Some(label) => content_verdict(label),
            None => None,
        },
        BlockView::Heading(_, c) => content_verdict(c),
        BlockView::ListItem(c) => content_verdict(c),
        BlockView::Quote(c) => content_verdict(c),
        BlockView::Preformatted(p) => match p.alt {
            Some(alt) => content_verdict(alt),
            None => None,
        },
        BlockView::Empty => None,
    }
}

/// The validation verdict on a sequence of blocks: the verdict of the first
/// failing block, or `None` when every block passes.
pub open spec fn doc_verdict(s: Seq<BlockView>) -> Option<Error>
    decreases s.len(),
{
    if s.len() == 0 {
        None
    } else if block_verdict(s[0]) is Some {
        block_verdict(s[0])
    } else {
        doc_verdict(s.drop_first())
    }
}

/// One block earns no verdict exactly when it is valid.
pub proof fn lemma_block_verdict_ok(b: BlockView)
    ensures
        block_verdict(b) is None <==> block_ok(b),
{
}

/// A block sequence earns no verdict exactly when every one of its blocks
/// is valid.
pub proof fn lemma_doc_verdict_all_ok(s: Seq<BlockView>)
    ensures
        doc_verdict(s) is None <==> (forall|k: int| 0 <= k < s.len() ==> block_ok(s[k])),
    decreases s.len(),
{
    if s.len() > 0 {
        let rest = s.drop_first();
        lemma_doc_verdict_all_ok(rest);
        lemma_block_verdict_ok(s[0]);
        if doc_verdict(s) is None {
            assert forall|k: int| 0 <= k < s.len() implies block_ok(s[k]) by {
                if k > 0 {
                    assert(rest[k - 1] == s[k]);
                    assert(block_ok(rest[k - 1]));
                }
            }
        }
        if forall|k: int| 0 <= k < s.len() ==> block_ok(s[k]) {
            assert(block_ok(s[0]));
            assert forall|k: int| 0 <= k < rest.len() implies block_ok(rest[k]) by {
                assert(rest[k] == s[k + 1]);
            }
            assert(doc_verdict(rest) is None);
        }
    }
}

/// Validation is idempotent: any two results that meet
/// [`Document::validate`]'s contract on the same block sequence are equal,
/// so calling `validate` twice on one document yields the same verdict both
/// times.
pub proof fn lemma_validate_idempotent(
    doc: Seq<BlockView>,
    r1: Result<(), Error>,
    r2: Result<(), Error>,
)
    requires
        r1 is Ok <==> doc_verdict(doc) is None,
        r1 is Err ==> Some(r1->Err_0) == doc_verdict(doc),
        r2 is Ok <==> doc_verdict(doc) is None,
        r2 is Err ==> Some(r2->Err_0) == doc_verdict(doc),
    ensures
        r1 == r2,
{
    match (r1, r2) {
        (Ok(()), Ok(())) => {
            assert(r1 is Ok && r2 is Ok);
            assert(r1->Ok_0 == r2->Ok_0);
            assert(r1 == r2);
        },
        (Err(e1), Err(e2)) => {
            assert(Some(e1) == doc_verdict(doc));
            assert(Some(e2) == doc_verdict(doc));
            assert(e1 == e2);
            assert(r1 == Err::<(), Error>(e1));
            assert(r2 == Err::<(), Error>(e2));
        },
        (Ok(()), Err(_)) => {
            assert(false);
        },
        (Err(_), Ok(())) => {
            assert(false);
        },
    }
}

/// A document accumulator: an append-only builder over the block sequence,
/// one appender per block variant.
///
/// Appenders that take raw text defer validation: they wrap the text
/// unchecked, and the terminal [`Document::validate`] or
/// [`Document::build`] call walks every content-bearing field and surfaces
/// the first failure. A sequence is handed to a format engine only through
/// [`Document::build`], so a partially validated sequence never reaches
/// rendering.
#[derive(Debug, Clone)]
pub struct Document {
    blocks: Vec<Block>,
}

impl View for Document {
    type V = Seq<BlockView>;

    closed spec fn view(&self) -> Seq<BlockView> {
        self.blocks.deep_view()
    }
}

impl Default for Document {
    /// The default document is empty.
    fn default() -> (r: Document)
        ensures
            r@ == Seq::<BlockView>::empty(),
    {
        Document::new()
    }
}

impl Document {
    /// Constructs a new, empty `Document`.
    pub fn new() -> (r: Document)
        ensures
            r@ == Seq::<BlockView>::empty(),
    {
        let d = Document { blocks: Vec::new() };
        proof {
            assert(d@ =~= Seq::<BlockView>::empty());
        }
        d
    }

    /// Appends one block.
    pub fn push(self, block: Block) -> (r: Document)
        ensures
            r@ == self@.push(block@),
    {
        let mut d = self;
        let ghost before = d@;
        let ghost bv = block@;
        d.blocks.push(block);
        proof {
            assert(d@ =~= before.push(bv));
        }
        d
    }

    /// Appends text, unchecked.
    pub fn text(self, text: String) -> (r: Document)
        ensures
            r@ == self@.push(BlockView::Text(text@)),
    {
        let content = Content::new_unchecked(text);
        self.push(Block::Text(content))
    }

    /// Appends a link without a label.
    pub fn link(self, uri: Uri) -> (r: Document)
        ensures
            r@ == self@.push(BlockView::Link(crate::LinkView { uri: uri@, label: None })),
    {
        self.push(Block::Link(Link::new(uri, None)))
    }

    /// Appends a link with a label, the label unchecked.
    pub fn link_with_label(self, uri: Uri, label: String) -> (r: Document)
        ensures
            r@ == self@.push(
                BlockView::Link(crate::LinkView { uri: uri@, label: Some(label@) }),
            ),
    {
        let content = Content::new_unchecked(label);
        self.push(Block::Link(Link::new(uri, Some(content))))
    }

    /// Appends a heading of rank one, unchecked.
    pub fn h1(self, text: String) -> (r: Document)
        ensures
            r@ == self@.push(BlockView::Heading(Level::One, text@)),
    {
        let content = Content::new_unchecked(text);
        self.push(Block::Heading(Level::One, content))
    }

    /// Appends a heading of rank two, unchecked.
    pub fn h2(self, text: String) -> (r: Document)
        ensures
            r@ == self@.push(BlockView::Heading(Level::Two, text@)),
    {
        let content = Content::new_unchecked(text);
        self.push(Block::Heading(Level::Two, content))
    }

    /// Appends a heading of rank three, unchecked.
    pub fn h3(self, text: String) -> (r: Document)
        ensures
            r@ == self@.push(BlockView::Heading(Level::Three, text@)),
    {
        let content = Content::new_unchecked(text);
        self.push(Block::Heading(Level::Three, content))
    }

    /// Appends a list item, unchecked.
    pub fn list_item(self, text: String) -> (r: Document)
        ensures
            r@ == self@.push(BlockView::ListItem(text@)),
    {
        let content = Content::new_unchecked(text);
        self.push(Block::ListItem(content))
    }

    /// Appends a quote, unchecked.
    pub fn quote(self, text: String) -> (r: Document)
        ensures
            r@ == self@.push(BlockView::Quote(text@)),
    {
        let content = Content::new_unchecked(text);
        self.push(Block::Quote(content))
    }

    /// Appends preformatted text without alt text.
    pub fn preformatted(self, text: String) -> (r: Document)
        ensures
            r@ == self@.push(
                BlockView::Preformatted(
                    crate::PreformattedView { text: text@, alt: None },
                ),
            ),
    {
        self.push(Block::Preformatted(Preformatted::new(text, None)))
    }

    /// Appends preformatted text with alt text, the alt text unchecked.
    pub fn preformatted_with_alt(self, text: String, alt: String) -> (r: Document)
        ensures
            r@ == self@.push(
                BlockView::Preformatted(
                    crate::PreformattedView { text: text@, alt: Some(alt@) },
                ),
            ),
    {
        let alt_content = Content::new_unchecked(alt);
        self.push(Block::Preformatted(Preformatted::new(text, Some(alt_content))))
    }

    /// Appends an empty line.
    pub fn empty(self) -> (r: Document)
        ensures
            r@ == self@.push(BlockView::Empty),
    {
        self.push(Block::Empty)
    }

    /// Validates every content-bearing field in the sequence, surfacing the
    /// first failure.
    pub fn validate(&self) -> (r: Result<(), Error>)
        ensures
            r is Ok <==> doc_verdict(self@) is None,
            r is Ok <==> (forall|k: int| 0 <= k < self@.len() ==> block_ok(self@[k])),
            r is Err ==> Some(r->Err_0) == doc_verdict(self@),
    {
        proof {
            lemma_doc_verdict_all_ok(self@);
        }
        let n = self.blocks.len();
        let mut i: usize = 0;
        proof {
            assert(self@.skip(0) =~= self@);
        }
        while i < n
            invariant
                n == self.blocks@.len(),
                i <= n,
                n == self@.len(),
                forall|k: int| 0 <= k < i ==> block_verdict(self@[k]) is None,
                doc_verdict(self@) == doc_verdict(self@.skip(i as int)),
            decreases n - i,
        {
            let verdict = match &self.blocks[i] {
                Block::Text(c) => c.validate(),
                Block::Link(l) => match l.label() {
                    Some(label) => label.validate(),
                    None => Ok(()),
                },
                Block::Heading(_, c) => c.validate(),
                Block::ListItem(c) => c.validate(),
                Block::Quote(c) => c.validate(),
                Block::Preformatted(p) => match p.alt() {
                    Some(alt) => alt.validate(),
                    None => Ok(()),
                },
                Block::Empty => Ok(()),
            };
            proof {
                assert(self@.skip(i as int)[0] == self@[i as int]);
                assert(self@.skip(i as int).drop_first() =~= self@.skip(i + 1));
            }
            match verdict {
                Ok(()) => {},
                Err(e) => {
                    return Err(e);
                },
            }
            i += 1;
        }
        proof {
            assert(self@.skip(n as int) =~= Seq::<BlockView>::empty());
        }
        Ok(())
    }

    /// Consumes the builder, returning the block sequence if every block is
    /// valid, and the first validation failure otherwise.
    pub fn build(self) -> (r: Result<Vec<Block>, Error>)
        ensures
            r is Ok <==> doc_verdict(self@) is None,
            r is Ok <==> (forall|k: int| 0 <= k < self@.len() ==> block_ok(self@[k])),
            r is Ok ==> r->Ok_0.deep_view() == self@,
            r is Err ==> Some(r->Err_0) == doc_verdict(self@),
    {
        match self.validate() {
            Ok(()) => Ok(self.blocks),
            Err(e) => Err(e),
        }
    }
}

} // verus!
