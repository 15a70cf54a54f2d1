//! Build small documents from typed content blocks and render them into
//! one of several markup dialects.
//!
//! A document is an ordered sequence of [`Block`]s: headings, links,
//! paragraph text, list items, quotes, preformatted text and blank
//! separator lines. A [`Markup`] format engine walks the sequence once and
//! emits the complete output text: [`Gemtext`] is a line-oriented
//! plain-text dialect, [`Html`] a tagged dialect, and [`Markdown`] a
//! lightweight one. The tagged and lightweight dialects consult a shared
//! list-run state machine ([`ListState`]) to decide where a run of
//! adjacent links or list items begins and ends, wrapping whole runs while
//! leaving isolated occurrences unwrapped.
//!
//! Every format engine carries a contract stating exactly which text it
//! returns, as a function of the block sequence's mathematical view, and
//! the [`Document`] accumulator's validation states exactly which verdict
//! it returns. Rendering never fails: validation is a construction-time
//! concern, and a sequence reaches an engine only once its contents are
//! established.

mod content;
mod document;
mod error;
mod gemtext;
mod html;
mod link;
mod list_state;
mod markdown;
mod preformatted;
mod sealed;
mod uri;

pub use content::Content;
pub use content::content_ok;
pub use content::content_verdict;
pub use content::validate;
pub use document::block_ok;
pub use document::block_verdict;
pub use document::doc_verdict;
pub use document::Document;
pub use document::lemma_block_verdict_ok;
pub use document::lemma_doc_verdict_all_ok;
pub use document::lemma_validate_idempotent;
pub use error::Error;
pub use gemtext::Gemtext;
pub use gemtext::spec_gemtext_block;
pub use gemtext::spec_gemtext_prefix;
pub use gemtext::spec_heading_prefix;
pub use html::Html;
pub use html::lemma_adjacent_runs_two_containers;
pub use html::lemma_isolated_link_unwrapped;
pub use html::lemma_link_run_of_three;
pub use html::spec_html_anchor;
pub use html::spec_html_block;
pub use html::spec_html_prefix;
pub use link::lemma_link_from_uri;
pub use link::Link;
pub use link::LinkView;
pub use link::spec_link_from_uri;
pub use list_state::ListState;
pub use list_state::spec_update_list_state;
pub use list_state::update_list_state;
pub use markdown::Markdown;
pub use markdown::spec_find_newline;
pub use markdown::spec_lines;
pub use markdown::spec_markdown_block;
pub use markdown::spec_markdown_link_text;
pub use markdown::spec_markdown_prefix;
pub use markdown::spec_markdown_trim;
pub use markdown::spec_md_pre_body;
pub use markdown::spec_md_pre_prefix;
pub use markdown::spec_strip_cr;
pub use preformatted::Preformatted;
pub use preformatted::PreformattedView;
pub use uri::Uri;

use vstd::prelude::*;

verus! {

/// Heading rank of a [`Block::Heading`].
#[derive(Debug, Clone, Copy, PartialEq, Eq, Structural)]
pub enum Level {
    One,
    Two,
    Three,
}

/// One semantic unit of a document.
///
/// A document is an ordered sequence of these; the order is the reading
/// order and the only thing that drives rendering.
#[derive(Debug, Clone)]
pub enum Block {
    Text(Content),
    Link(Link),
    Heading(Level, Content),
    ListItem(Content),
    Quote(Content),
    Preformatted(Preformatted),
    Empty,
}

/// The mathematical value of a [`Block`]: the same shape, with every text
/// payload replaced by its character sequence.
pub ghost enum BlockView {
    Text(Seq<char>),
    Link(LinkView),
    Heading(Level, Seq<char>),
    ListItem(Seq<char>),
    Quote(Seq<char>),
    Preformatted(PreformattedView),
    Empty,
}

impl View for Block {
    type V = BlockView;

    open spec fn view(&self) -> BlockView {
        match self {
            Block::Text(c) => BlockView::Text(c@),
            Block::Link(l) => BlockView::Link(l@),
            Block::Heading(lv, c) => BlockView::Heading(*lv, c@),
            Block::ListItem(c) => BlockView::ListItem(c@),
            Block::Quote(c) => BlockView::Quote(c@),
            Block::Preformatted(p) => BlockView::Preformatted(p@),
            Block::Empty => BlockView::Empty,
        }
    }
}

impl DeepView for Block {
    type V = BlockView;

    open spec fn deep_view(&self) -> BlockView {
        self.view()
    }
}

/// Two blocks belong to the same run kind exactly when both are links or
/// both are list items; only those two kinds form runs.
pub open spec fn same_run_kind(a: BlockView, b: BlockView) -> bool {
    ||| (a is Link && b is Link)
    ||| (a is ListItem && b is ListItem)
}

/// Whether the block before position `i` belongs to the same run kind as
/// the block at `i`.
pub open spec fn joins_prev(s: Seq<BlockView>, i: int) -> bool {
    0 < i < s.len() && same_run_kind(s[i - 1], s[i])
}

/// Whether the block after position `i` belongs to the same run kind as
/// the block at `i`.
pub open spec fn joins_next(s: Seq<BlockView>, i: int) -> bool {
    0 <= i && i + 1 < s.len() && same_run_kind(s[i + 1], s[i])
}

/// Whether the block is a link.
pub(crate) fn block_is_link(b: &Block) -> (r: bool)
    ensures
        r == (b@ is Link),
{
    match b {
        Block::Link(_) => true,
        _ => false,
    }
}

/// Whether the block is a list item.
pub(crate) fn block_is_list_item(b: &Block) -> (r: bool)
    ensures
        r == (b@ is ListItem),
{
    match b {
        Block::ListItem(_) => true,
        _ => false,
    }
}

/// A format engine: a pure function from an ordered block sequence to the
/// complete text of one markup dialect.
///
/// `spec_markup` is the mathematical statement of the dialect;
/// `markup` computes exactly that text.
pub trait Markup {
    /// The output the dialect owes to a block sequence.
    spec fn spec_markup(blocks: Seq<BlockView>) -> Seq<char>;

    /// Renders the block sequence as one output text.
    fn markup(blocks: &[Block]) -> (out: String)
        ensures
            out@ == Self::spec_markup(blocks.deep_view()),
    ;
}

/// Renders a carried block sequence with a chosen format engine.
///
/// The trait is bounded by a private marker, so only carriers named by this
/// library implement it.
pub trait ToMarkup: Sized + sealed::Sealed {
    /// The block sequence the carrier holds.
    spec fn blocks_view(&self) -> Seq<BlockView>;

    /// Renders the carried blocks with format `F`.
    fn to_markup<F: Markup>(self) -> (out: String)
        ensures
            out@ == F::spec_markup(self.blocks_view()),
    ;
}

impl ToMarkup for Vec<Block> {
    open spec fn blocks_view(&self) -> Seq<BlockView> {
        self.deep_view()
    }

    fn to_markup<F: Markup>(self) -> (out: String) {
        let blocks = self.as_slice();
        proof {
            assert(blocks.deep_view() =~~= self.deep_view());
        }
        F::markup(blocks)
    }
}

impl<'a> ToMarkup for &'a [Block] {
    open spec fn blocks_view(&self) -> Seq<BlockView> {
        self.deep_view()
    }

    fn to_markup<F: Markup>(self) -> (out: String) {
        F::markup(self)
    }
}

/// Rendering is deterministic: a block sequence and a format admit exactly
/// one output, so two renders of the same sequence agree. Together with
/// [`Markup::markup`]'s contract, two calls on equal inputs return equal
/// text.
pub proof fn lemma_markup_deterministic<F: Markup>(
    blocks: Seq<BlockView>,
    out1: Seq<char>,
    out2: Seq<char>,
)
    requires
        out1 == F::spec_markup(blocks),
        out2 == F::spec_markup(blocks),
    ensures
        out1 == out2,
{
}

} // verus!
