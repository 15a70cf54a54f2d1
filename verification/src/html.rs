use crate::block_is_link;
use crate::block_is_list_item;
use crate::content::Content;
use crate::joins_next;
use crate::joins_prev;
use crate::Block;
use crate::BlockView;
use crate::Level;
use crate::Link;
use crate::LinkView;
use crate::ListState;
use crate::Markup;
use crate::update_list_state;
use vstd::prelude::*;

verus! {

/// The anchor element of a link: the label is the anchor text, or the URI
/// itself when there is no label.
pub open spec fn spec_html_anchor(l: LinkView) -> Seq<char> {
    match l.label {
        Some(label) => "<a href=\""@ + l.uri + "\">"@ + label + "</a>"@,
        None => "<a href=\""@ + l.uri + "\">"@ + l.uri + "</a>"@,
    }
}

/// The tagged-markup text of one block.
///
/// `prev_same` and `next_same` say whether the neighbouring block belongs
/// to the same run kind; they matter only for links and list items. A run
/// is wrapped in one `<ul>`/`</ul>` pair — opened at the first member,
/// closed after the last — while an isolated link renders as a paragraph
/// and an isolated list item as a lone member tag. A preformatted block's
/// alt text is not emitted in this dialect.
pub open spec fn spec_html_block(b: BlockView, prev_same: bool, next_same: bool) -> Seq<char> {
    match b {
        BlockView::Text(c) => "<p>"@ + c + "</p>\n"@,
        BlockView::Link(l) => {
            if !prev_same && !next_same {
                "<p>"@ + spec_html_anchor(l) + "</p>\n"@
            } else {
                let member = "<li>"@ + spec_html_anchor(l) + "</li>\n"@;
                let opened = if prev_same {
                    member
                } else {
                    "<ul>\n"@ + member
                };
                if next_same {
                    opened
                } else {
                    opened + "</ul>\n"@
                }
            }
        },
        BlockView::Heading(level, c) => match level {
            Level::One => "<h1>"@ + c + "</h1>\n"@,
            Level::Two => "<h2>"@ + c + "</h2>\n"@,
            Level::Three => "<h3>"@ + c + "</h3>\n"@,
        },
        BlockView::ListItem(c) => {
            let member = "<li>"@ + c + "</li>\n"@;
            let opened = if !prev_same && next_same {
                "<ul>\n"@ + member
            } else {
                member
            };
            if prev_same && !next_same {
                opened + "</ul>\n"@
            } else {
                opened
            }
        },
        BlockView::Quote(c) => "<blockquote>"@ + c + "</blockquote>\n"@,
        BlockView::Preformatted(p) => "<pre>\n"@ + p.text + "\n</pre>\n"@,
        BlockView::Empty => Seq::empty(),
    }
}

/// The tagged-markup text of the first `n` blocks of `s`, in order, each
/// rendered with its run context.
pub open spec fn spec_html_prefix(s: Seq<BlockView>, n: int) -> Seq<char>
    decreases n,
{
    if n <= 0 {
        Seq::empty()
    } else {
        spec_html_prefix(s, n - 1) + spec_html_block(s[n - 1], joins_prev(s, n - 1), joins_next(s, n - 1))
    }
}

/// Appends the anchor element of `l`.
fn append_html_anchor(out: &mut String, l: &Link)
    ensures
        final(out)@ == old(out)@ + spec_html_anchor(l@),
{
    out.append("<a href=\"");
    out.append(l.uri().as_str());
    out.append("\">");
    match l.label() {
        Some(label) => out.append(label.as_str()),
        None => out.append(l.uri().as_str()),
    }
    out.append("</a>");
    assert(out@ =~= old(out)@ + spec_html_anchor(l@));
}

/// Appends a link block, placed by the state the list-run machine took on
/// consuming it.
fn append_html_link(out: &mut String, l: &Link, state: ListState)
    ensures
        final(out)@ == old(out)@ + spec_html_block(
            BlockView::Link(l@),
            state is InList || state is Exiting,
            state is Entering || state is InList,
        ),
{
    if state == ListState::NotInList {
        out.append("<p>");
        append_html_anchor(out, l);
        out.append("</p>\n");
    } else {
        if state == ListState::Entering {
            out.append("<ul>\n");
        }
        out.append("<li>");
        append_html_anchor(out, l);
        out.append("</li>\n");
        if state == ListState::Exiting {
            out.append("</ul>\n");
        }
    }
    assert(out@ =~= old(out)@ + spec_html_block(
        BlockView::Link(l@),
        state is InList || state is Exiting,
        state is Entering || state is InList,
    ));
}

/// Appends a list-item block, placed by the state the list-run machine
/// took on consuming it.
fn append_html_list_item(out: &mut String, c: &Content, state: ListState)
    ensures
        final(out)@ == old(out)@ + spec_html_block(
            BlockView::ListItem(c@),
            state is InList || state is Exiting,
            state is Entering || state is InList,
        ),
{
    if state == ListState::Entering {
        out.append("<ul>\n");
    }
    out.append("<li>");
    out.append(c.as_str());
    out.append("</li>\n");
    if state == ListState::Exiting {
        out.append("</ul>\n");
    }
    assert(out@ =~= old(out)@ + spec_html_block(
        BlockView::ListItem(c@),
        state is InList || state is Exiting,
        state is Entering || state is InList,
    ));
}

/// A run of three consecutive links whose neighbours are of another kind
/// renders as exactly one container: one open marker before the first
/// member, one close marker after the last, and none between them.
pub proof fn lemma_link_run_of_three(
    s: Seq<BlockView>,
    i: int,
    l0: LinkView,
    l1: LinkView,
    l2: LinkView,
)
    requires
        0 <= i,
        i + 3 <= s.len(),
        s[i] == BlockView::Link(l0),
        s[i + 1] == BlockView::Link(l1),
        s[i + 2] == BlockView::Link(l2),
        i > 0 ==> !(s[i - 1] is Link),
        i + 3 < s.len() ==> !(s[i + 3] is Link),
    ensures
        spec_html_prefix(s, i + 3) == spec_html_prefix(s, i) + "<ul>\n"@ + ("<li>"@
            + spec_html_anchor(l0) + "</li>\n"@) + ("<li>"@ + spec_html_anchor(l1) + "</li>\n"@) + (
        "<li>"@ + spec_html_anchor(l2) + "</li>\n"@) + "</ul>\n"@,
{
    assert(spec_html_prefix(s, i + 1) == spec_html_prefix(s, i) + spec_html_block(
        s[i],
        false,
        true,
    ));
    assert(spec_html_prefix(s, i + 2) == spec_html_prefix(s, i + 1) + spec_html_block(
        s[i + 1],
        true,
        true,
    ));
    assert(spec_html_prefix(s, i + 3) == spec_html_prefix(s, i + 2) + spec_html_block(
        s[i + 2],
        true,
        false,
    ));
    assert(spec_html_prefix(s, i + 3) =~= spec_html_prefix(s, i) + "<ul>\n"@ + ("<li>"@
        + spec_html_anchor(l0) + "</li>\n"@) + ("<li>"@ + spec_html_anchor(l1) + "</li>\n"@) + (
    "<li>"@ + spec_html_anchor(l2) + "</li>\n"@) + "</ul>\n"@);
}

/// A run of links directly followed by a run of list items renders as two
/// distinct containers: the first run's close marker stands before the
/// second run's open marker, because the two kinds never share a run.
pub proof fn lemma_adjacent_runs_two_containers(
    s: Seq<BlockView>,
    i: int,
    l0: LinkView,
    l1: LinkView,
    c0: Seq<char>,
    c1: Seq<char>,
)
    requires
        0 <= i,
        i + 4 <= s.len(),
        s[i] == BlockView::Link(l0),
        s[i + 1] == BlockView::Link(l1),
        s[i + 2] == BlockView::ListItem(c0),
        s[i + 3] == BlockView::ListItem(c1),
        i > 0 ==> !(s[i - 1] is Link),
        i + 4 < s.len() ==> !(s[i + 4] is ListItem),
    ensures
        spec_html_prefix(s, i + 4) == spec_html_prefix(s, i) + "<ul>\n"@ + ("<li>"@
            + spec_html_anchor(l0) + "</li>\n"@) + ("<li>"@ + spec_html_anchor(l1) + "</li>\n"@)
            + "</ul>\n"@ + "<ul>\n"@ + ("<li>"@ + c0 + "</li>\n"@) + ("<li>"@ + c1 + "</li>\n"@)
            + "</ul>\n"@,
{
    assert(spec_html_prefix(s, i + 1) == spec_html_prefix(s, i) + spec_html_block(
        s[i],
        false,
        true,
    ));
    assert(spec_html_prefix(s, i + 2) == spec_html_prefix(s, i + 1) + spec_html_block(
        s[i + 1],
        true,
        false,
    ));
    assert(spec_html_prefix(s, i + 3) == spec_html_prefix(s, i + 2) + spec_html_block(
        s[i + 2],
        false,
        true,
    ));
    assert(spec_html_prefix(s, i + 4) == spec_html_prefix(s, i + 3) + spec_html_block(
        s[i + 3],
        true,
        false,
    ));
    assert(spec_html_prefix(s, i + 4) =~= spec_html_prefix(s, i) + "<ul>\n"@ + ("<li>"@
        + spec_html_anchor(l0) + "</li>\n"@) + ("<li>"@ + spec_html_anchor(l1) + "</li>\n"@)
        + "</ul>\n"@ + "<ul>\n"@ + ("<li>"@ + c0 + "</li>\n"@) + ("<li>"@ + c1 + "</li>\n"@)
        + "</ul>\n"@);
}

/// A link with no same-kind neighbour renders in its standalone, paragraph
/// form, with no container marker on either side.
pub proof fn lemma_isolated_link_unwrapped(s: Seq<BlockView>, i: int, l: LinkView)
    requires
        0 <= i < s.len(),
        s[i] == BlockView::Link(l),
        i > 0 ==> !(s[i - 1] is Link),
        i + 1 < s.len() ==> !(s[i + 1] is Link),
    ensures
        spec_html_prefix(s, i + 1) == spec_html_prefix(s, i) + ("<p>"@ + spec_html_anchor(l)
            + "</p>\n"@),
{
    assert(spec_html_prefix(s, i + 1) == spec_html_prefix(s, i) + spec_html_block(
        s[i],
        false,
        false,
    ));
}

/// The tagged-markup formatter: links and list items form wrapped runs,
/// every other block maps to one tagged line.
pub struct Html;

impl Markup for Html {
    open spec fn spec_markup(blocks: Seq<BlockView>) -> Seq<char> {
        spec_html_prefix(blocks, blocks.len() as int)
    }

    fn markup(blocks: &[Block]) -> (out: String) {
        let ghost s = blocks.deep_view();
        let mut out = String::new();
        let mut link_state = ListState::NotInList;
        let mut item_state = ListState::NotInList;
        let n = blocks.len();
        let mut i: usize = 0;
        while i < n
            invariant
                s == blocks.deep_view(),
                n == blocks@.len(),
                i <= n,
                out@ == spec_html_prefix(s, i as int),
                (link_state is Entering || link_state is InList) <==> (0 < i && i < n
                    && s[i - 1] is Link && s[i as int] is Link),
                (item_state is Entering || item_state is InList) <==> (0 < i && i < n
                    && s[i - 1] is ListItem && s[i as int] is ListItem),
            decreases n - i,
        {
            match &blocks[i] {
                Block::Text(c) => {
                    out.append("<p>");
                    out.append(c.as_str());
                    out.append("</p>\n");
                },
                Block::Link(l) => {
                    let next_same = i + 1 < n && block_is_link(&blocks[i + 1]);
                    update_list_state(&mut link_state, next_same);
                    append_html_link(&mut out, l, link_state);
                    proof {
                        assert(joins_prev(s, i as int) == (link_state is InList
                            || link_state is Exiting));
                        assert(joins_next(s, i as int) == (link_state is Entering
                            || link_state is InList));
                    }
                },
                Block::Heading(level, c) => {
                    match level {
                        Level::One => out.append("<h1>"),
                        Level::Two => out.append("<h2>"),
                        Level::Three => out.append("<h3>"),
                    }
                    out.append(c.as_str());
                    match level {
                        Level::One => out.append("</h1>\n"),
                        Level::Two => out.append("</h2>\n"),
                        Level::Three => out.append("</h3>\n"),
                    }
                },
                Block::ListItem(c) => {
                    let next_same = i + 1 < n && block_is_list_item(&blocks[i + 1]);
                    update_list_state(&mut item_state, next_same);
                    append_html_list_item(&mut out, c, item_state);
                    proof {
                        assert(joins_prev(s, i as int) == (item_state is InList
                            || item_state is Exiting));
                        assert(joins_next(s, i as int) == (item_state is Entering
                            || item_state is InList));
                    }
                },
                Block::Quote(c) => {
                    out.append("<blockquote>");
                    out.append(c.as_str());
                    out.append("</blockquote>\n");
                },
                Block::Preformatted(p) => {
                    out.append("<pre>\n");
                    out.append(p.text().as_str());
                    out.append("\n</pre>\n");
                },
                Block::Empty => {},
            }
            assert(out@ =~= spec_html_prefix(s, i + 1));
            i += 1;
        }
        out
    }
}

} // verus!
