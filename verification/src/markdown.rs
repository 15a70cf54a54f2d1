use crate::block_is_link;
use crate::block_is_list_item;
use crate::joins_next;
use crate::joins_prev;
use crate::spec_heading_prefix;
use crate::Block;
use crate::BlockView;
use crate::Level;
use crate::Link;
use crate::LinkView;
use crate::ListState;
use crate::Markup;
use crate::update_list_state;
use vstd::prelude::*;

verus! {

/// The position of the first `'\n'` in `s` at or after `from`, or `s.len()`
/// when there is none.
pub open spec fn spec_find_newline(s: Seq<char>, from: int) -> int
    decreases s.len() - from,
{
    if from < 0 || from >= s.len() {
        s.len() as int
    } else if s[from] == '\n' {
        from
    } else {
        spec_find_newline(s, from + 1)
    }
}

/// A line with one trailing carriage return removed, as happens to lines
/// that were terminated by `"\r\n"`.
pub open spec fn spec_strip_cr(line: Seq<char>) -> Seq<char> {
    if line.len() > 0 && line[line.len() - 1] == '\r' {
        line.drop_last()
    } else {
        line
    }
}

/// The lines of a text: split at `'\n'`, with a carriage return before the
/// break removed; a final line break ends the last line rather than opening
/// an empty one.
pub open spec fn spec_lines(s: Seq<char>) -> Seq<Seq<char>>
    decreases s.len(),
{
    if s.len() == 0 {
        Seq::empty()
    } else {
        let i = spec_find_newline(s, 0);
        if 0 <= i < s.len() {
            seq![spec_strip_cr(s.subrange(0, i))] + spec_lines(s.subrange(i + 1, s.len() as int))
        } else {
            seq![s]
        }
    }
}

/// The first `n` lines of `ls`, each indented by four spaces, joined by
/// single line breaks.
pub open spec fn spec_md_pre_prefix(ls: Seq<Seq<char>>, n: int) -> Seq<char>
    decreases n,
{
    if n <= 0 {
        Seq::empty()
    } else if n == 1 {
        "    "@ + ls[0]
    } else {
        spec_md_pre_prefix(ls, n - 1) + "\n    "@ + ls[n - 1]
    }
}

/// The body a preformatted text owes: each of its lines indented by four
/// spaces, with no fence syntax.
pub open spec fn spec_md_pre_body(s: Seq<char>) -> Seq<char> {
    spec_md_pre_prefix(spec_lines(s), spec_lines(s).len() as int)
}

/// The inline text of a link: the label names the target, or the URI names
/// itself when there is no label.
pub open spec fn spec_markdown_link_text(l: LinkView) -> Seq<char> {
    match l.label {
        Some(label) => "["@ + label + "]("@ + l.uri + ")"@,
        None => "["@ + l.uri + "]("@ + l.uri + ")"@,
    }
}

/// The lightweight-markup text of one block.
///
/// No explicit container tokens exist in this dialect: a run of links or
/// list items is separated from its surroundings by one blank line on each
/// side, while members inside a run follow each other on single lines. An
/// isolated link renders as a plain paragraph-like line without the list
/// bullet; list items keep their bullet in every position.
pub open spec fn spec_markdown_block(b: BlockView, prev_same: bool, next_same: bool) -> Seq<char> {
    match b {
        BlockView::Text(c) => c + "\n\n"@,
        BlockView::Link(l) => {
            if !prev_same && !next_same {
                spec_markdown_link_text(l) + "\n\n"@
            } else {
                "* "@ + spec_markdown_link_text(l) + if next_same {
                    "\n"@
                } else {
                    "\n\n"@
                }
            }
        },
        BlockView::Heading(level, c) => spec_heading_prefix(level) + c + "\n\n"@,
        BlockView::ListItem(c) => "* "@ + c + if next_same {
            "\n"@
        } else {
            "\n\n"@
        },
        BlockView::Quote(c) => "> "@ + c + "\n\n"@,
        BlockView::Preformatted(p) => spec_md_pre_body(p.text) + "\n\n"@,
        BlockView::Empty => Seq::empty(),
    }
}

/// The lightweight-markup text of the first `n` blocks of `s`, in order,
/// each rendered with its run context, before the final trim.
pub open spec fn spec_markdown_prefix(s: Seq<BlockView>, n: int) -> Seq<char>
    decreases n,
{
    if n <= 0 {
        Seq::empty()
    } else {
        spec_markdown_prefix(s, n - 1) + spec_markdown_block(
            s[n - 1],
            joins_prev(s, n - 1),
            joins_next(s, n - 1),
        )
    }
}

/// The final trim: the systematic rendering leaves a trailing blank line,
/// and exactly one of its two line breaks is removed, so that the whole
/// output ends in a single line break.
pub open spec fn spec_markdown_trim(r: Seq<char>) -> Seq<char> {
    if r.len() >= 2 && r[r.len() - 1] == '\n' && r[r.len() - 2] == '\n' {
        r.drop_last()
    } else {
        r
    }
}

/// `spec_find_newline` names the first line break: no break lies before
/// position `i`, and `i` is a break or the end.
proof fn lemma_find_newline(s: Seq<char>, from: int, i: int)
    requires
        0 <= from <= i <= s.len(),
        forall|k: int| from <= k < i ==> s[k] != '\n',
        i < s.len() ==> s[i] == '\n',
    ensures
        spec_find_newline(s, from) == if i < s.len() {
            i
        } else {
            s.len() as int
        },
    decreases i - from,
{
    if from < i {
        lemma_find_newline(s, from + 1, i);
    }
}

/// Splits a text into its lines, as `spec_lines` states them.
fn split_lines(text: &str) -> (v: Vec<String>)
    ensures
        v.deep_view() == spec_lines(text@),
{
    let n = text.unicode_len();
    let mut v: Vec<String> = Vec::new();
    let mut start: usize = 0;
    proof {
        assert(text@.subrange(0, n as int) =~= text@);
    }
    while start < n
        invariant
            n == text@.len(),
            start <= n,
            v.deep_view() + spec_lines(text@.subrange(start as int, n as int)) == spec_lines(
                text@,
            ),
        decreases n - start,
    {
        let ghost rem = text@.subrange(start as int, n as int);
        let mut j = start;
        while j < n && text.get_char(j) != '\n'
            invariant
                n == text@.len(),
                start <= j <= n,
                forall|k: int| start <= k < j ==> text@[k] != '\n',
            decreases n - j,
        {
            j += 1;
        }
        proof {
            assert(forall|k: int| 0 <= k < j - start ==> rem[k] != '\n');
            if j < n {
                assert(rem[j - start] == '\n');
            }
            lemma_find_newline(rem, 0, j - start);
        }
        if j < n {
            let end = if j > start && text.get_char(j - 1) == '\r' {
                j - 1
            } else {
                j
            };
            let seg = text.substring_char(start, end);
            v.push(seg.to_owned());
            proof {
                assert(spec_strip_cr(rem.subrange(0, j - start)) =~= text@.subrange(
                    start as int,
                    end as int,
                ));
                assert(rem.subrange(j - start + 1, rem.len() as int) =~= text@.subrange(
                    j + 1,
                    n as int,
                ));
                assert(v.deep_view() + spec_lines(text@.subrange(j + 1, n as int)) =~~= spec_lines(
                    text@,
                ));
            }
            start = j + 1;
        } else {
            let seg = text.substring_char(start, n);
            v.push(seg.to_owned());
            proof {
                assert(seg@ =~= rem);
                assert(spec_lines(text@.subrange(n as int, n as int)) =~= Seq::<Seq<char>>::empty());
                assert(v.deep_view() + spec_lines(text@.subrange(n as int, n as int)) =~~= spec_lines(
                    text@,
                ));
            }
            start = n;
        }
    }
    proof {
        assert(text@.subrange(n as int, n as int) =~= Seq::<char>::empty());
        assert(v.deep_view() + spec_lines(Seq::<char>::empty()) =~~= v.deep_view());
    }
    v
}

/// Appends the indented lines of a preformatted text.
fn append_markdown_pre(out: &mut String, text: &str)
    ensures
        final(out)@ == old(out)@ + spec_md_pre_body(text@),
{
    let lines = split_lines(text);
    let ghost ls = spec_lines(text@);
    let k = lines.len();
    let mut i: usize = 0;
    while i < k
        invariant
            k == lines@.len(),
            i <= k,
            ls == lines.deep_view(),
            out@ == old(out)@ + spec_md_pre_prefix(ls, i as int),
        decreases k - i,
    {
        if i == 0 {
            out.append("    ");
        } else {
            out.append("\n    ");
        }
        out.append(lines[i].as_str());
        proof {
            assert(out@ =~= old(out)@ + spec_md_pre_prefix(ls, i + 1));
        }
        i += 1;
    }
    proof {
        assert(out@ =~= old(out)@ + spec_md_pre_body(text@));
    }
}

/// Appends the inline text of a link.
fn append_markdown_link_text(out: &mut String, l: &Link)
    ensures
        final(out)@ == old(out)@ + spec_markdown_link_text(l@),
{
    out.append("[");
    match l.label() {
        Some(label) => out.append(label.as_str()),
        None => out.append(l.uri().as_str()),
    }
    out.append("](");
    out.append(l.uri().as_str());
    out.append(")");
    assert(out@ =~= old(out)@ + spec_markdown_link_text(l@));
}

/// Appends a link block, placed by the state the list-run machine took on
/// consuming it.
fn append_markdown_link(out: &mut String, l: &Link, state: ListState)
    ensures
        final(out)@ == old(out)@ + spec_markdown_block(
            BlockView::Link(l@),
            state is InList || state is Exiting,
            state is Entering || state is InList,
        ),
{
    if state == ListState::NotInList {
        append_markdown_link_text(out, l);
        out.append("\n\n");
    } else {
        out.append("* ");
        append_markdown_link_text(out, l);
        if state == ListState::Entering || state == ListState::InList {
            out.append("\n");
        } else {
            out.append("\n\n");
        }
    }
    assert(out@ =~= old(out)@ + spec_markdown_block(
        BlockView::Link(l@),
        state is InList || state is Exiting,
        state is Entering || state is InList,
    ));
}

/// The lightweight-markup formatter: blocks are separated by blank lines,
/// run members follow each other on single lines, and the whole output ends
/// in a single line break.
pub struct Markdown;

impl Markup for Markdown {
    open spec fn spec_markup(blocks: Seq<BlockView>) -> Seq<char> {
        spec_markdown_trim(spec_markdown_prefix(blocks, blocks.len() as int))
    }

    fn markup(blocks: &[Block]) -> (out: String) {
        let ghost s = blocks.deep_view();
        let mut out = String::new();
        let mut link_state = ListState::NotInList;
        let mut item_state = ListState::NotInList;
        let n = blocks.len();
        let mut i: usize = 0;
        while i < n
            invariant
                s == blocks.deep_view(),
                n == blocks@.len(),
                i <= n,
                out@ == spec_markdown_prefix(s, i as int),
                (link_state is Entering || link_state is InList) <==> (0 < i && i < n
                    && s[i - 1] is Link && s[i as int] is Link),
                (item_state is Entering || item_state is InList) <==> (0 < i && i < n
                    && s[i - 1] is ListItem && s[i as int] is ListItem),
            decreases n - i,
        {
            match &blocks[i] {
                Block::Text(c) => {
                    out.append(c.as_str());
                    out.append("\n\n");
                },
                Block::Link(l) => {
                    let next_same = i + 1 < n && block_is_link(&blocks[i + 1]);
                    update_list_state(&mut link_state, next_same);
                    append_markdown_link(&mut out, l, link_state);
                    proof {
                        assert(joins_prev(s, i as int) == (link_state is InList
                            || link_state is Exiting));
                        assert(joins_next(s, i as int) == (link_state is Entering
                            || link_state is InList));
                    }
                },
                Block::Heading(level, c) => {
                    match level {
                        Level::One => out.append("# "),
                        Level::Two => out.append("## "),
                        Level::Three => out.append("### "),
                    }
                    out.append(c.as_str());
                    out.append("\n\n");
                },
                Block::ListItem(c) => {
                    let next_same = i + 1 < n && block_is_list_item(&blocks[i + 1]);
                    update_list_state(&mut item_state, next_same);
                    out.append("* ");
                    out.append(c.as_str());
                    if item_state == ListState::Entering || item_state == ListState::InList {
                        out.append("\n");
                    } else {
                        out.append("\n\n");
                    }
                    proof {
                        assert(joins_prev(s, i as int) == (item_state is InList
                            || item_state is Exiting));
                        assert(joins_next(s, i as int) == (item_state is Entering
                            || item_state is InList));
                    }
                },
                Block::Quote(c) => {
                    out.append("> ");
                    out.append(c.as_str());
                    out.append("\n\n");
                },
                Block::Preformatted(p) => {
                    append_markdown_pre(&mut out, p.text().as_str());
                    out.append("\n\n");
                },
                Block::Empty => {},
            }
            assert(out@ =~= spec_markdown_prefix(s, i + 1));
            i += 1;
        }
        let total = out.as_str().unicode_len();
        if total >= 2 {
            let last = out.as_str().get_char(total - 1);
            let before_last = out.as_str().get_char(total - 2);
            if last == '\n' && before_last == '\n' {
                let trimmed = out.as_str().substring_char(0, total - 1);
                let trimmed_string = trimmed.to_owned();
                proof {
                    assert(trimmed_string@ =~= spec_markdown_trim(
                        spec_markdown_prefix(s, s.len() as int),
                    ));
                }
                return trimmed_string;
            }
        }
        out
    }
}

} // verus!
