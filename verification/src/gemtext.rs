use crate::Block;
use crate::BlockView;
use crate::Level;
use crate::Markup;
use vstd::prelude::*;

verus! {

/// The line prefix a heading of the given rank receives.
pub open spec fn spec_heading_prefix(level: Level) -> Seq<char> {
    match level {
        Level::One => "# "@,
        Level::Two => "## "@,
        Level::Three => "### "@,
    }
}

/// The plain-line text of one block: exactly one line per block, except
/// preformatted text, which becomes a fenced multi-line group.
pub open spec fn spec_gemtext_block(b: BlockView) -> Seq<char> {
    match b {
        BlockView::Text(c) => c + "\n"@,
        BlockView::Link(l) => match l.label {
            Some(label) => "=> "@ + l.uri + " "@ + label + "\n"@,
            None => "=> "@ + l.uri + "\n"@,
        },
        BlockView::Heading(level, c) => spec_heading_prefix(level) + c + "\n"@,
        BlockView::ListItem(c) => "* "@ + c + "\n"@,
        BlockView::Quote(c) => "> "@ + c + "\n"@,
        BlockView::Preformatted(p) => match p.alt {
            Some(alt) => "```"@ + alt + "\n"@ + p.text + "\n```\n"@,
            None => "```\n"@ + p.text + "\n```\n"@,
        },
        BlockView::Empty => "\n"@,
    }
}

/// The plain-line text of the first `n` blocks of `s`, in order.
pub open spec fn spec_gemtext_prefix(s: Seq<BlockView>, n: int) -> Seq<char>
    decreases n,
{
    if n <= 0 {
        Seq::empty()
    } else {
        spec_gemtext_prefix(s, n - 1) + spec_gemtext_block(s[n - 1])
    }
}

/// The plain-line formatter: every block stands alone, one line each, with
/// no run wrapping.
pub struct Gemtext;

impl Markup for Gemtext {
    open spec fn spec_markup(blocks: Seq<BlockView>) -> Seq<char> {
        spec_gemtext_prefix(blocks, blocks.len() as int)
    }

    fn markup(blocks: &[Block]) -> (out: String) {
        let ghost s = blocks.deep_view();
        let mut out = String::new();
        let n = blocks.len();
        let mut i: usize = 0;
        while i < n
            invariant
                s == blocks.deep_view(),
                n == blocks@.len(),
                i <= n,
                out@ == spec_gemtext_prefix(s, i as int),
            decreases n - i,
        {
            match &blocks[i] {
                Block::Text(c) => {
                    out.append(c.as_str());
                    out.append("\n");
                },
                Block::Link(l) => {
                    match l.label() {
                        Some(label) => {
                            out.append("=> ");
                            out.append(l.uri().as_str());
                            out.append(" ");
                            out.append(label.as_str());
                            out.append("\n");
                        },
                        None => {
                            out.append("=> ");
                            out.append(l.uri().as_str());
                            out.append("\n");
                        },
                    }
                },
                Block::Heading(level, c) => {
                    match level {
                        Level::One => out.append("# "),
                        Level::Two => out.append("## "),
                        Level::Three => out.append("### "),
                    }
                    out.append(c.as_str());
                    out.append("\n");
                },
                Block::ListItem(c) => {
                    out.append("* ");
                    out.append(c.as_str());
                    out.append("\n");
                },
                Block::Quote(c) => {
                    out.append("> ");
                    out.append(c.as_str());
                    out.append("\n");
                },
                Block::Preformatted(p) => {
                    match p.alt() {
                        Some(alt) => {
                            out.append("```");
                            out.append(alt.as_str());
                            out.append("\n");
                        },
                        None => {
                            out.append("```\n");
                        },
                    }
                    out.append(p.text().as_str());
                    out.append("\n```\n");
                },
                Block::Empty => {
                    out.append("\n");
                },
            }
            assert(out@ =~= spec_gemtext_prefix(s, i + 1));
            i += 1;
        }
        out
    }
}

} // verus!
