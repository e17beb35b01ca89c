//! Wrapping text to the width of the pane.

use std::borrow::Cow;

use vstd::prelude::*;
use vstd::string::*;
use vstd::utf8::encode_utf8;

use crate::chat::line::{
    add_line, add_lines, line_text, lines_view, span_of, Line, LineView, Span, SpanView, Style,
};
use crate::text::{
    cat, chars_of, decimal, decimal_text, is_empty_text, lemma_split_single, replace_char, replaced,
    split, split_on, string_of, views,
};

verus! {

/// Characters of a row of text before its middle is left out.
pub const MAX_RENDER_LINE_CHARS: usize = 4096;

/// What `textwrap::wrap` makes of a text at a width.
pub uninterp spec fn wrapped(text: Seq<char>, width: usize) -> Seq<Seq<char>>;

/// How many columns `UnicodeWidthStr::width` counts for a text.
pub uninterp spec fn display_width(text: Seq<char>) -> usize;

/// `s` without the spaces at its end.
pub open spec fn without_trailing_spaces(s: Seq<char>) -> Seq<char>
    decreases s.len(),
{
    if s.len() > 0 && s.last() == ' ' {
        without_trailing_spaces(s.drop_last())
    } else {
        s
    }
}

/// `textwrap::wrap` breaks a text into rows of at most `width` columns where it
/// can. Which rows come out is given the name `wrapped`; beside the name stand
/// two facts: there is always a row, and a text without a line feed that has
/// fewer bytes than `width` is one row, without the spaces at its end.
#[verifier::external_body]
pub(crate) fn wrap_text(text: &str, width: usize) -> (r: Vec<String>)
    ensures
        views(r@) == wrapped(text@, width),
        r@.len() >= 1,
        !text@.contains('\n') && encode_utf8(text@).len() < width ==> views(r@) == seq![
            without_trailing_spaces(text@),
        ],
{
    textwrap::wrap(text, width).into_iter().map(|piece| piece.into_owned()).collect()
}

/// `UnicodeWidthStr::width` counts the terminal columns of a text; the count is
/// given the name `display_width`.
#[verifier::external_body]
pub(crate) fn text_width(text: &str) -> (r: usize)
    ensures
        r == display_width(text@),
{
    unicode_width::UnicodeWidthStr::width(text)
}

/// A text short enough to be drawn: as it is, or its head and its tail around
/// a note of how many characters are left out.
pub open spec fn truncated(text: Seq<char>) -> Seq<char> {
    if text.len() <= MAX_RENDER_LINE_CHARS {
        text
    } else {
        let head = text.take(MAX_RENDER_LINE_CHARS * 3 / 4);
        let tail = text.skip(text.len() - MAX_RENDER_LINE_CHARS / 4);
        let omitted = (text.len() - MAX_RENDER_LINE_CHARS) as nat;
        head + " ...<"@ + decimal(omitted) + " chars omitted>... "@ + tail
    }
}

/// A text short enough to be drawn; one that already is comes back borrowed.
pub fn truncate_render_text<'a>(text: &'a str) -> (r: Cow<'a, str>)
    ensures
        r@ == truncated(text@),
        r is Borrowed == (text@.len() <= MAX_RENDER_LINE_CHARS),
{
    let v = chars_of(text);
    let count: usize = v.len();
    if count <= MAX_RENDER_LINE_CHARS {
        return Cow::Borrowed(text);
    }
    let head_chars: usize = MAX_RENDER_LINE_CHARS * 3 / 4;
    let tail_chars: usize = MAX_RENDER_LINE_CHARS / 4;
    let omitted: usize = count - (head_chars + tail_chars);
    let mut out = string_of(&v, 0, head_chars);
    out.append(" ...<");
    let digits = decimal_text(omitted as u64);
    out.append(digits.as_str());
    out.append(" chars omitted>... ");
    let tail = string_of(&v, count - tail_chars, count);
    out.append(tail.as_str());
    proof {
        assert(v@.subrange(0, head_chars as int) =~= text@.take(MAX_RENDER_LINE_CHARS * 3 / 4));
        assert(v@.subrange(count - tail_chars, count as int) =~= text@.skip(
            text@.len() - MAX_RENDER_LINE_CHARS / 4,
        ));
    }
    Cow::Owned(out)
}

/// A text short enough to be drawn, owned.
pub fn truncated_text(text: &str) -> (r: String)
    ensures
        r@ == truncated(text@),
{
    match truncate_render_text(text) {
        Cow::Borrowed(s) => s.to_owned(),
        Cow::Owned(s) => s,
    }
}

/// A text short enough to be drawn, from one that may already be owned.
pub fn truncate_render_cow<'a>(text: Cow<'a, str>) -> (r: Cow<'a, str>)
    ensures
        r@ == truncated(text@),
        text@.len() <= MAX_RENDER_LINE_CHARS ==> (r is Borrowed == text is Borrowed),
{
    match text {
        Cow::Borrowed(s) => truncate_render_text(s),
        Cow::Owned(s) => {
            if chars_of(s.as_str()).len() <= MAX_RENDER_LINE_CHARS {
                Cow::Owned(s)
            } else {
                Cow::Owned(truncated_text(s.as_str()))
            }
        },
    }
}

/// A text on one line: each line feed becomes a space. A text without any
/// comes back borrowed.
pub fn collapse_newlines_for_preview<'a>(text: &'a str) -> (r: Cow<'a, str>)
    ensures
        r@ == replaced(text@, '\n', ' '),
        r is Borrowed == !text@.contains('\n'),
{
    let v = chars_of(text);
    if crate::text::find_char(&v, '\n').is_some() {
        Cow::Owned(replace_char(text, '\n', ' '))
    } else {
        proof {
            assert(replaced(text@, '\n', ' ') =~= text@) by {
                assert forall|i: int| 0 <= i < text@.len() implies text@[i] != '\n' by {
                    assert(text@.contains(text@[i]));
                }
            }
        }
        Cow::Borrowed(text)
    }
}

// ---------------------------------------------------------------------------
// Marked paragraphs
// ---------------------------------------------------------------------------

/// How a block of text is marked: the mark in front of its first row, the style
/// of the body, and whether a blank first paragraph still shows the mark.
pub struct Mark {
    pub text: Seq<char>,
    pub style: Style,
    pub body: Style,
    pub shown_when_blank: bool,
}

/// The columns left for text beside a mark.
pub open spec fn body_width(wrap_width: usize) -> usize {
    if wrap_width <= 3 {
        1
    } else {
        (wrap_width - 2) as usize
    }
}

/// The row of one piece of a paragraph: behind the mark where it is the first
/// row of the block, behind the indent elsewhere.
pub open spec fn piece_row(piece: Seq<char>, first: bool, mark: Mark) -> LineView {
    seq![
        if first {
            span_of(mark.text, mark.style)
        } else {
            span_of("  "@, Style::Plain)
        },
        span_of(truncated(piece), mark.body),
    ]
}

/// The rows of the pieces of one paragraph.
pub open spec fn piece_rows(pieces: Seq<Seq<char>>, fresh: bool, mark: Mark) -> Seq<LineView> {
    pieces.map(|i: int, p: Seq<char>| piece_row(p, fresh && i == 0, mark))
}

/// The rows of a block of paragraphs.
pub open spec fn marked_rows(
    paragraphs: Seq<Seq<char>>,
    width: usize,
    mark: Mark,
) -> Seq<LineView>
    decreases paragraphs.len(),
{
    if paragraphs.len() == 0 {
        Seq::empty()
    } else {
        let above = marked_rows(paragraphs.drop_last(), width, mark);
        let p = paragraphs.last();
        if p.len() > 0 {
            above + piece_rows(wrapped(p, width), above.len() == 0, mark)
        } else if above.len() > 0 {
            above.push(Seq::<SpanView>::empty())
        } else if mark.shown_when_blank {
            seq![seq![span_of(mark.text, mark.style)]]
        } else {
            above
        }
    }
}

/// The rows of a text with a mark on its first row and an indent on the others.
pub open spec fn marked_text(text: Seq<char>, wrap_width: usize, mark: Mark) -> Seq<LineView> {
    marked_rows(split_on(text, '\n'), body_width(wrap_width), mark)
}

/// The mark of what the agent says.
pub open spec fn dot_mark(dot_style: Style, text_style: Style) -> Mark {
    Mark { text: "● "@, style: dot_style, body: text_style, shown_when_blank: false }
}

/// The mark of a notice.
pub open spec fn notice_mark(marker: Seq<char>, style: Style) -> Mark {
    Mark { text: marker + " "@, style, body: style, shown_when_blank: false }
}

/// The mark of what the user asked.
pub open spec fn prompt_mark() -> Mark {
    Mark {
        text: "> "@,
        style: Style::UserPrompt,
        body: Style::UserPrompt,
        shown_when_blank: true,
    }
}

/// A text of line feeds alone.
pub open spec fn text_is_blank_lines(text: Seq<char>) -> bool {
    forall|i: int| 0 <= i < text.len() ==> #[trigger] text[i] == '\n'
}

/// A text without line feeds that has fewer bytes than there are columns
/// beside the mark.
pub open spec fn fits_one_row(text: Seq<char>, wrap_width: usize) -> bool {
    text.len() > 0 && !text.contains('\n') && encode_utf8(text).len() < body_width(wrap_width)
}

proof fn lemma_some_paragraph(text: Seq<char>)
    requires
        !text_is_blank_lines(text),
    ensures
        exists|k: int| 0 <= k < split_on(text, '\n').len() && (#[trigger] split_on(text, '\n')[k]).len() > 0,
    decreases text.len(),
{
    if text.len() > 0 {
        let parts = split_on(text, '\n');
        let before = split_on(text.drop_last(), '\n');
        crate::text::law_split_then_join(text.drop_last(), '\n');
        if text.last() != '\n' {
            assert(parts[parts.len() - 1].len() > 0);
        } else {
            assert(!text_is_blank_lines(text.drop_last())) by {
                let i = choose|i: int| 0 <= i < text.len() && #[trigger] text[i] != '\n';
                assert(text.drop_last()[i] != '\n');
            }
            lemma_some_paragraph(text.drop_last());
            let k = choose|k: int| 0 <= k < before.len() && (#[trigger] before[k]).len() > 0;
            assert(parts[k] == before[k]);
        }
    }
}

fn columns_beside_mark(wrap_width: usize) -> (r: usize)
    ensures
        r == body_width(wrap_width),
        r >= 1,
{
    if wrap_width <= 3 {
        1
    } else {
        wrap_width - 2
    }
}

fn marked_lines(
    text: &str,
    wrap_width: usize,
    marker: &str,
    marker_style: Style,
    body_style: Style,
    shown_when_blank: bool,
) -> (r: Vec<Line>)
    ensures
        lines_view(r@) == marked_text(
            text@,
            wrap_width,
            Mark { text: marker@, style: marker_style, body: body_style, shown_when_blank },
        ),
        shown_when_blank ==> r.len() >= 1,
        !text_is_blank_lines(text@) ==> r.len() >= 1,
        r.len() >= 1 ==> r@[0]@.len() >= 1 && r@[0]@[0] == span_of(marker@, marker_style),
        fits_one_row(text@, wrap_width) ==> lines_view(r@) == seq![
            piece_row(
                without_trailing_spaces(text@),
                true,
                Mark { text: marker@, style: marker_style, body: body_style, shown_when_blank },
            ),
        ],
{
    let width = columns_beside_mark(wrap_width);
    let ghost mark = Mark {
        text: marker@,
        style: marker_style,
        body: body_style,
        shown_when_blank,
    };
    let paragraphs = split(text, '\n');
    let mut out: Vec<Line> = Vec::new();
    let mut i: usize = 0;
    proof {
        assert(lines_view(out@) =~= Seq::<LineView>::empty());
    }
    while i < paragraphs.len()
        invariant
            i <= paragraphs.len(),
            width == body_width(wrap_width),
            width >= 1,
            mark == (Mark {
                text: marker@,
                style: marker_style,
                body: body_style,
                shown_when_blank,
            }),
            views(paragraphs@) == split_on(text@, '\n'),
            lines_view(out@) == marked_rows(views(paragraphs@).take(i as int), width, mark),
            i > 0 && shown_when_blank ==> out.len() >= 1,
            forall|k: int| 0 <= k < i && (#[trigger] paragraphs@[k])@.len() > 0 ==> out.len() >= 1,
            out.len() >= 1 ==> lines_view(out@)[0].len() >= 1 && lines_view(out@)[0][0] == span_of(
                marker@,
                marker_style,
            ),
            i == 1 && fits_one_row(text@, wrap_width) ==> lines_view(out@) == seq![
                piece_row(without_trailing_spaces(text@), true, mark),
            ],
        decreases paragraphs.len() - i,
    {
        let ghost above = lines_view(out@);
        proof {
            if fits_one_row(text@, wrap_width) {
                lemma_split_single(text@, '\n');
                assert(views(paragraphs@)[0] == paragraphs@[0]@);
            }
        }
        let ghost now = views(paragraphs@).take(i + 1);
        proof {
            assert(now.drop_last() =~= views(paragraphs@).take(i as int));
            assert(now.last() == paragraphs@[i as int]@);
            assert(above.len() == out@.len());
        }
        let fresh = out.len() == 0;
        if is_empty_text(paragraphs[i].as_str()) {
            if !fresh {
                add_line(&mut out, Line::blank());
            } else if shown_when_blank {
                add_line(&mut out, Line::of(Span::styled(marker.to_owned(), marker_style)));
                proof {
                    assert(lines_view(out@) =~= seq![seq![span_of(marker@, marker_style)]]);
                }
            }
        } else {
            let pieces = wrap_text(paragraphs[i].as_str(), width);
            let ghost all = views(pieces@);
            let mut k: usize = 0;
            proof {
                assert(piece_rows(all.take(0), fresh, mark) =~= Seq::<LineView>::empty());
                assert(above + piece_rows(all.take(0), fresh, mark) =~= above);
            }
            while k < pieces.len()
                invariant
                    k <= pieces.len(),
                    all == views(pieces@),
                    fresh == (above.len() == 0),
                    mark == (Mark {
                        text: marker@,
                        style: marker_style,
                        body: body_style,
                        shown_when_blank,
                    }),
                    lines_view(out@) == above + piece_rows(all.take(k as int), fresh, mark),
                decreases pieces.len() - k,
            {
                let body = Span::styled(truncated_text(pieces[k].as_str()), body_style);
                let lead = if fresh && k == 0 {
                    Span::styled(marker.to_owned(), marker_style)
                } else {
                    Span::styled("  ".to_owned(), Style::Plain)
                };
                add_line(&mut out, Line::of_two(lead, body));
                proof {
                    let row = piece_row(all[k as int], fresh && k == 0, mark);
                    assert(all[k as int] == pieces@[k as int]@);
                    assert(piece_rows(all.take(k + 1), fresh, mark) =~= piece_rows(
                        all.take(k as int),
                        fresh,
                        mark,
                    ).push(row));
                    assert(lines_view(out@) =~= above + piece_rows(all.take(k + 1), fresh, mark));
                }
                k += 1;
            }
            proof {
                assert(all.take(all.len() as int) =~= all);
                assert(lines_view(out@).len() == out@.len());
                if fresh {
                    assert(lines_view(out@)[0] == piece_row(all[0], true, mark));
                } else {
                    assert(lines_view(out@)[0] == above[0]);
                }
                if i == 0 && fits_one_row(text@, wrap_width) {
                    assert(lines_view(out@) =~= seq![
                        piece_row(without_trailing_spaces(text@), true, mark),
                    ]);
                }
            }
        }
        i += 1;
    }
    proof {
        assert(views(paragraphs@).take(paragraphs@.len() as int) =~= views(paragraphs@));
        if fits_one_row(text@, wrap_width) {
            lemma_split_single(text@, '\n');
            assert(views(paragraphs@).len() == paragraphs@.len());
        }
        if !text_is_blank_lines(text@) {
            lemma_some_paragraph(text@);
            let k = choose|k: int|
                0 <= k < split_on(text@, '\n').len() && (#[trigger] split_on(text@, '\n')[k]).len() > 0;
            assert(paragraphs@[k]@ == views(paragraphs@)[k]);
        }
        if out.len() >= 1 {
            assert(lines_view(out@)[0] == out@[0]@);
        }
    }
    out
}

/// Adds the rows of a text behind a coloured dot. Leading blank lines are
/// dropped, so that the dot stands beside the first words.
pub fn push_dot_prefixed_lines(
    lines: &mut Vec<Line>,
    text: &str,
    wrap_width: usize,
    dot_style: Style,
    text_style: Style,
)
    ensures
        lines_view(final(lines)@) == lines_view(old(lines)@) + marked_text(
            text@,
            wrap_width,
            dot_mark(dot_style, text_style),
        ),
        !text_is_blank_lines(text@) ==> final(lines).len() > old(lines).len(),
        final(lines).len() > old(lines).len() ==> {
            let row = final(lines)@[old(lines).len() as int]@;
            row.len() >= 1 && row[0] == span_of("● "@, dot_style)
        },
        fits_one_row(text@, wrap_width) ==> lines_view(final(lines)@) == lines_view(old(lines)@).push(
            piece_row(without_trailing_spaces(text@), true, dot_mark(dot_style, text_style)),
        ),
{
    let rows = marked_lines(text, wrap_width, "● ", dot_style, text_style, false);
    let ghost above = lines@;
    add_lines(lines, rows);
    proof {
        assert(lines_view(lines@).len() == lines@.len());
        assert(lines_view(above).len() == above.len());
        assert(lines_view(rows@).len() == rows@.len());
        if rows@.len() > 0 {
            assert(lines_view(lines@)[above.len() as int] == lines_view(rows@)[0]);
            assert(lines_view(rows@)[0] == rows@[0]@);
        }
        if fits_one_row(text@, wrap_width) {
            assert(lines_view(lines@) =~= lines_view(above).push(lines_view(rows@)[0]));
        }
    }
}

/// Adds the rows of a notice behind its marker.
pub fn push_prefixed_lines(
    lines: &mut Vec<Line>,
    marker: &str,
    text: &str,
    wrap_width: usize,
    style: Style,
)
    ensures
        lines_view(final(lines)@) == lines_view(old(lines)@) + marked_text(
            text@,
            wrap_width,
            notice_mark(marker@, style),
        ),
        !text_is_blank_lines(text@) ==> final(lines).len() > old(lines).len(),
        final(lines).len() > old(lines).len() ==> {
            let row = final(lines)@[old(lines).len() as int]@;
            row.len() >= 1 && row[0] == span_of(marker@ + " "@, style)
        },
        fits_one_row(text@, wrap_width) ==> lines_view(final(lines)@) == lines_view(old(lines)@).push(
            piece_row(without_trailing_spaces(text@), true, notice_mark(marker@, style)),
        ),
{
    let lead = cat(marker, " ");
    let rows = marked_lines(text, wrap_width, lead.as_str(), style, style, false);
    let ghost above = lines@;
    add_lines(lines, rows);
    proof {
        assert(lines_view(lines@).len() == lines@.len());
        assert(lines_view(above).len() == above.len());
        assert(lines_view(rows@).len() == rows@.len());
        if rows@.len() > 0 {
            assert(lines_view(lines@)[above.len() as int] == lines_view(rows@)[0]);
            assert(lines_view(rows@)[0] == rows@[0]@);
        }
        if fits_one_row(text@, wrap_width) {
            assert(lines_view(lines@) =~= lines_view(above).push(lines_view(rows@)[0]));
        }
    }
}

/// Adds the rows of a prompt behind the prompt marker, which is shown even
/// where the prompt is empty or begins with a line feed.
pub fn push_prompt_prefixed_lines(lines: &mut Vec<Line>, text: &str, wrap_width: usize)
    ensures
        lines_view(final(lines)@) == lines_view(old(lines)@) + marked_text(
            text@,
            wrap_width,
            prompt_mark(),
        ),
        final(lines).len() > old(lines).len(),
        final(lines)@[old(lines).len() as int]@.len() >= 1,
        final(lines)@[old(lines).len() as int]@[0] == span_of("> "@, Style::UserPrompt),
        fits_one_row(text@, wrap_width) ==> lines_view(final(lines)@) == lines_view(old(lines)@).push(
            piece_row(without_trailing_spaces(text@), true, prompt_mark()),
        ),
{
    let rows = marked_lines(text, wrap_width, "> ", Style::UserPrompt, Style::UserPrompt, true);
    let ghost above = lines@;
    add_lines(lines, rows);
    proof {
        assert(lines_view(lines@).len() == lines@.len());
        assert(lines_view(above).len() == above.len());
        assert(lines_view(rows@).len() == rows@.len());
        if rows@.len() > 0 {
            assert(lines_view(lines@)[above.len() as int] == lines_view(rows@)[0]);
            assert(lines_view(rows@)[0] == rows@[0]@);
        }
        if fits_one_row(text@, wrap_width) {
            assert(lines_view(lines@) =~= lines_view(above).push(lines_view(rows@)[0]));
        }
    }
}

// ---------------------------------------------------------------------------
// Height
// ---------------------------------------------------------------------------

/// A count that fits the machine's size.
pub open spec fn capped(n: nat) -> usize {
    if n > usize::MAX {
        usize::MAX
    } else {
        n as usize
    }
}

/// The rows of the terminal that one row of text takes.
pub open spec fn line_height(line: LineView, width: usize) -> nat {
    if line.len() == 0 {
        1
    } else {
        let text = line_text(line);
        if display_width(text) <= width {
            1
        } else if wrapped(text, width).len() == 0 {
            1
        } else {
            wrapped(text, width).len()
        }
    }
}

/// The rows of the terminal that rows of text take.
pub open spec fn lines_height(lines: Seq<LineView>, width: usize) -> nat
    decreases lines.len(),
{
    if lines.len() == 0 {
        0
    } else {
        lines_height(lines.drop_last(), width) + line_height(lines.last(), width)
    }
}

/// A pane is at least one column wide.
pub open spec fn at_least_one(n: usize) -> usize {
    if n == 0 {
        1
    } else {
        n
    }
}

/// The rows of the terminal that rows of text take at a width.
pub fn rendered_lines_height(lines: &Vec<Line>, wrap_width: usize) -> (r: usize)
    ensures
        r == capped(lines_height(lines_view(lines@), at_least_one(wrap_width))),
{
    let width: usize = if wrap_width == 0 {
        1
    } else {
        wrap_width
    };
    let mut total: usize = 0;
    let mut i: usize = 0;
    while i < lines.len()
        invariant
            i <= lines.len(),
            total == capped(lines_height(lines_view(lines@).take(i as int), width)),
        decreases lines.len() - i,
    {
        let line = &lines[i];
        let height: usize = if line.spans.len() == 0 {
            1
        } else {
            let text = line.text();
            if text_width(text.as_str()) <= width {
                1
            } else {
                let pieces = wrap_text(text.as_str(), width);
                proof {
                    assert(views(pieces@).len() == pieces@.len());
                }
                pieces.len()
            }
        };
        proof {
            assert(line@.len() == line.spans@.len());
            assert(height == line_height(line@, width));
            let t = lines_view(lines@).take(i + 1);
            assert(t.drop_last() =~= lines_view(lines@).take(i as int));
            assert(t.last() == line@);
        }
        total = total.saturating_add(height);
        i += 1;
    }
    proof {
        assert(lines_view(lines@).take(lines@.len() as int) =~= lines_view(lines@));
    }
    total
}

/// Rows one above the other take as much height as the two blocks together.
pub proof fn law_height_adds_up(a: Seq<LineView>, b: Seq<LineView>, width: usize)
    ensures
        lines_height(a + b, width) == lines_height(a, width) + lines_height(b, width),
    decreases b.len(),
{
    if b.len() == 0 {
        assert(a + b =~= a);
    } else {
        assert((a + b).drop_last() =~= a + b.drop_last());
        assert((a + b).last() == b.last());
        law_height_adds_up(a, b.drop_last(), width);
    }
}

/// Every row of text takes at least one row of the terminal.
pub proof fn law_height_counts_every_row(lines: Seq<LineView>, width: usize)
    ensures
        lines_height(lines, width) >= lines.len(),
    decreases lines.len(),
{
    if lines.len() > 0 {
        law_height_counts_every_row(lines.drop_last(), width);
    }
}

// ---------------------------------------------------------------------------
// Laws
// ---------------------------------------------------------------------------

/// A text that is not too long is shown whole. Of one that is, the beginning and the
/// end are, with how much is left out between them.
pub proof fn law_a_long_text_keeps_both_ends(text: Seq<char>)
    ensures
        text.len() <= 4096 ==> truncated(text) == text,
        text.len() > 4096 ==> truncated(text) == text.take(3072) + " ...<"@ + decimal(
            (text.len() - 4096) as nat,
        ) + " chars omitted>... "@ + text.skip(text.len() - 1024),
{
}

/// The mark and the blanks below it take two columns off the width, and a column is
/// always left.
pub proof fn law_the_mark_takes_two_columns(wrap_width: usize)
    ensures
        wrap_width > 3 ==> body_width(wrap_width) == wrap_width - 2,
        wrap_width <= 3 ==> body_width(wrap_width) == 1,
        body_width(wrap_width) >= 1,
{
}

/// Whether rows of a text are marked as they should be: the first with the mark, the
/// others set in below it, and all in the style of the body.
pub open spec fn well_marked(rows: Seq<LineView>, mark: Mark) -> bool {
    &&& rows.len() > 0 ==> rows[0].len() > 0 && rows[0][0] == (SpanView {
        text: mark.text,
        style: mark.style,
    })
    &&& forall|i: int|
        #![trigger rows[i]]
        0 <= i < rows.len() ==> rows[i].len() <= 2 && (i > 0 && rows[i].len() > 0 ==> rows[i][0] == (
        SpanView { text: "  "@, style: Style::Plain })) && (rows[i].len() == 2 ==> rows[i][1].style
            == mark.body)
}

/// A text begins with its mark, and no row below it does.
pub proof fn law_only_the_first_row_is_marked(paragraphs: Seq<Seq<char>>, width: usize, mark: Mark)
    ensures
        well_marked(marked_rows(paragraphs, width, mark), mark),
    decreases paragraphs.len(),
{
    if paragraphs.len() > 0 {
        let above = marked_rows(paragraphs.drop_last(), width, mark);
        law_only_the_first_row_is_marked(paragraphs.drop_last(), width, mark);
        let p = paragraphs.last();
        let rows = marked_rows(paragraphs, width, mark);
        let more = piece_rows(wrapped(p, width), above.len() == 0, mark);
        assert forall|i: int|
            #![trigger rows[i]]
            0 <= i < rows.len() implies rows[i].len() <= 2 && (i > 0 && rows[i].len() > 0
            ==> rows[i][0] == (SpanView { text: "  "@, style: Style::Plain })) && (rows[i].len() == 2
            ==> rows[i][1].style == mark.body) by {
            if i < above.len() {
                assert(rows[i] == above[i]);
            } else if p.len() > 0 {
                assert(rows[i] == more[i - above.len()]);
            }
        }
        if rows.len() > 0 {
            if above.len() > 0 {
                assert(rows[0] == above[0]);
            } else if p.len() > 0 {
                assert(rows[0] == more[0]);
            }
        }
    }
}

/// Every piece of a paragraph is shown, in its order, below what stands above.
pub proof fn law_every_piece_is_shown(paragraphs: Seq<Seq<char>>, p: Seq<char>, width: usize, mark: Mark, i: int)
    requires
        p.len() > 0,
        0 <= i < wrapped(p, width).len(),
    ensures
        ({
            let above = marked_rows(paragraphs, width, mark);
            let rows = marked_rows(paragraphs.push(p), width, mark);
            &&& rows.len() == above.len() + wrapped(p, width).len()
            &&& above.is_prefix_of(rows)
            &&& rows[above.len() + i].len() == 2
            &&& rows[above.len() + i][1].text == truncated(wrapped(p, width)[i])
        }),
{
    assert(paragraphs.push(p).drop_last() =~= paragraphs);
}

/// A row is as high as the pieces that it is wrapped into, and at least one row.
pub proof fn law_a_line_is_as_high_as_its_pieces(line: LineView, width: usize)
    ensures
        line_height(line, width) >= 1,
        line.len() == 0 ==> line_height(line, width) == 1,
        line.len() > 0 && display_width(line_text(line)) <= width ==> line_height(line, width) == 1,
        line.len() > 0 && display_width(line_text(line)) > width && wrapped(
            line_text(line),
            width,
        ).len() > 0 ==> line_height(line, width) == wrapped(line_text(line), width).len(),
{
}

} // verus!
