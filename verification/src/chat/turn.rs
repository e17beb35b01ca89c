//! Turns that are over, as rows.

use std::borrow::Cow;

use vstd::prelude::*;
use vstd::string::*;

use crate::chat::line::{
    add_line, add_lines, line_text, lines_view, span_of, Line, LineView, Span, SpanView, Style,
};
use crate::chat::message::{
    build_message_lines_with_details, message_rows, ChatLabels, MessageContext, MessageContextView,
};
use crate::chat::wrap::{
    at_least_one, capped, collapse_newlines_for_preview, display_width, marked_text, prompt_mark,
    push_prompt_prefixed_lines, text_width, truncated, truncated_text, wrap_text, wrapped,
};
use crate::text::{replaced, views};
use crate::transcript::{ChatMessage, ChatMessageView, CompletedTurn, CompletedTurnView};

verus! {

// ---------------------------------------------------------------------------
// Where a prompt can be clicked
// ---------------------------------------------------------------------------

/// One row of the terminal that a prompt takes.
#[derive(Clone, Copy, Debug, PartialEq, Eq, Structural)]
pub struct PromptRowGeometry {
    /// How many rows of the turn are above it.
    pub row_offset: usize,
    pub line_width: usize,
    pub body_start: usize,
    pub body_width: usize,
}

/// The columns of some spans.
pub open spec fn columns(spans: LineView) -> nat
    decreases spans.len(),
{
    if spans.len() == 0 {
        0
    } else {
        columns(spans.drop_last()) + display_width(spans.last().text) as nat
    }
}

/// The marks in front of the text of a prompt's row: its first two spans.
pub open spec fn marks(line: LineView) -> LineView {
    if line.len() <= 2 {
        line
    } else {
        line.take(2)
    }
}

/// A difference, or nothing where it would be negative.
pub open spec fn less(a: usize, b: usize) -> usize {
    if a >= b {
        (a - b) as usize
    } else {
        0
    }
}

/// The lesser of two numbers.
pub open spec fn lesser(a: usize, b: usize) -> usize {
    if a <= b {
        a
    } else {
        b
    }
}

/// The row below `above` others, of a width, with its text from a column on.
pub open spec fn geometry(above: int, line_width: usize, body_start: usize) -> PromptRowGeometry {
    PromptRowGeometry {
        row_offset: above as usize,
        line_width,
        body_start,
        body_width: less(line_width, body_start),
    }
}

/// The row of the `i`-th piece of a row that is too wide.
pub open spec fn piece_geometry(
    piece: Seq<char>,
    i: int,
    line: LineView,
    width: usize,
    above: int,
) -> PromptRowGeometry {
    let line_width = lesser(display_width(piece), width);
    geometry(
        above + i,
        line_width,
        if i == 0 {
            lesser(capped(columns(marks(line))), line_width)
        } else {
            0
        },
    )
}

/// The rows of the terminal that one row of a prompt takes.
pub open spec fn line_geometry(line: LineView, width: usize, above: int) -> Seq<PromptRowGeometry> {
    if capped(columns(line)) <= width {
        seq![geometry(above, capped(columns(line)), capped(columns(marks(line))))]
    } else {
        wrapped(line_text(line), width).map(
            |i: int, piece: Seq<char>| piece_geometry(piece, i, line, width, above),
        )
    }
}

/// The rows of the terminal that the rows of a prompt take.
pub open spec fn prompt_geometry(lines: Seq<LineView>, width: usize) -> Seq<PromptRowGeometry>
    decreases lines.len(),
{
    if lines.len() == 0 {
        Seq::empty()
    } else {
        let above = prompt_geometry(lines.drop_last(), width);
        above + line_geometry(lines.last(), width, above.len() as int)
    }
}

proof fn lemma_columns_grow(line: LineView, i: int)
    requires
        0 <= i < line.len(),
    ensures
        columns(line.take(i + 1)) == columns(line.take(i)) + display_width(line[i].text),
{
    assert(line.take(i + 1).drop_last() =~= line.take(i));
}

fn columns_of(line: &Line, count: usize) -> (r: usize)
    requires
        count <= line.spans@.len(),
    ensures
        r == capped(columns(line@.take(count as int))),
{
    let mut total: usize = 0;
    let mut i: usize = 0;
    proof {
        assert(line@.take(0) =~= Seq::<SpanView>::empty());
    }
    while i < count
        invariant
            i <= count <= line.spans@.len(),
            line@.len() == line.spans@.len(),
            total == capped(columns(line@.take(i as int))),
        decreases count - i,
    {
        proof {
            lemma_columns_grow(line@, i as int);
            assert(line@[i as int] == line.spans@[i as int]@);
        }
        total = total.saturating_add(text_width(line.spans[i].text.as_str()));
        i += 1;
    }
    total
}

fn geometry_of(above: usize, line_width: usize, body_start: usize) -> (r: PromptRowGeometry)
    ensures
        r == geometry(above as int, line_width, body_start),
{
    PromptRowGeometry {
        row_offset: above,
        line_width,
        body_start,
        body_width: line_width.saturating_sub(body_start),
    }
}

fn add_line_geometry(rows: &mut Vec<PromptRowGeometry>, line: &Line, width: usize)
    ensures
        final(rows)@ == old(rows)@ + line_geometry(line@, width, old(rows)@.len() as int),
{
    let count: usize = line.spans.len();
    let line_width: usize = columns_of(line, count);
    let marked: usize = if count <= 2 {
        count
    } else {
        2
    };
    let body_start: usize = columns_of(line, marked);
    proof {
        assert(line@.take(count as int) =~= line@);
        assert(marks(line@) =~= line@.take(marked as int));
    }
    if line_width <= width {
        let above: usize = rows.len();
        rows.push(geometry_of(above, line_width, body_start));
        return;
    }
    let text = line.text();
    let pieces = wrap_text(text.as_str(), width);
    let ghost before = rows@;
    let ghost f = |i: int, piece: Seq<char>|
        piece_geometry(piece, i, line@, width, before.len() as int);
    let mut k: usize = 0;
    while k < pieces.len()
        invariant
            k <= pieces@.len(),
            views(pieces@) == wrapped(line_text(line@), width),
            body_start == capped(columns(marks(line@))),
            f == (|i: int, piece: Seq<char>|
                piece_geometry(piece, i, line@, width, before.len() as int)),
            rows@ == before + wrapped(line_text(line@), width).map(f).take(k as int),
        decreases pieces.len() - k,
    {
        let shown: usize = text_width(pieces[k].as_str());
        let piece_width: usize = if shown <= width {
            shown
        } else {
            width
        };
        let start: usize = if k > 0 {
            0
        } else if body_start <= piece_width {
            body_start
        } else {
            piece_width
        };
        let above: usize = rows.len();
        proof {
            assert(views(pieces@)[k as int] == pieces@[k as int]@);
            assert(above == before.len() + k);
            let all = wrapped(line_text(line@), width).map(f);
            assert(all[k as int] == piece_geometry(
                pieces@[k as int]@,
                k as int,
                line@,
                width,
                before.len() as int,
            ));
            assert(all.take(k + 1) =~= all.take(k as int).push(all[k as int]));
        }
        rows.push(geometry_of(above, piece_width, start));
        k += 1;
    }
    proof {
        let all = wrapped(line_text(line@), width).map(f);
        assert(all.take(k as int) =~= all);
    }
}

/// The rows of the terminal that the rows of a prompt take.
pub fn completed_turn_prompt_rows(lines: &Vec<Line>, wrap_width: usize) -> (r: Vec<
    PromptRowGeometry,
>)
    ensures
        r@ == prompt_geometry(lines_view(lines@), at_least_one(wrap_width)),
{
    let width: usize = if wrap_width == 0 {
        1
    } else {
        wrap_width
    };
    let mut rows: Vec<PromptRowGeometry> = Vec::new();
    let ghost all = lines_view(lines@);
    let mut i: usize = 0;
    proof {
        assert(all.take(0) =~= Seq::<LineView>::empty());
    }
    while i < lines.len()
        invariant
            i <= lines@.len(),
            all == lines_view(lines@),
            rows@ == prompt_geometry(all.take(i as int), width),
        decreases lines.len() - i,
    {
        proof {
            assert(all.take(i + 1).drop_last() =~= all.take(i as int));
            assert(all.take(i + 1).last() == lines@[i as int]@);
        }
        add_line_geometry(&mut rows, &lines[i], width);
        i += 1;
    }
    proof {
        assert(all.take(i as int) =~= all);
    }
    rows
}

// ---------------------------------------------------------------------------
// A turn
// ---------------------------------------------------------------------------

/// How a turn is highlighted: brightly in the pane that has the focus.
pub open spec fn highlight(pane_focused: bool) -> Style {
    if pane_focused {
        Style::Selected
    } else {
        Style::SelectedInactive
    }
}

/// The style of the text of a prompt.
pub open spec fn prompt_style(is_selected: bool, pane_focused: bool) -> Style {
    if is_selected {
        highlight(pane_focused)
    } else {
        Style::UserPrompt
    }
}

/// The style of the mark that says whether a turn is expanded.
pub open spec fn chevron_style(is_selected: bool, pane_focused: bool) -> Style {
    if is_selected {
        highlight(pane_focused)
    } else {
        Style::Dim
    }
}

/// A row in one style.
pub open spec fn restyled(line: LineView, style: Style) -> LineView {
    line.map_values(|s: SpanView| span_of(s.text, style))
}

/// A row of a prompt behind the mark, or below it.
pub open spec fn chevron_row(line: LineView, i: int, text: Style, chevron: Style) -> LineView {
    seq![
        span_of(
            if i == 0 {
                "▼ "@
            } else {
                "  "@
            },
            chevron,
        ),
    ] + restyled(line, text)
}

/// The columns for a prompt beside the mark of its turn.
pub open spec fn beside_chevron(wrap_width: usize) -> usize {
    if wrap_width <= 3 {
        1
    } else {
        (wrap_width - 2) as usize
    }
}

/// The rows of a turn's prompt: all of it where the turn is expanded, one row
/// where it is not.
pub open spec fn header_rows(
    turn: CompletedTurnView,
    text: Style,
    chevron: Style,
    wrap_width: usize,
) -> Seq<LineView> {
    if turn.expanded {
        marked_text(turn.prompt, beside_chevron(wrap_width), prompt_mark()).map(
            |i: int, line: LineView| chevron_row(line, i, text, chevron),
        )
    } else {
        seq![
            seq![
                span_of("▶ "@, chevron),
                span_of("> "@, text),
                span_of(truncated(replaced(turn.prompt, '\n', ' ')), text),
            ],
        ]
    }
}

/// How the messages of a turn that is over are drawn.
pub open spec fn detail_context(wrap_width: usize) -> MessageContextView {
    MessageContextView {
        is_last_message: false,
        agent_streaming: false,
        permission_tool_call_id: None,
        activity_frame: 0,
        wrap_width,
        detailed_tools: true,
    }
}

/// The rows of the messages of a turn.
pub open spec fn detail_rows(
    details: Seq<ChatMessageView>,
    wrap_width: usize,
    labels: ChatLabels,
) -> Seq<LineView>
    decreases details.len(),
{
    if details.len() == 0 {
        Seq::empty()
    } else {
        detail_rows(details.drop_last(), wrap_width, labels) + message_rows(
            details.last(),
            detail_context(wrap_width),
            labels,
        )
    }
}

/// Rows with a note behind one of them, where it is there.
pub open spec fn with_note(rows: Seq<LineView>, i: int, note: Option<Seq<char>>) -> Seq<LineView> {
    match note {
        Some(note) if i < rows.len() => rows.update(
            i,
            rows[i] + seq![span_of("  "@, Style::Plain), span_of(note, Style::Dim)],
        ),
        _ => rows,
    }
}

/// Rows that end in a blank one.
pub open spec fn ended(rows: Seq<LineView>) -> Seq<LineView> {
    if rows.len() > 0 && rows.last().len() == 0 {
        rows
    } else {
        rows.push(Seq::<SpanView>::empty())
    }
}

/// The rows of a turn that is over: its prompt, its messages where it is
/// expanded, and a blank row. The note on how it ended stands beside the prompt,
/// or beside the first row of the messages where those are shown.
#[verifier::opaque]
pub open spec fn turn_rows(
    turn: CompletedTurnView,
    is_selected: bool,
    pane_focused: bool,
    wrap_width: usize,
    labels: ChatLabels,
) -> Seq<LineView> {
    let header = header_rows(
        turn,
        prompt_style(is_selected, pane_focused),
        chevron_style(is_selected, pane_focused),
        wrap_width,
    );
    let rows = if turn.expanded {
        header + detail_rows(turn.details, wrap_width, labels)
    } else {
        header
    };
    ended(
        with_note(
            rows,
            if turn.expanded && turn.details.len() > 0 {
                header.len() as int
            } else {
                0
            },
            turn.trailing_marker,
        ),
    )
}

/// Where the prompt of a turn can be clicked.
#[verifier::opaque]
pub open spec fn turn_geometry(
    turn: CompletedTurnView,
    is_selected: bool,
    pane_focused: bool,
    wrap_width: usize,
) -> Seq<PromptRowGeometry> {
    prompt_geometry(
        header_rows(
            turn,
            prompt_style(is_selected, pane_focused),
            chevron_style(is_selected, pane_focused),
            wrap_width,
        ),
        at_least_one(wrap_width),
    )
}

fn chevron_line(line: &Line, first: bool, text: Style, chevron: Style) -> (r: Line)
    ensures
        r@ == chevron_row(
            line@,
            if first {
                0
            } else {
                1
            },
            text,
            chevron,
        ),
{
    let mark = if first {
        "▼ "
    } else {
        "  "
    };
    let mut out = Line::of(Span::styled(mark.to_owned(), chevron));
    let ghost head = out@;
    let ghost all = restyled(line@, text);
    let mut i: usize = 0;
    proof {
        assert(head + all.take(0) =~= head);
    }
    while i < line.spans.len()
        invariant
            i <= line.spans@.len(),
            all == restyled(line@, text),
            out@ == head + all.take(i as int),
        decreases line.spans.len() - i,
    {
        proof {
            assert(line@[i as int] == line.spans@[i as int]@);
            assert(all.take(i + 1) =~= all.take(i as int).push(all[i as int]));
            assert(head + all.take(i + 1) =~= (head + all.take(i as int)).push(all[i as int]));
        }
        out.push(Span::styled(line.spans[i].text.clone(), text));
        i += 1;
    }
    proof {
        assert(all.take(i as int) =~= all);
    }
    out
}

fn expanded_header(prompt: &str, text: Style, chevron: Style, wrap_width: usize) -> (r: Vec<Line>)
    ensures
        lines_view(r@) == marked_text(prompt@, beside_chevron(wrap_width), prompt_mark()).map(
            |i: int, line: LineView| chevron_row(line, i, text, chevron),
        ),
{
    let width: usize = if wrap_width <= 3 {
        1
    } else {
        wrap_width - 2
    };
    let mut plain: Vec<Line> = Vec::new();
    proof {
        assert(lines_view(plain@) =~= Seq::<LineView>::empty());
    }
    push_prompt_prefixed_lines(&mut plain, prompt, width);
    let ghost rows = marked_text(prompt@, width, prompt_mark());
    let ghost f = |i: int, line: LineView| chevron_row(line, i, text, chevron);
    proof {
        assert(lines_view(plain@) =~= rows);
    }
    let mut out: Vec<Line> = Vec::new();
    let mut i: usize = 0;
    proof {
        assert(lines_view(out@) =~= rows.map(f).take(0));
    }
    while i < plain.len()
        invariant
            i <= plain@.len(),
            rows == lines_view(plain@),
            f == (|i: int, line: LineView| chevron_row(line, i, text, chevron)),
            lines_view(out@) == rows.map(f).take(i as int),
        decreases plain.len() - i,
    {
        let line = chevron_line(&plain[i], i == 0, text, chevron);
        proof {
            assert(rows[i as int] == plain@[i as int]@);
            assert(rows.map(f)[i as int] == line@);
            assert(rows.map(f).take(i + 1) =~= rows.map(f).take(i as int).push(line@));
        }
        add_line(&mut out, line);
        i += 1;
    }
    proof {
        assert(rows.map(f).take(i as int) =~= rows.map(f));
    }
    out
}

fn collapsed_header(prompt: &str, text: Style, chevron: Style) -> (r: Line)
    ensures
        r@ == seq![
            span_of("▶ "@, chevron),
            span_of("> "@, text),
            span_of(truncated(replaced(prompt@, '\n', ' ')), text),
        ],
{
    let shown = match collapse_newlines_for_preview(prompt) {
        Cow::Borrowed(s) => truncated_text(s),
        Cow::Owned(s) => truncated_text(s.as_str()),
    };
    let mut line = Line::of_two(
        Span::styled("▶ ".to_owned(), chevron),
        Span::styled("> ".to_owned(), text),
    );
    line.push(Span::styled(shown, text));
    proof {
        assert(line@ =~= seq![
            span_of("▶ "@, chevron),
            span_of("> "@, text),
            span_of(truncated(replaced(prompt@, '\n', ' ')), text),
        ]);
    }
    line
}

fn add_details(
    out: &mut Vec<Line>,
    details: &Vec<ChatMessage>,
    wrap_width: usize,
    labels: &ChatLabels,
)
    ensures
        lines_view(final(out)@) == lines_view(old(out)@) + detail_rows(
            crate::transcript::messages_view(details@),
            wrap_width,
            *labels,
        ),
{
    let ghost all = crate::transcript::messages_view(details@);
    let ghost before = lines_view(out@);
    let context = MessageContext {
        is_last_message: false,
        agent_streaming: false,
        permission_tool_call_id: None,
        activity_frame: 0,
        wrap_width,
        detailed_tools: true,
    };
    let mut i: usize = 0;
    proof {
        assert(all.take(0) =~= Seq::<ChatMessageView>::empty());
        assert(before + Seq::<LineView>::empty() =~= before);
    }
    while i < details.len()
        invariant
            i <= details@.len(),
            all == crate::transcript::messages_view(details@),
            context@ == detail_context(wrap_width),
            lines_view(out@) == before + detail_rows(all.take(i as int), wrap_width, *labels),
        decreases details.len() - i,
    {
        let more = build_message_lines_with_details(&details[i], &context, labels);
        proof {
            assert(all.take(i + 1).drop_last() =~= all.take(i as int));
            assert(all.take(i + 1).last() == details@[i as int]@);
            let done = detail_rows(all.take(i as int), wrap_width, *labels);
            assert(before + (done + lines_view(more@)) =~= (before + done) + lines_view(more@));
        }
        add_lines(out, more);
        i += 1;
    }
    proof {
        assert(all.take(i as int) =~= all);
    }
}

fn add_note(rows: &mut Vec<Line>, i: usize, note: &Option<String>)
    ensures
        lines_view(final(rows)@) == with_note(
            lines_view(old(rows)@),
            i as int,
            crate::text::opt_view(*note),
        ),
{
    if let Some(note) = note {
        if i < rows.len() {
            let ghost before = rows@;
            let mut line = Line::blank();
            core::mem::swap(&mut rows[i], &mut line);
            proof {
                assert(line@ == before[i as int]@);
            }
            let ghost plain = line@;
            line.push(Span::styled("  ".to_owned(), Style::Plain));
            line.push(Span::styled(note.clone(), Style::Dim));
            proof {
                assert(line@ =~= plain + seq![
                    span_of("  "@, Style::Plain),
                    span_of(note@, Style::Dim),
                ]);
            }
            rows.set(i, line);
            proof {
                assert(lines_view(rows@) =~= with_note(lines_view(before), i as int, Some(note@)));
            }
        }
    }
}

fn end_rows(rows: &mut Vec<Line>)
    ensures
        lines_view(final(rows)@) == ended(lines_view(old(rows)@)),
{
    let n: usize = rows.len();
    if n > 0 {
        proof {
            assert(lines_view(rows@).last() == rows@[n - 1]@);
        }
        if rows[n - 1].spans.len() == 0 {
            return;
        }
    }
    add_line(rows, Line::blank());
}

/// The rows of a turn that is over, and where its prompt can be clicked.
pub fn build_completed_turn_lines_with_prompt_rows(
    turn: &CompletedTurn,
    is_selected: bool,
    pane_focused: bool,
    wrap_width: usize,
    labels: &ChatLabels,
) -> (r: (Vec<Line>, Vec<PromptRowGeometry>))
    ensures
        lines_view(r.0@) == turn_rows(turn@, is_selected, pane_focused, wrap_width, *labels),
        r.1@ == turn_geometry(turn@, is_selected, pane_focused, wrap_width),
{
    proof {
        reveal(turn_rows);
        reveal(turn_geometry);
    }
    let (text, chevron) = if !is_selected {
        (Style::UserPrompt, Style::Dim)
    } else if pane_focused {
        (Style::Selected, Style::Selected)
    } else {
        (Style::SelectedInactive, Style::SelectedInactive)
    };
    let mut lines: Vec<Line> = if turn.expanded {
        expanded_header(turn.prompt.as_str(), text, chevron, wrap_width)
    } else {
        let mut one: Vec<Line> = Vec::new();
        let line = collapsed_header(turn.prompt.as_str(), text, chevron);
        one.push(line);
        proof {
            assert(lines_view(one@) =~= seq![line@]);
        }
        one
    };
    proof {
        assert(lines_view(lines@) == header_rows(turn@, text, chevron, wrap_width));
    }
    let prompt_rows = completed_turn_prompt_rows(&lines, wrap_width);
    let note_row: usize = if turn.expanded && turn.details.len() > 0 {
        lines.len()
    } else {
        0
    };
    if turn.expanded {
        add_details(&mut lines, &turn.details, wrap_width, labels);
    }
    add_note(&mut lines, note_row, &turn.trailing_marker);
    end_rows(&mut lines);
    (lines, prompt_rows)
}

/// The rows of a turn that is over.
pub fn build_completed_turn_lines(
    turn: &CompletedTurn,
    is_selected: bool,
    pane_focused: bool,
    wrap_width: usize,
    labels: &ChatLabels,
) -> (r: Vec<Line>)
    ensures
        lines_view(r@) == turn_rows(turn@, is_selected, pane_focused, wrap_width, *labels),
{
    let (lines, _rows) = build_completed_turn_lines_with_prompt_rows(
        turn,
        is_selected,
        pane_focused,
        wrap_width,
        labels,
    );
    lines
}

// ---------------------------------------------------------------------------
// Laws
// ---------------------------------------------------------------------------

/// A turn that is not expanded takes two rows, whatever was said in it: its
/// prompt on one, and a blank one.
pub proof fn law_collapsed_turn_takes_two_rows(
    turn: CompletedTurnView,
    is_selected: bool,
    pane_focused: bool,
    wrap_width: usize,
    labels: ChatLabels,
)
    requires
        !turn.expanded,
    ensures
        ({
            let rows = turn_rows(turn, is_selected, pane_focused, wrap_width, labels);
            &&& rows.len() == 2
            &&& rows[1].len() == 0
        }),
{
    reveal(turn_rows);
}

/// Every turn ends in a blank row.
pub proof fn law_turns_end_in_a_blank_row(
    turn: CompletedTurnView,
    is_selected: bool,
    pane_focused: bool,
    wrap_width: usize,
    labels: ChatLabels,
)
    ensures
        ({
            let rows = turn_rows(turn, is_selected, pane_focused, wrap_width, labels);
            rows.len() > 0 && rows.last().len() == 0
        }),
{
    reveal(turn_rows);
}

/// A folded turn is one row: its sign, and its prompt on one line.
pub proof fn law_a_folded_turn_shows_its_prompt(
    turn: CompletedTurnView,
    is_selected: bool,
    pane_focused: bool,
    wrap_width: usize,
    labels: ChatLabels,
)
    requires
        !turn.expanded,
    ensures
        ({
            let rows = turn_rows(turn, is_selected, pane_focused, wrap_width, labels);
            let row = rows[0];
            &&& rows.len() == 2
            &&& row[0].text == "▶ "@
            &&& row[1].text == "> "@
            &&& row[2].text == truncated(replaced(turn.prompt, '\n', ' '))
            &&& is_selected && pane_focused ==> row[0].style is Selected && row[2].style is Selected
            &&& is_selected && !pane_focused ==> row[0].style is SelectedInactive && row[2].style
                is SelectedInactive
            &&& !is_selected ==> row[0].style is Dim && row[2].style is UserPrompt
            &&& turn.trailing_marker is Some ==> row.len() == 5 && row[4] == (SpanView {
                text: turn.trailing_marker->0,
                style: Style::Dim,
            })
            &&& turn.trailing_marker is None ==> row.len() == 3
            &&& rows[1].len() == 0
        }),
{
    reveal(turn_rows);
    let header = header_rows(
        turn,
        prompt_style(is_selected, pane_focused),
        chevron_style(is_selected, pane_focused),
        wrap_width,
    );
    assert(header.len() == 1 && header[0].len() == 3);
    let noted = with_note(header, 0, turn.trailing_marker);
    assert(noted.len() == 1 && noted.last() == noted[0]);
    assert(ended(noted) == noted.push(Seq::<SpanView>::empty()));
}

/// An unfolded turn shows its prompt below its sign, and below that everything that
/// happened in it.
pub proof fn law_an_unfolded_turn_shows_everything(
    turn: CompletedTurnView,
    is_selected: bool,
    pane_focused: bool,
    wrap_width: usize,
    labels: ChatLabels,
    i: int,
)
    requires
        turn.expanded,
        turn.trailing_marker is None,
        0 <= i < marked_text(turn.prompt, beside_chevron(wrap_width), prompt_mark()).len(),
    ensures
        ({
            let rows = turn_rows(turn, is_selected, pane_focused, wrap_width, labels);
            let prompt = marked_text(turn.prompt, beside_chevron(wrap_width), prompt_mark());
            let below = detail_rows(turn.details, wrap_width, labels);
            &&& rows.len() >= prompt.len() + below.len()
            &&& rows[i].len() == prompt[i].len() + 1
            &&& i == 0 ==> rows[i][0].text == "▼ "@
            &&& i > 0 ==> rows[i][0].text == "  "@
            &&& rows.subrange(prompt.len() as int, prompt.len() + below.len() as int) == below
        }),
{
    reveal(turn_rows);
    let rows = turn_rows(turn, is_selected, pane_focused, wrap_width, labels);
    let prompt = marked_text(turn.prompt, beside_chevron(wrap_width), prompt_mark());
    let below = detail_rows(turn.details, wrap_width, labels);
    let header = header_rows(
        turn,
        prompt_style(is_selected, pane_focused),
        chevron_style(is_selected, pane_focused),
        wrap_width,
    );
    assert(header.len() == prompt.len());
    assert(rows == ended(header + below));
    assert((header + below).is_prefix_of(rows));
    assert(rows[i] == header[i]);
    assert(rows.subrange(prompt.len() as int, prompt.len() + below.len() as int) =~= below);
}

/// The details of a turn stand one below the other, each as the message it is, with
/// nothing left out.
pub proof fn law_details_stand_below_each_other(
    details: Seq<ChatMessageView>,
    m: ChatMessageView,
    wrap_width: usize,
    labels: ChatLabels,
)
    ensures
        detail_rows(Seq::empty(), wrap_width, labels).len() == 0,
        detail_rows(details.push(m), wrap_width, labels) == detail_rows(details, wrap_width, labels)
            + message_rows(
            m,
            MessageContextView {
                is_last_message: false,
                agent_streaming: false,
                permission_tool_call_id: None,
                activity_frame: 0,
                wrap_width,
                detailed_tools: true,
            },
            labels,
        ),
{
    assert(details.push(m).drop_last() =~= details);
}

} // verus!
