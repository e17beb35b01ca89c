//! Styled rows.

use vstd::prelude::*;
use vstd::string::*;

verus! {

/// The role of a stretch of text, from which the terminal draws its colours.
#[derive(Clone, Copy, Debug, PartialEq, Eq, Structural)]
pub enum Style {
    Plain,
    Dim,
    UserPrompt,
    AgentText,
    DotAgent,
    DotError,
    ErrorText,
    SystemText,
    NoticeSuccess,
    NoticeInfo,
    NoticeWarning,
    NoticeError,
    ToolCallTitle,
    ToolCallPending,
    ToolCallRunning,
    ToolCallSuccess,
    ToolCallFailure,
    ToolCallCanceled,
    CardCode,
    Plan,
    AgentEventHeader,
    AgentEventDetail,
    DisclaimerText,
    Selected,
    SelectedInactive,
    Welcome,
}

/// A stretch of text in one style.
pub struct Span {
    pub text: String,
    pub style: Style,
}

/// A stretch of text in one style, mathematically.
#[verifier::ext_equal]
pub struct SpanView {
    pub text: Seq<char>,
    pub style: Style,
}

impl View for Span {
    type V = SpanView;

    open spec fn view(&self) -> SpanView {
        SpanView { text: self.text@, style: self.style }
    }
}

/// A row: its spans from left to right.
pub struct Line {
    pub spans: Vec<Span>,
}

impl View for Line {
    type V = Seq<SpanView>;

    open spec fn view(&self) -> Seq<SpanView> {
        self.spans@.map_values(|s: Span| s@)
    }
}

/// A row, mathematically.
pub type LineView = Seq<SpanView>;

/// Rows, mathematically.
pub open spec fn lines_view(v: Seq<Line>) -> Seq<LineView> {
    v.map_values(|l: Line| l@)
}

/// A span of the given text and style.
pub open spec fn span_of(text: Seq<char>, style: Style) -> SpanView {
    SpanView { text, style }
}

/// The text of a row.
pub open spec fn line_text(line: LineView) -> Seq<char>
    decreases line.len(),
{
    if line.len() == 0 {
        Seq::empty()
    } else {
        line_text(line.drop_last()) + line.last().text
    }
}

impl Span {
    /// A span of the given text and style.
    pub fn styled(text: String, style: Style) -> (r: Span)
        ensures
            r@ == span_of(text@, style),
    {
        Span { text, style }
    }
}

impl Line {
    /// The row without spans.
    pub fn blank() -> (r: Line)
        ensures
            r@ == Seq::<SpanView>::empty(),
    {
        let r = Line { spans: Vec::new() };
        proof {
            assert(r@ =~= Seq::<SpanView>::empty());
        }
        r
    }

    /// A row of one span.
    pub fn of(span: Span) -> (r: Line)
        ensures
            r@ == seq![span@],
    {
        let mut r = Line::blank();
        r.push(span);
        proof {
            assert(r@ =~= seq![span@]);
        }
        r
    }

    /// A row of two spans.
    pub fn of_two(a: Span, b: Span) -> (r: Line)
        ensures
            r@ == seq![a@, b@],
    {
        let mut r = Line::blank();
        r.push(a);
        r.push(b);
        proof {
            assert(r@ =~= seq![a@, b@]);
        }
        r
    }

    /// Adds a span on the right.
    pub fn push(&mut self, span: Span)
        ensures
            final(self)@ == old(self)@.push(span@),
    {
        let ghost before = self.spans@;
        self.spans.push(span);
        proof {
            assert(self@ =~= old(self)@.push(span@));
        }
    }

    /// The text of the row.
    pub fn text(&self) -> (r: String)
        ensures
            r@ == line_text(self@),
    {
        let mut out = String::new();
        let mut i: usize = 0;
        while i < self.spans.len()
            invariant
                i <= self.spans.len(),
                out@ == line_text(self@.take(i as int)),
            decreases self.spans.len() - i,
        {
            out.append(self.spans[i].text.as_str());
            proof {
                assert(self@.take(i + 1).drop_last() =~= self@.take(i as int));
                assert(self@.take(i + 1).last() == self.spans@[i as int]@);
            }
            i += 1;
        }
        proof {
            assert(self@.take(self@.len() as int) =~= self@);
        }
        out
    }
}

/// Adds a row at the bottom.
pub fn add_line(lines: &mut Vec<Line>, line: Line)
    ensures
        lines_view(final(lines)@) == lines_view(old(lines)@).push(line@),
{
    lines.push(line);
    proof {
        assert(lines_view(lines@) =~= lines_view(old(lines)@).push(line@));
    }
}

/// Adds rows at the bottom.
pub fn add_lines(lines: &mut Vec<Line>, more: Vec<Line>)
    ensures
        lines_view(final(lines)@) == lines_view(old(lines)@) + lines_view(more@),
{
    let mut more = more;
    let ghost b = more@;
    lines.append(&mut more);
    proof {
        assert(lines_view(lines@) =~= lines_view(old(lines)@) + lines_view(b));
    }
}

} // verus!
