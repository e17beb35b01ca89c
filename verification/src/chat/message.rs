//! The rows of one message.

use vstd::prelude::*;
use vstd::string::*;

use crate::chat::command::{command_display_lines, command_rows};
use crate::chat::line::{
    add_line, add_lines, lines_view, span_of, Line, LineView, Span, SpanView, Style,
};
use crate::chat::output::{
    full_output, full_output_lines, output_tail, preview_output_lines, tool_detail_lines,
    tool_details, tool_output, tool_output_lines, MAX_TOOL_PREVIEW_LINES,
};
use crate::chat::status::{
    active_status, breath, breathing_dot, is_active_tool_call_status, presented,
    tool_call_presentation, Marker,
};
use crate::chat::wrap::{
    dot_mark, marked_text, notice_mark, Mark, prompt_mark, push_dot_prefixed_lines, push_prefixed_lines,
    push_prompt_prefixed_lines, truncated, truncated_text,
};
use crate::phrases::{PhraseView, Phrases};
use crate::text::{
    begins_ignore_case, cat, cat3, contains, decimal_int, decimal_int_text, is_empty_text, lines,
    lines_of, occurs, opt_view, same, starts_with_ignore_ascii_case, views,
};
use crate::transcript::{
    ChatMessage, ChatMessageView, NoticeKind, PlanEntry, PlanEntryStatus, ToolCallContent,
    ToolCallKind, ToolCallOutput, ToolCard, ToolCardView,
};

verus! {

/// The words of the conversation that depend on the user's language.
pub struct ChatLabels {
    pub plan_header: String,
    pub plan_marker_completed: String,
    pub plan_marker_in_progress: String,
    pub plan_marker_pending: String,
    pub welcome_disclaimer: String,
    pub welcome_title: String,
    pub phrases: Phrases,
}

/// What decides how a message is drawn, beside the message itself.
pub struct MessageContext<'a> {
    pub is_last_message: bool,
    pub agent_streaming: bool,
    /// The tool call that waits for the user's permission.
    pub permission_tool_call_id: Option<&'a str>,
    pub activity_frame: usize,
    pub wrap_width: usize,
    pub detailed_tools: bool,
}

/// The same, mathematically.
pub struct MessageContextView {
    pub is_last_message: bool,
    pub agent_streaming: bool,
    pub permission_tool_call_id: Option<Seq<char>>,
    pub activity_frame: nat,
    pub wrap_width: usize,
    pub detailed_tools: bool,
}

impl<'a> View for MessageContext<'a> {
    type V = MessageContextView;

    open spec fn view(&self) -> MessageContextView {
        MessageContextView {
            is_last_message: self.is_last_message,
            agent_streaming: self.agent_streaming,
            permission_tool_call_id: match self.permission_tool_call_id {
                Some(id) => Some(id@),
                None => None,
            },
            activity_frame: self.activity_frame as nat,
            wrap_width: self.wrap_width,
            detailed_tools: self.detailed_tools,
        }
    }
}

// ---------------------------------------------------------------------------
// Tool calls
// ---------------------------------------------------------------------------

/// An optional text that is not empty.
pub open spec fn non_empty(s: Option<Seq<char>>) -> Option<Seq<char>> {
    match s {
        Some(t) if t.len() > 0 => Some(t),
        _ => None,
    }
}

/// A dim stretch of text, where there is one.
pub open spec fn dim_span(text: Option<Seq<char>>) -> Seq<SpanView> {
    match text {
        Some(t) => seq![span_of(t, Style::Dim)],
        None => Seq::empty(),
    }
}

/// Whether the card is that of a command that runs.
pub open spec fn runs_command(card: ToolCardView) -> bool {
    card.kind == ToolCallKind::Execute || card.location_is_command
}

/// A text in round brackets, behind a space.
pub open spec fn bracketed(text: Seq<char>) -> Seq<char> {
    " ("@ + truncated(text) + ")"@
}

/// The mark of a card: it breathes while the call is active or waits for
/// permission.
pub open spec fn card_marker(card: ToolCardView, context: MessageContextView) -> Marker {
    if context.permission_tool_call_id == Some(card.id) || active_status(card.status) {
        breath(context.activity_frame)
    } else {
        presented(card.status).0
    }
}

/// The path that the title row names.
pub open spec fn card_path(card: ToolCardView) -> Option<Seq<char>> {
    match non_empty(card.location) {
        Some(path) if !card.location_is_command => Some(bracketed(path)),
        _ => None,
    }
}

/// The directory that the title row names: that of a command whose title does
/// not already say it.
pub open spec fn card_cwd(card: ToolCardView) -> Option<Seq<char>> {
    match non_empty(card.cwd) {
        Some(cwd) if card.kind == ToolCallKind::Execute && !occurs(card.title, cwd) => Some(
            bracketed(cwd),
        ),
        _ => None,
    }
}

/// The detail of the status on the title row.
pub open spec fn card_detail(card: ToolCardView) -> Option<Seq<char>> {
    match non_empty(presented(card.status).2) {
        Some(detail) => Some(" · "@ + truncated(detail)),
        None => None,
    }
}

/// The exit code on the title row: that of a command in a compact card whose
/// status does not already say it.
pub open spec fn card_exit(card: ToolCardView, detailed: bool) -> Option<Seq<char>> {
    match card.exit_code {
        Some(code) if !detailed && runs_command(card) && !begins_ignore_case(
            card.status,
            "exited ("@,
        ) && !begins_ignore_case(card.status, "failed:"@) => Some(
            " · exit "@ + decimal_int(code as int),
        ),
        _ => None,
    }
}

/// The title row of a card.
pub open spec fn card_title(card: ToolCardView, context: MessageContextView) -> LineView {
    seq![
        span_of(card_marker(card, context).shown(), presented(card.status).1),
        span_of(" "@, Style::Plain),
        span_of(truncated(card.title), Style::ToolCallTitle),
    ] + dim_span(card_path(card)) + dim_span(card_cwd(card)) + dim_span(card_detail(card))
        + dim_span(card_exit(card, context.detailed_tools))
}

/// Rows of one span each.
pub open spec fn rows_in(texts: Seq<Seq<char>>, style: Style) -> Seq<LineView> {
    texts.map_values(|t: Seq<char>| seq![span_of(t, style)])
}

/// The rows of the command.
pub open spec fn card_command(card: ToolCardView) -> Seq<LineView> {
    match card.location {
        Some(command) if card.location_is_command => rows_in(
            command_rows(command),
            Style::CardCode,
        ),
        _ => Seq::empty(),
    }
}

/// The tail of a command's output, in a compact card.
pub open spec fn card_output(card: ToolCardView, detailed: bool) -> Seq<LineView> {
    match card.output {
        Some(output) if !detailed && runs_command(card) => rows_in(
            tool_output(output).map_values(|line: Seq<char>| "    │ "@ + line),
            Style::Dim,
        ),
        _ => Seq::empty(),
    }
}

/// Whether a piece of content is text.
pub open spec fn is_text(item: ToolCallContent) -> bool {
    item is Text
}

/// The output below the details: only of a call without content of its own.
pub open spec fn card_output_details(card: ToolCardView, detailed: bool) -> Seq<Seq<char>> {
    match card.output {
        Some(output) if !card.content.any(|item: ToolCallContent| is_text(item)) => if detailed {
            full_output(output, "    │ "@)
        } else if !runs_command(card) {
            output_tail(output, MAX_TOOL_PREVIEW_LINES as nat, "    │ "@)
        } else {
            Seq::empty()
        },
        _ => Seq::empty(),
    }
}

/// The detail rows of a card.
pub open spec fn card_details(card: ToolCardView, detailed: bool) -> Seq<LineView> {
    rows_in(
        tool_details(card.content, card.locations, detailed) + card_output_details(card, detailed),
        Style::Dim,
    )
}

/// The rows of a tool call: its title, what it runs, what came of it, and a
/// blank row below anything but the title.
pub open spec fn card_rows(card: ToolCardView, context: MessageContextView) -> Seq<LineView> {
    let below = card_command(card) + card_output(card, context.detailed_tools) + card_details(
        card,
        context.detailed_tools,
    );
    if below.len() > 0 {
        (seq![card_title(card, context)] + below).push(Seq::<SpanView>::empty())
    } else {
        seq![card_title(card, context)]
    }
}

fn add_rows(out: &mut Vec<Line>, texts: &Vec<String>, prefix: &str, style: Style)
    ensures
        lines_view(final(out)@) == lines_view(old(out)@) + rows_in(
            views(texts@).map_values(|t: Seq<char>| prefix@ + t),
            style,
        ),
{
    let ghost above = lines_view(out@);
    let ghost all = views(texts@).map_values(|t: Seq<char>| prefix@ + t);
    let mut i: usize = 0;
    proof {
        assert(above + rows_in(all.take(0), style) =~= above);
    }
    while i < texts.len()
        invariant
            i <= texts.len(),
            all == views(texts@).map_values(|t: Seq<char>| prefix@ + t),
            lines_view(out@) == above + rows_in(all.take(i as int), style),
        decreases texts.len() - i,
    {
        add_line(out, Line::of(Span::styled(cat(prefix, texts[i].as_str()), style)));
        proof {
            assert(all[i as int] == prefix@ + texts@[i as int]@);
            assert(rows_in(all.take(i + 1), style) =~= rows_in(all.take(i as int), style).push(
                seq![span_of(all[i as int], style)],
            ));
            assert(lines_view(out@) =~= above + rows_in(all.take(i + 1), style));
        }
        i += 1;
    }
    proof {
        assert(all.take(all.len() as int) =~= all);
    }
}

fn add_plain_rows(out: &mut Vec<Line>, texts: &Vec<String>, style: Style)
    ensures
        lines_view(final(out)@) == lines_view(old(out)@) + rows_in(views(texts@), style),
{
    add_rows(out, texts, "", style);
    proof {
        reveal_strlit("");
        assert(views(texts@).map_values(|t: Seq<char>| ""@ + t) =~= views(texts@)) by {
            assert forall|i: int| 0 <= i < texts@.len() implies ""@ + views(texts@)[i] == views(
                texts@,
            )[i] by {
                assert(""@ + views(texts@)[i] =~= views(texts@)[i]);
            }
        }
    }
}

fn add_dim(line: &mut Line, text: Option<String>)
    ensures
        final(line)@ == old(line)@ + dim_span(opt_view(text)),
{
    match text {
        Some(text) => {
            line.push(Span::styled(text, Style::Dim));
            proof {
                assert(line@ =~= old(line)@ + seq![span_of(text@, Style::Dim)]);
            }
        },
        None => {
            proof {
                assert(line@ =~= old(line)@ + Seq::<SpanView>::empty());
            }
        },
    }
}

fn in_brackets(text: &str) -> (r: String)
    ensures
        r@ == bracketed(text@),
{
    let shown = truncated_text(text);
    cat3(" (", shown.as_str(), ")")
}

fn is_command_card(card: &ToolCard) -> (r: bool)
    ensures
        r == runs_command(card@),
{
    card.kind == ToolCallKind::Execute || card.location_is_command
}

fn path_span(card: &ToolCard) -> (r: Option<String>)
    ensures
        opt_view(r) == card_path(card@),
{
    if card.location_is_command {
        return None;
    }
    match &card.location {
        Some(path) => if is_empty_text(path.as_str()) {
            None
        } else {
            Some(in_brackets(path.as_str()))
        },
        None => None,
    }
}

fn cwd_span(card: &ToolCard) -> (r: Option<String>)
    ensures
        opt_view(r) == card_cwd(card@),
{
    if card.kind != ToolCallKind::Execute {
        return None;
    }
    match &card.cwd {
        Some(cwd) => if is_empty_text(cwd.as_str()) || contains(card.title.as_str(), cwd.as_str()) {
            None
        } else {
            Some(in_brackets(cwd.as_str()))
        },
        None => None,
    }
}

fn detail_span(detail: &Option<String>) -> (r: Option<String>)
    ensures
        opt_view(r) == match non_empty(opt_view(*detail)) {
            Some(detail) => Some(" · "@ + truncated(detail)),
            None => None,
        },
{
    match detail {
        Some(detail) => if is_empty_text(detail.as_str()) {
            None
        } else {
            let shown = truncated_text(detail.as_str());
            Some(cat(" · ", shown.as_str()))
        },
        None => None,
    }
}

fn exit_span(card: &ToolCard, detailed: bool) -> (r: Option<String>)
    ensures
        opt_view(r) == card_exit(card@, detailed),
{
    if detailed || !is_command_card(card) {
        return None;
    }
    match card.exit_code {
        Some(code) => if starts_with_ignore_ascii_case(card.status.as_str(), "exited (")
            || starts_with_ignore_ascii_case(card.status.as_str(), "failed:") {
            None
        } else {
            let digits = decimal_int_text(code as i64);
            Some(cat(" · exit ", digits.as_str()))
        },
        None => None,
    }
}

fn title_line(card: &ToolCard, context: &MessageContext) -> (r: Line)
    ensures
        r@ == card_title(card@, context@),
{
    let (marker, marker_style, detail) = tool_call_presentation(card.status.as_str());
    let waits = match context.permission_tool_call_id {
        Some(id) => same(id, card.id.as_str()),
        None => false,
    };
    let marker = if waits || is_active_tool_call_status(card.status.as_str()) {
        breathing_dot(context.activity_frame)
    } else {
        marker
    };
    let mut line = Line::of_two(
        Span::styled(marker.as_str().to_owned(), marker_style),
        Span::styled(" ".to_owned(), Style::Plain),
    );
    line.push(Span::styled(truncated_text(card.title.as_str()), Style::ToolCallTitle));
    proof {
        assert(line@ =~= seq![
            span_of(card_marker(card@, context@).shown(), presented(card.status@).1),
            span_of(" "@, Style::Plain),
            span_of(truncated(card.title@), Style::ToolCallTitle),
        ]);
    }
    add_dim(&mut line, path_span(card));
    add_dim(&mut line, cwd_span(card));
    add_dim(&mut line, detail_span(&detail));
    add_dim(&mut line, exit_span(card, context.detailed_tools));
    line
}

fn has_text(content: &Vec<ToolCallContent>) -> (r: bool)
    ensures
        r == content@.any(|item: ToolCallContent| is_text(item)),
{
    let mut i: usize = 0;
    while i < content.len()
        invariant
            i <= content.len(),
            forall|k: int| 0 <= k < i ==> !is_text(#[trigger] content@[k]),
        decreases content.len() - i,
    {
        if let ToolCallContent::Text(_) = &content[i] {
            proof {
                let f = |item: ToolCallContent| is_text(item);
                assert(f(content@[i as int]));
            }
            return true;
        }
        i += 1;
    }
    false
}

fn card_lines(card: &ToolCard, context: &MessageContext) -> (r: Vec<Line>)
    ensures
        lines_view(r@) == card_rows(card@, context@),
{
    let detailed = context.detailed_tools;
    let mut below: Vec<Line> = Vec::new();
    proof {
        assert(lines_view(below@) =~= Seq::<LineView>::empty());
    }
    if card.location_is_command {
        if let Some(command) = &card.location {
            let rows = command_display_lines(command.as_str());
            add_plain_rows(&mut below, &rows, Style::CardCode);
        }
    }
    proof {
        assert(lines_view(below@) =~= card_command(card@));
    }
    if !detailed && is_command_card(card) {
        if let Some(output) = &card.output {
            let tail = tool_output_lines(output);
            add_rows(&mut below, &tail, "    │ ", Style::Dim);
            proof {
                assert(tool_output(*output).map_values(|line: Seq<char>| "    │ "@ + line)
                    =~= views(tail@).map_values(|t: Seq<char>| "    │ "@ + t));
            }
        }
    }
    proof {
        assert(lines_view(below@) =~= card_command(card@) + card_output(card@, detailed));
    }
    let details = tool_detail_lines(&card.content, &card.locations, detailed);
    add_plain_rows(&mut below, &details, Style::Dim);
    let ghost mut extra = Seq::<Seq<char>>::empty();
    if let Some(output) = &card.output {
        if !has_text(&card.content) {
            if detailed {
                let rows = full_output_lines(output, "    │ ");
                add_plain_rows(&mut below, &rows, Style::Dim);
                proof {
                    extra = views(rows@);
                }
            } else if !is_command_card(card) {
                let rows = preview_output_lines(output, "    │ ");
                add_plain_rows(&mut below, &rows, Style::Dim);
                proof {
                    extra = views(rows@);
                }
            }
        }
    }
    proof {
        assert(extra =~= card_output_details(card@, detailed));
        assert(rows_in(views(details@), Style::Dim) + rows_in(extra, Style::Dim) =~= rows_in(
            views(details@) + extra,
            Style::Dim,
        ));
        assert(lines_view(below@) =~= card_command(card@) + card_output(card@, detailed)
            + card_details(card@, detailed));
        assert(lines_view(below@).len() == below@.len());
    }
    let mut out: Vec<Line> = Vec::new();
    out.push(title_line(card, context));
    proof {
        assert(lines_view(out@) =~= seq![card_title(card@, context@)]);
    }
    if below.len() > 0 {
        add_lines(&mut out, below);
        add_line(&mut out, Line::blank());
    }
    out
}

// ---------------------------------------------------------------------------
// Plans and other texts
// ---------------------------------------------------------------------------

impl ChatLabels {
    /// The marker of a plan's step.
    pub open spec fn plan_marker(&self, status: PlanEntryStatus) -> Seq<char> {
        match status {
            PlanEntryStatus::Completed => self.plan_marker_completed@,
            PlanEntryStatus::InProgress => self.plan_marker_in_progress@,
            PlanEntryStatus::Pending => self.plan_marker_pending@,
        }
    }

    /// The row of a plan's step.
    pub open spec fn plan_row(&self, entry: PlanEntry) -> LineView {
        seq![
            span_of(
                "  "@ + self.plan_marker(entry.status) + " "@ + truncated(entry.content@),
                Style::Plan,
            ),
        ]
    }
}

/// The rows of a plan.
pub open spec fn plan_rows(entries: Seq<PlanEntry>, labels: ChatLabels) -> Seq<LineView> {
    (seq![seq![span_of(labels.plan_header@, Style::Plan)]] + entries.map_values(
        |e: PlanEntry| labels.plan_row(e),
    )).push(Seq::<SpanView>::empty())
}

fn plan_lines(entries: &Vec<PlanEntry>, labels: &ChatLabels) -> (r: Vec<Line>)
    ensures
        lines_view(r@) == plan_rows(entries@, *labels),
{
    let mut out: Vec<Line> = Vec::new();
    add_line(&mut out, Line::of(Span::styled(labels.plan_header.clone(), Style::Plan)));
    let ghost head = lines_view(out@);
    let ghost f = |e: PlanEntry| labels.plan_row(e);
    proof {
        assert(head =~= seq![seq![span_of(labels.plan_header@, Style::Plan)]]);
        assert(head + entries@.take(0).map_values(f) =~= head);
    }
    let mut i: usize = 0;
    while i < entries.len()
        invariant
            i <= entries.len(),
            f == (|e: PlanEntry| labels.plan_row(e)),
            lines_view(out@) == head + entries@.take(i as int).map_values(f),
        decreases entries.len() - i,
    {
        let entry = &entries[i];
        let mut text = cat(
            "  ",
            match entry.status {
                PlanEntryStatus::Completed => labels.plan_marker_completed.as_str(),
                PlanEntryStatus::InProgress => labels.plan_marker_in_progress.as_str(),
                PlanEntryStatus::Pending => labels.plan_marker_pending.as_str(),
            },
        );
        text.append(" ");
        let shown = truncated_text(entry.content.as_str());
        text.append(shown.as_str());
        add_line(&mut out, Line::of(Span::styled(text, Style::Plan)));
        proof {
            assert(entries@.take(i + 1).map_values(f) =~= entries@.take(i as int).map_values(f).push(
                f(entries@[i as int]),
            ));
            assert(lines_view(out@) =~= head + entries@.take(i + 1).map_values(f));
        }
        i += 1;
    }
    proof {
        assert(entries@.take(entries@.len() as int) =~= entries@);
    }
    add_line(&mut out, Line::blank());
    out
}

/// The rows of the lines of a text, the first in one style and the others in
/// another, above a blank row.
pub open spec fn text_rows(text: Seq<char>, first: Style, rest: Style) -> Seq<LineView> {
    lines_of(text).map(
        |i: int, line: Seq<char>|
            seq![
                span_of(
                    truncated(line),
                    if i == 0 {
                        first
                    } else {
                        rest
                    },
                ),
            ],
    ).push(Seq::<SpanView>::empty())
}

fn text_lines(text: &str, first: Style, rest: Style) -> (r: Vec<Line>)
    ensures
        lines_view(r@) == text_rows(text@, first, rest),
{
    let source = lines(text);
    let ghost all = lines_of(text@);
    let ghost f = |i: int, line: Seq<char>|
        seq![
            span_of(
                truncated(line),
                if i == 0 {
                    first
                } else {
                    rest
                },
            ),
        ];
    let mut out: Vec<Line> = Vec::new();
    let mut i: usize = 0;
    proof {
        assert(lines_view(out@) =~= all.map(f).take(0));
    }
    while i < source.len()
        invariant
            i <= source.len(),
            views(source@) == all,
            all.len() == source@.len(),
            f == (|i: int, line: Seq<char>|
                seq![
                    span_of(
                        truncated(line),
                        if i == 0 {
                            first
                        } else {
                            rest
                        },
                    ),
                ]),
            lines_view(out@) == all.map(f).take(i as int),
        decreases source.len() - i,
    {
        let style = if i == 0 {
            first
        } else {
            rest
        };
        add_line(&mut out, Line::of(Span::styled(truncated_text(source[i].as_str()), style)));
        proof {
            assert(all[i as int] == source@[i as int]@);
            assert(all.map(f).take(i + 1) =~= all.map(f).take(i as int).push(f(i as int, all[i as int])));
        }
        i += 1;
    }
    proof {
        assert(all.map(f).take(all.len() as int) =~= all.map(f));
    }
    add_line(&mut out, Line::blank());
    out
}

/// The marker of a notice.
pub open spec fn notice_marker(kind: NoticeKind) -> Seq<char> {
    match kind {
        NoticeKind::Success => "✓"@,
        NoticeKind::Info => "i"@,
        NoticeKind::Warning => "!"@,
        NoticeKind::Error => "×"@,
    }
}

/// The style of a notice.
pub open spec fn notice_style(kind: NoticeKind) -> Style {
    match kind {
        NoticeKind::Success => Style::NoticeSuccess,
        NoticeKind::Info => Style::NoticeInfo,
        NoticeKind::Warning => Style::NoticeWarning,
        NoticeKind::Error => Style::NoticeError,
    }
}

// ---------------------------------------------------------------------------
// Messages
// ---------------------------------------------------------------------------

/// The rows of a message.
pub open spec fn message_rows(
    msg: ChatMessageView,
    context: MessageContextView,
    labels: ChatLabels,
) -> Seq<LineView> {
    let blank = Seq::<SpanView>::empty();
    match msg {
        ChatMessageView::User(text) => marked_text(text, context.wrap_width, prompt_mark()).push(
            blank,
        ),
        ChatMessageView::Agent(text) => {
            let rows = marked_text(
                text,
                context.wrap_width,
                dot_mark(Style::DotAgent, Style::AgentText),
            );
            if context.agent_streaming && context.is_last_message {
                rows
            } else {
                rows.push(blank)
            }
        },
        ChatMessageView::System(text) => text_rows(
            labels.phrases.says(text),
            Style::SystemText,
            Style::SystemText,
        ),
        ChatMessageView::Notice { kind, text } => marked_text(
            labels.phrases.says(text),
            context.wrap_width,
            notice_mark(notice_marker(kind), notice_style(kind)),
        ).push(blank),
        ChatMessageView::ToolCall(card) => card_rows(card, context),
        ChatMessageView::Plan(entries) => plan_rows(entries, labels),
        ChatMessageView::Error(text) => marked_text(
            text,
            context.wrap_width,
            dot_mark(Style::DotError, Style::ErrorText),
        ).push(blank),
        ChatMessageView::AgentEvent(text) => text_rows(
            text,
            Style::AgentEventHeader,
            Style::AgentEventDetail,
        ),
        ChatMessageView::Disclaimer => seq![
            seq![
                span_of("  "@, Style::Plain),
                span_of(labels.welcome_disclaimer@, Style::DisclaimerText),
            ],
        ],
    }
}

/// The rows of a message.
pub fn build_message_lines_with_details(
    msg: &ChatMessage,
    context: &MessageContext,
    labels: &ChatLabels,
) -> (r: Vec<Line>)
    ensures
        lines_view(r@) == message_rows(msg@, context@, *labels),
{
    let mut out: Vec<Line> = Vec::new();
    proof {
        assert(lines_view(out@) =~= Seq::<LineView>::empty());
        assert forall|s: Seq<LineView>| #[trigger] (Seq::<LineView>::empty() + s) == s by {
            assert(Seq::<LineView>::empty() + s =~= s);
        }
    }
    match msg {
        ChatMessage::User(text) => {
            push_prompt_prefixed_lines(&mut out, text.as_str(), context.wrap_width);
            add_line(&mut out, Line::blank());
        },
        ChatMessage::Agent(text) => {
            push_dot_prefixed_lines(
                &mut out,
                text.as_str(),
                context.wrap_width,
                Style::DotAgent,
                Style::AgentText,
            );
            if !context.agent_streaming || !context.is_last_message {
                add_line(&mut out, Line::blank());
            }
        },
        ChatMessage::System(text) => {
            let said = labels.phrases.text(text);
            out = text_lines(said.as_str(), Style::SystemText, Style::SystemText);
        },
        ChatMessage::Notice { kind, text } => {
            let (marker, style): (&str, Style) = match kind {
                NoticeKind::Success => ("✓", Style::NoticeSuccess),
                NoticeKind::Info => ("i", Style::NoticeInfo),
                NoticeKind::Warning => ("!", Style::NoticeWarning),
                NoticeKind::Error => ("×", Style::NoticeError),
            };
            let said = labels.phrases.text(text);
            push_prefixed_lines(&mut out, marker, said.as_str(), context.wrap_width, style);
            add_line(&mut out, Line::blank());
        },
        ChatMessage::ToolCall(card) => {
            out = card_lines(card, context);
        },
        ChatMessage::Plan(entries) => {
            out = plan_lines(entries, labels);
        },
        ChatMessage::Error(text) => {
            push_dot_prefixed_lines(
                &mut out,
                text.as_str(),
                context.wrap_width,
                Style::DotError,
                Style::ErrorText,
            );
            add_line(&mut out, Line::blank());
        },
        ChatMessage::AgentEvent(text) => {
            out = text_lines(text.as_str(), Style::AgentEventHeader, Style::AgentEventDetail);
        },
        ChatMessage::Disclaimer => {
            add_line(
                &mut out,
                Line::of_two(
                    Span::styled("  ".to_owned(), Style::Plain),
                    Span::styled(labels.welcome_disclaimer.clone(), Style::DisclaimerText),
                ),
            );
            proof {
                assert(lines_view(out@) =~= message_rows(msg@, context@, *labels));
            }
        },
    }
    out
}

/// The rows of a message of the running turn.
pub fn build_message_lines(
    msg: &ChatMessage,
    is_last_message: bool,
    agent_streaming: bool,
    permission_tool_call_id: Option<&str>,
    activity_frame: usize,
    wrap_width: usize,
    labels: &ChatLabels,
) -> (r: Vec<Line>)
    ensures
        lines_view(r@) == message_rows(
            msg@,
            MessageContextView {
                is_last_message,
                agent_streaming,
                permission_tool_call_id: match permission_tool_call_id {
                    Some(id) => Some(id@),
                    None => None,
                },
                activity_frame: activity_frame as nat,
                wrap_width,
                detailed_tools: false,
            },
            *labels,
        ),
{
    let context = MessageContext {
        is_last_message,
        agent_streaming,
        permission_tool_call_id,
        activity_frame,
        wrap_width,
        detailed_tools: false,
    };
    build_message_lines_with_details(msg, &context, labels)
}

/// A card that waits for permission breathes, whatever its status; one that
/// neither waits nor runs shows its status.
pub proof fn law_permission_animates_its_card_alone(
    card: ToolCardView,
    context: MessageContextView,
)
    ensures
        context.permission_tool_call_id == Some(card.id) ==> card_title(card, context)[0].text
            == breath(context.activity_frame).shown(),
        context.permission_tool_call_id != Some(card.id) && !active_status(card.status)
            ==> card_title(card, context)[0].text == presented(card.status).0.shown(),
{
}

// ---------------------------------------------------------------------------
// Laws
// ---------------------------------------------------------------------------

/// Every kind of message has its own mark and colours, and but for an answer that is
/// still coming ends with a blank row.
pub proof fn law_messages_are_marked_by_kind(
    text: Seq<char>,
    phrase: PhraseView,
    context: MessageContextView,
    labels: ChatLabels,
)
    ensures
        ({
            let blank = Seq::<SpanView>::empty();
            let width = context.wrap_width;
            let agent = marked_text(
                text,
                width,
                Mark {
                    text: "● "@,
                    style: Style::DotAgent,
                    body: Style::AgentText,
                    shown_when_blank: false,
                },
            );
            &&& message_rows(ChatMessageView::User(text), context, labels) == marked_text(
                text,
                width,
                Mark {
                    text: "> "@,
                    style: Style::UserPrompt,
                    body: Style::UserPrompt,
                    shown_when_blank: true,
                },
            ).push(blank)
            &&& message_rows(ChatMessageView::Error(text), context, labels) == marked_text(
                text,
                width,
                Mark {
                    text: "● "@,
                    style: Style::DotError,
                    body: Style::ErrorText,
                    shown_when_blank: false,
                },
            ).push(blank)
            &&& context.agent_streaming && context.is_last_message ==> message_rows(
                ChatMessageView::Agent(text),
                context,
                labels,
            ) == agent
            &&& !(context.agent_streaming && context.is_last_message) ==> message_rows(
                ChatMessageView::Agent(text),
                context,
                labels,
            ) == agent.push(blank)
        }),
{
}

/// How much a notice matters is seen by its sign and its colour.
pub proof fn law_notices_are_marked_by_weight(
    kind: NoticeKind,
    phrase: PhraseView,
    context: MessageContextView,
    labels: ChatLabels,
)
    ensures
        ({
            let (sign, style) = match kind {
                NoticeKind::Success => ("✓ "@, Style::NoticeSuccess),
                NoticeKind::Info => ("i "@, Style::NoticeInfo),
                NoticeKind::Warning => ("! "@, Style::NoticeWarning),
                NoticeKind::Error => ("× "@, Style::NoticeError),
            };
            message_rows(ChatMessageView::Notice { kind, text: phrase }, context, labels)
                == marked_text(
                labels.phrases.says(phrase),
                context.wrap_width,
                Mark { text: sign, style, body: style, shown_when_blank: false },
            ).push(Seq::<SpanView>::empty())
        }),
{
    reveal_strlit("✓ ");
    reveal_strlit("✓");
    reveal_strlit("i ");
    reveal_strlit("i");
    reveal_strlit("! ");
    reveal_strlit("!");
    reveal_strlit("× ");
    reveal_strlit("×");
    reveal_strlit(" ");
    assert("✓"@ + " "@ =~= "✓ "@);
    assert("i"@ + " "@ =~= "i "@);
    assert("!"@ + " "@ =~= "! "@);
    assert("×"@ + " "@ =~= "× "@);
}

/// A plan is shown under its heading, each step with the sign of how far it is, and
/// ends with a blank row.
pub proof fn law_a_plan_shows_each_step(
    entries: Seq<PlanEntry>,
    context: MessageContextView,
    labels: ChatLabels,
    i: int,
)
    requires
        0 <= i < entries.len(),
    ensures
        ({
            let rows = message_rows(ChatMessageView::Plan(entries), context, labels);
            let sign = match entries[i].status {
                PlanEntryStatus::Completed => labels.plan_marker_completed,
                PlanEntryStatus::InProgress => labels.plan_marker_in_progress,
                PlanEntryStatus::Pending => labels.plan_marker_pending,
            };
            &&& rows.len() == entries.len() + 2
            &&& rows[0] == seq![SpanView { text: labels.plan_header@, style: Style::Plan }]
            &&& rows[i + 1].len() == 1
            &&& rows[i + 1][0].text == "  "@ + sign@ + " "@ + truncated(entries[i].content@)
            &&& rows.last().len() == 0
        }),
{
}

/// A card begins with a row that says what is called: its sign, its title, and in the
/// colour of how it went.
pub proof fn law_a_card_says_what_is_called(
    card: ToolCardView,
    context: MessageContextView,
    labels: ChatLabels,
)
    ensures
        ({
            let row = message_rows(ChatMessageView::ToolCall(card), context, labels)[0];
            let waits = context.permission_tool_call_id == Some(card.id) || active_status(
                card.status,
            );
            &&& row.len() >= 3
            &&& row[0].style == presented(card.status).1
            &&& waits ==> row[0].text == breath(context.activity_frame).shown()
            &&& !waits ==> row[0].text == presented(card.status).0.shown()
            &&& row[1].text == " "@
            &&& row[2].text == truncated(card.title)
            &&& row[2].style is ToolCallTitle
        }),
{
}

/// Behind the title stands the place that the call is about, where it is a path.
pub proof fn law_a_card_names_its_path(
    card: ToolCardView,
    path: Seq<char>,
    context: MessageContextView,
    labels: ChatLabels,
)
    requires
        card.location == Some(path),
        path.len() > 0,
    ensures
        ({
            let row = message_rows(ChatMessageView::ToolCall(card), context, labels)[0];
            !card.location_is_command ==> row.len() >= 4 && row[3] == (SpanView {
                text: " ("@ + truncated(path) + ")"@,
                style: Style::Dim,
            })
        }),
{
}

/// A command that ended shows its code at the end of the row, unless its status
/// says so already.
pub proof fn law_a_command_shows_its_code(
    card: ToolCardView,
    code: i32,
    context: MessageContextView,
    labels: ChatLabels,
)
    requires
        card.exit_code == Some(code),
        card.kind is Execute,
        !context.detailed_tools,
        !begins_ignore_case(card.status, "exited ("@),
        !begins_ignore_case(card.status, "failed:"@),
    ensures
        message_rows(ChatMessageView::ToolCall(card), context, labels)[0].last() == (SpanView {
            text: " · exit "@ + decimal_int(code as int),
            style: Style::Dim,
        }),
{
    let row = message_rows(ChatMessageView::ToolCall(card), context, labels)[0];
    let front = seq![
        span_of(card_marker(card, context).shown(), presented(card.status).1),
        span_of(" "@, Style::Plain),
        span_of(truncated(card.title), Style::ToolCallTitle),
    ] + dim_span(card_path(card)) + dim_span(card_cwd(card)) + dim_span(card_detail(card));
    assert(row == front + dim_span(card_exit(card, false)));
}

/// A command is shown below its card, row by row, in the colour of code.
pub proof fn law_a_command_is_shown_below_its_card(
    card: ToolCardView,
    command: Seq<char>,
    context: MessageContextView,
    labels: ChatLabels,
    i: int,
)
    requires
        card.location == Some(command),
        card.location_is_command,
        0 <= i < command_rows(command).len(),
    ensures
        message_rows(ChatMessageView::ToolCall(card), context, labels)[i + 1] == seq![
            SpanView { text: command_rows(command)[i], style: Style::CardCode },
        ],
{
    let below = card_command(card) + card_output(card, context.detailed_tools) + card_details(
        card,
        context.detailed_tools,
    );
    assert(below[i] == card_command(card)[i]);
}

/// What the pane says for itself is shown line by line; of what a hook reported the
/// first line is the heading.
pub proof fn law_reports_are_shown_line_by_line(
    text: Seq<char>,
    context: MessageContextView,
    labels: ChatLabels,
    i: int,
)
    requires
        0 <= i < lines_of(text).len(),
    ensures
        ({
            let rows = message_rows(ChatMessageView::AgentEvent(text), context, labels);
            &&& rows.len() == lines_of(text).len() + 1
            &&& rows[i].len() == 1
            &&& rows[i][0].text == truncated(lines_of(text)[i])
            &&& i == 0 ==> rows[i][0].style is AgentEventHeader
            &&& i > 0 ==> rows[i][0].style is AgentEventDetail
            &&& rows.last().len() == 0
        }),
{
}

/// A command that ran elsewhere says where, unless its title does.
pub proof fn law_a_command_says_where_it_ran(
    card: ToolCardView,
    cwd: Seq<char>,
    context: MessageContextView,
    labels: ChatLabels,
)
    requires
        card.cwd == Some(cwd),
        cwd.len() > 0,
        card.kind is Execute,
        card.location is None,
    ensures
        ({
            let row = message_rows(ChatMessageView::ToolCall(card), context, labels)[0];
            !occurs(card.title, cwd) ==> row.len() >= 4 && row[3] == (SpanView {
                text: " ("@ + truncated(cwd) + ")"@,
                style: Style::Dim,
            })
        }),
{
}

/// What a command printed is shown below it, line by line behind a bar.
pub proof fn law_output_is_shown_behind_a_bar(
    card: ToolCardView,
    output: ToolCallOutput,
    context: MessageContextView,
    labels: ChatLabels,
    i: int,
)
    requires
        card.output == Some(output),
        card.kind is Execute,
        !card.location_is_command,
        !context.detailed_tools,
        0 <= i < tool_output(output).len(),
    ensures
        message_rows(ChatMessageView::ToolCall(card), context, labels)[i + 1] == seq![
            SpanView { text: "    │ "@ + tool_output(output)[i], style: Style::Dim },
        ],
{
    let below = card_command(card) + card_output(card, context.detailed_tools) + card_details(
        card,
        context.detailed_tools,
    );
    assert(card_command(card).len() == 0);
    assert(below[i] == card_output(card, false)[i]);
}

/// A status that says more says it behind the title.
pub proof fn law_a_status_says_more_behind_the_title(
    card: ToolCardView,
    detail: Seq<char>,
    context: MessageContextView,
    labels: ChatLabels,
)
    requires
        presented(card.status).2 == Some(detail),
        detail.len() > 0,
        card.location is None,
        card.cwd is None,
    ensures
        ({
            let row = message_rows(ChatMessageView::ToolCall(card), context, labels)[0];
            row.len() >= 4 && row[3] == (SpanView {
                text: " · "@ + truncated(detail),
                style: Style::Dim,
            })
        }),
{
}

/// The disclaimer is one row, set in.
pub proof fn law_the_disclaimer_is_one_row(context: MessageContextView, labels: ChatLabels)
    ensures
        message_rows(ChatMessageView::Disclaimer, context, labels).len() == 1,
        message_rows(ChatMessageView::Disclaimer, context, labels)[0][1].text
            == labels.welcome_disclaimer@,
{
}

} // verus!
