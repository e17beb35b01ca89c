//! What of the conversation is in sight.

use std::borrow::Cow;

use vstd::prelude::*;

use crate::app::state::{App, AppView, ConnectionState};
use crate::chat::line::{lines_view, Line, LineView, Style};
use crate::chat::message::{
    build_message_lines_with_details, message_rows, ChatLabels, MessageContext, MessageContextView,
};
use crate::chat::turn::{build_completed_turn_lines, turn_rows};
use crate::chat::wrap::{
    at_least_one, capped, dot_mark, lines_height, marked_text, push_dot_prefixed_lines,
    rendered_lines_height,
};
use crate::tab::{TabSession, TabView};
use crate::text::{all_white, chars_of, is_blank, string_of};
use crate::transcript::{ChatMessage, ChatMessageView};

verus! {

// ---------------------------------------------------------------------------
// Activity
// ---------------------------------------------------------------------------

impl TabView {
    /// The tab shows that its agent thinks.
    pub open spec fn thinks(self) -> bool {
        self.turn.in_flight()
    }

    /// The tool call that waits for the user's permission.
    pub open spec fn permission_card(self) -> Option<Seq<char>> {
        if self.permission.len() > 0 {
            Some(self.permission[0].tool_call_id@)
        } else {
            None
        }
    }

    /// The message that is being streamed: the last one, where the agent is
    /// answering and it is the agent's.
    pub open spec fn streaming_index(self) -> Option<int> {
        if self.turn is Streaming && self.messages.len() > 0 && self.messages.last() is Agent {
            Some(self.messages.len() - 1)
        } else {
            None
        }
    }

    /// The text that is being streamed, where there is something to see.
    pub open spec fn pending_text(self) -> Option<Seq<char>> {
        match self.streaming_index() {
            Some(i) => {
                let text = self.messages[i]->Agent_0;
                if all_white(text) {
                    None
                } else {
                    Some(text)
                }
            },
            None => None,
        }
    }
}

impl AppView {
    /// The pane shows that it is connecting, or that its agent thinks.
    pub open spec fn shows_activity(self) -> bool {
        self.agent.state is Connecting || self.current_tab().thinks()
    }

    /// The pane greets its user above the conversation.
    pub open spec fn greets(self) -> bool {
        self.screen.show_welcome_hint && self.agent.state is Connected
    }
}

/// What the pane shows that it is doing, and the frame of the animation.
#[derive(Clone, Copy, Debug, PartialEq, Eq, Structural)]
pub enum Activity {
    Connecting(u64),
    Thinking(usize),
}

impl AppView {
    /// What the pane shows that it is doing: no turn can be under way before it
    /// is connected, so connecting comes first.
    pub open spec fn activity_shown(self) -> Option<Activity> {
        if self.agent.state is Connecting {
            Some(Activity::Connecting(self.screen.activity_frame))
        } else if self.current_tab().thinks() {
            Some(Activity::Thinking(self.current_tab().activity_frame))
        } else {
            None
        }
    }
}

/// What the pane shows that it is doing.
pub fn shown_activity(app: &App) -> (r: Option<Activity>)
    ensures
        r == app@.activity_shown(),
        r is Some == app@.shows_activity(),
{
    if let ConnectionState::Connecting(_) = app.agent.state {
        return Some(Activity::Connecting(app.screen.activity_frame));
    }
    match app.current_tab() {
        Some(tab) => if should_show_turn_activity(tab) {
            Some(Activity::Thinking(tab.activity_frame))
        } else {
            None
        },
        None => None,
    }
}

/// Whether a tab shows that its agent thinks.
pub fn should_show_turn_activity(tab: &TabSession) -> (r: bool)
    ensures
        r == tab@.thinks(),
{
    tab.turn.is_in_flight()
}

/// Whether the pane shows that it is connecting, or that its agent thinks.
pub fn should_show_activity(app: &App) -> (r: bool)
    ensures
        r == app@.shows_activity(),
{
    let connecting = match app.agent.state {
        ConnectionState::Connecting(_) => true,
        _ => false,
    };
    connecting || match app.current_tab() {
        Some(tab) => should_show_turn_activity(tab),
        None => false,
    }
}

/// The tool call that waits for the user's permission.
pub fn permission_tool_call_id(tab: &TabSession) -> (r: Option<&str>)
    ensures
        match r {
            Some(id) => tab@.permission_card() == Some(id@),
            None => tab@.permission_card() is None,
        },
{
    if tab.permission.len() > 0 {
        Some(tab.permission[0].tool_call_id.as_str())
    } else {
        None
    }
}

/// Whether the pane greets its user above the conversation.
pub fn greets(app: &App) -> (r: bool)
    ensures
        r == app@.greets(),
{
    let connected = match app.agent.state {
        ConnectionState::Connected => true,
        _ => false,
    };
    app.screen.show_welcome_hint && connected
}

// ---------------------------------------------------------------------------
// The answer that is being streamed
// ---------------------------------------------------------------------------

/// Text of the agent that there is something to see of.
pub fn user_visible_stream_text<'a>(text: &'a str) -> (r: Option<Cow<'a, str>>)
    ensures
        match r {
            Some(shown) => !all_white(text@) && shown is Borrowed && shown@ == text@,
            None => all_white(text@),
        },
{
    if is_blank(text) {
        None
    } else {
        Some(Cow::Borrowed(text))
    }
}

fn streaming_text(tab: &TabSession) -> (r: Option<&str>)
    ensures
        match r {
            Some(text) => tab@.streaming_index() is Some && tab@.messages.last()
                == ChatMessageView::Agent(text@),
            None => tab@.streaming_index() is None,
        },
{
    let n: usize = tab.messages.len();
    proof {
        assert(tab@.messages.len() == n);
        if n > 0 {
            assert(tab@.messages.last() == tab.messages@[n - 1]@);
        }
    }
    if n == 0 || !tab.turn.is_streaming() {
        return None;
    }
    match &tab.messages[n - 1] {
        ChatMessage::Agent(text) => Some(text.as_str()),
        _ => None,
    }
}

fn pending_render_text(tab: &TabSession) -> (r: Option<&str>)
    ensures
        match r {
            Some(text) => tab@.pending_text() == Some(text@),
            None => tab@.pending_text() is None,
        },
{
    match streaming_text(tab) {
        Some(text) => match user_visible_stream_text(text) {
            Some(_) => Some(text),
            None => None,
        },
        None => None,
    }
}

/// What is already shown of a text: at least one character.
pub open spec fn revealed(text: Seq<char>, chars: usize) -> Seq<char> {
    let shown = if chars == 0 {
        1
    } else {
        chars
    };
    if shown >= text.len() {
        text
    } else {
        text.take(shown as int)
    }
}

/// The rows of the answer that is being streamed.
pub open spec fn pending_rows(tab: TabView, wrap_width: usize) -> Seq<LineView> {
    match tab.pending_text() {
        Some(text) => marked_text(
            revealed(text, tab.reveal_chars),
            wrap_width,
            dot_mark(Style::DotAgent, Style::AgentText),
        ),
        None => Seq::empty(),
    }
}

/// The rows of the answer that is being streamed.
pub fn build_pending_stream_lines(tab: &TabSession, wrap_width: usize) -> (r: Vec<Line>)
    ensures
        lines_view(r@) == pending_rows(tab@, wrap_width),
{
    let mut lines: Vec<Line> = Vec::new();
    proof {
        assert(lines_view(lines@) =~= Seq::<LineView>::empty());
    }
    if let Some(text) = pending_render_text(tab) {
        let chars = chars_of(text);
        let shown: usize = if tab.reveal_chars == 0 {
            1
        } else {
            tab.reveal_chars
        };
        if shown >= chars.len() {
            push_dot_prefixed_lines(
                &mut lines,
                text,
                wrap_width,
                Style::DotAgent,
                Style::AgentText,
            );
        } else {
            let part = string_of(&chars, 0, shown);
            proof {
                assert(part@ =~= text@.take(shown as int));
            }
            push_dot_prefixed_lines(
                &mut lines,
                part.as_str(),
                wrap_width,
                Style::DotAgent,
                Style::AgentText,
            );
        }
        proof {
            assert(lines_view(lines@) =~= pending_rows(tab@, wrap_width));
        }
    }
    lines
}

// ---------------------------------------------------------------------------
// Messages and turns
// ---------------------------------------------------------------------------

/// How the `i`-th message of a tab is drawn.
pub open spec fn message_context(tab: TabView, i: int, wrap_width: usize) -> MessageContextView {
    MessageContextView {
        is_last_message: i + 1 == tab.messages.len(),
        agent_streaming: tab.turn is Streaming,
        permission_tool_call_id: tab.permission_card(),
        activity_frame: tab.activity_frame as nat,
        wrap_width,
        detailed_tools: false,
    }
}

/// The rows of the `i`-th message of a tab. The one that is being streamed has
/// none here.
pub open spec fn block(tab: TabView, i: int, wrap_width: usize, labels: ChatLabels) -> Seq<
    LineView,
> {
    if tab.streaming_index() == Some(i) {
        Seq::empty()
    } else {
        message_rows(tab.messages[i], message_context(tab, i, wrap_width), labels)
    }
}

/// The rows of the messages of a tab from the `i`-th on.
pub open spec fn blocks_from(tab: TabView, i: int, wrap_width: usize, labels: ChatLabels) -> Seq<
    LineView,
>
    decreases tab.messages.len() - i,
{
    if i >= tab.messages.len() {
        Seq::empty()
    } else {
        block(tab, i, wrap_width, labels) + blocks_from(tab, i + 1, wrap_width, labels)
    }
}

/// The rows of the `i`-th turn of a tab.
pub open spec fn turn_block(
    tab: TabView,
    i: int,
    pane_focused: bool,
    wrap_width: usize,
    labels: ChatLabels,
) -> Seq<LineView> {
    turn_rows(
        tab.completed_turns[i],
        tab.selected_completed_turn_idx == Some(i as usize),
        pane_focused,
        wrap_width,
        labels,
    )
}

/// The rows of the turns of a tab from the `i`-th on.
pub open spec fn turns_from(
    tab: TabView,
    i: int,
    pane_focused: bool,
    wrap_width: usize,
    labels: ChatLabels,
) -> Seq<LineView>
    decreases tab.completed_turns.len() - i,
{
    if i >= tab.completed_turns.len() {
        Seq::empty()
    } else {
        turn_block(tab, i, pane_focused, wrap_width, labels) + turns_from(
            tab,
            i + 1,
            pane_focused,
            wrap_width,
            labels,
        )
    }
}

/// Whether the `i`-th message of a tab is being streamed.
pub fn is_streaming_message(tab: &TabSession, i: usize) -> (r: bool)
    requires
        i < tab.messages@.len(),
    ensures
        r == (tab@.streaming_index() == Some(i as int)),
{
    proof {
        assert(tab@.messages.len() == tab.messages@.len());
    }
    i == tab.messages.len() - 1 && streaming_text(tab).is_some()
}

/// The rows of the `i`-th message of a tab.
pub fn message_block(tab: &TabSession, i: usize, wrap_width: usize, labels: &ChatLabels) -> (r: Vec<
    Line,
>)
    requires
        i < tab.messages@.len(),
        tab@.streaming_index() != Some(i as int),
    ensures
        lines_view(r@) == block(tab@, i as int, wrap_width, *labels),
{
    let context = MessageContext {
        is_last_message: i == tab.messages.len() - 1,
        agent_streaming: tab.turn.is_streaming(),
        permission_tool_call_id: permission_tool_call_id(tab),
        activity_frame: tab.activity_frame,
        wrap_width,
        detailed_tools: false,
    };
    proof {
        assert(tab@.messages.len() == tab.messages@.len());
        assert(tab@.messages[i as int] == tab.messages@[i as int]@);
        assert(context@ == message_context(tab@, i as int, wrap_width));
    }
    build_message_lines_with_details(&tab.messages[i], &context, labels)
}

// ---------------------------------------------------------------------------
// Height
// ---------------------------------------------------------------------------

/// The rows of the terminal that the messages of a tab take, up to the `n`-th.
pub open spec fn blocks_height(tab: TabView, n: int, width: usize, labels: ChatLabels) -> nat
    decreases n,
{
    if n <= 0 {
        0
    } else {
        blocks_height(tab, n - 1, width, labels) + lines_height(
            block(tab, n - 1, width, labels),
            width,
        )
    }
}

/// The rows of the terminal that the turns of a tab take, up to the `n`-th,
/// none of them highlighted.
pub open spec fn turns_height(tab: TabView, n: int, width: usize, labels: ChatLabels) -> nat
    decreases n,
{
    if n <= 0 {
        0
    } else {
        turns_height(tab, n - 1, width, labels) + lines_height(
            turn_rows(tab.completed_turns[n - 1], false, false, width, labels),
            width,
        )
    }
}

/// The rows of the terminal that the conversation of a pane takes.
pub open spec fn natural_height(app: AppView, width: usize, labels: ChatLabels) -> nat {
    let tab = app.current_tab();
    blocks_height(tab, tab.messages.len() as int, width, labels) + turns_height(
        tab,
        tab.completed_turns.len() as int,
        width,
        labels,
    ) + lines_height(pending_rows(tab, width), width) + (if app.greets() {
        1nat
    } else {
        0nat
    })
}

/// A height that can be drawn: at least one row, and no more than a screen can
/// have.
pub open spec fn drawable(height: nat) -> u16 {
    if height == 0 {
        1
    } else if height > u16::MAX {
        u16::MAX
    } else {
        height as u16
    }
}

proof fn lemma_sum_capped(a: nat, b: nat)
    ensures
        capped(a) + capped(b) > usize::MAX ==> capped(a + b) == usize::MAX,
        capped(a) + capped(b) <= usize::MAX ==> capped(a + b) == capped(a) + capped(b),
{
}

fn height_of_blocks(tab: &TabSession, width: usize, labels: &ChatLabels) -> (r: usize)
    requires
        width > 0,
    ensures
        r == capped(blocks_height(tab@, tab@.messages.len() as int, width, *labels)),
{
    let mut total: usize = 0;
    let mut i: usize = 0;
    proof {
        assert(tab@.messages.len() == tab.messages@.len());
    }
    while i < tab.messages.len()
        invariant
            i <= tab.messages@.len(),
            tab@.messages.len() == tab.messages@.len(),
            width > 0,
            total == capped(blocks_height(tab@, i as int, width, *labels)),
        decreases tab.messages.len() - i,
    {
        if !is_streaming_message(tab, i) {
            let lines = message_block(tab, i, width, labels);
            let height: usize = rendered_lines_height(&lines, width);
            proof {
                lemma_sum_capped(
                    blocks_height(tab@, i as int, width, *labels),
                    lines_height(lines_view(lines@), width),
                );
            }
            total = total.saturating_add(height);
        }
        i += 1;
    }
    total
}

fn height_of_turns(tab: &TabSession, width: usize, labels: &ChatLabels) -> (r: usize)
    requires
        width > 0,
    ensures
        r == capped(turns_height(tab@, tab@.completed_turns.len() as int, width, *labels)),
{
    let mut total: usize = 0;
    let mut i: usize = 0;
    proof {
        assert(tab@.completed_turns.len() == tab.completed_turns@.len());
    }
    while i < tab.completed_turns.len()
        invariant
            i <= tab.completed_turns@.len(),
            tab@.completed_turns.len() == tab.completed_turns@.len(),
            width > 0,
            total == capped(turns_height(tab@, i as int, width, *labels)),
        decreases tab.completed_turns.len() - i,
    {
        let lines = build_completed_turn_lines(&tab.completed_turns[i], false, false, width, labels);
        let height: usize = rendered_lines_height(&lines, width);
        proof {
            assert(tab@.completed_turns[i as int] == tab.completed_turns@[i as int]@);
            lemma_sum_capped(
                turns_height(tab@, i as int, width, *labels),
                lines_height(lines_view(lines@), width),
            );
        }
        total = total.saturating_add(height);
        i += 1;
    }
    total
}

/// The rows of the terminal that the conversation takes at a width.
pub fn estimated_block_height(app: &App, area_width: u16, labels: &ChatLabels) -> (r: u16)
    ensures
        r == drawable(natural_height(app@, at_least_one(area_width as usize), *labels)),
{
    let width: usize = if area_width == 0 {
        1
    } else {
        area_width as usize
    };
    let fresh = TabSession::default();
    let tab: &TabSession = match app.current_tab() {
        Some(tab) => tab,
        None => &fresh,
    };
    let messages: usize = height_of_blocks(tab, width, labels);
    let turns: usize = height_of_turns(tab, width, labels);
    let pending_lines = build_pending_stream_lines(tab, width);
    let pending: usize = rendered_lines_height(&pending_lines, width);
    let welcome: usize = if greets(app) {
        1
    } else {
        0
    };
    let total: usize = messages.saturating_add(turns).saturating_add(pending).saturating_add(
        welcome,
    );
    if total == 0 {
        1
    } else if total > 65535 {
        65535
    } else {
        total as u16
    }
}

// ---------------------------------------------------------------------------
// Laws
// ---------------------------------------------------------------------------

/// Somebody who waits sees that: while the agent connects, and while it works.
pub proof fn law_work_is_seen(app: AppView)
    ensures
        app.agent.state is Connecting ==> app.activity_shown() == Some(
            Activity::Connecting(app.screen.activity_frame),
        ),
        !(app.agent.state is Connecting) && (app.current_tab().turn is Submitted
            || app.current_tab().turn is Streaming) ==> app.activity_shown() == Some(
            Activity::Thinking(app.current_tab().activity_frame),
        ),
        !(app.agent.state is Connecting) && (app.current_tab().turn is Idle
            || app.current_tab().turn is Surfaced) ==> app.activity_shown() is None,
        app.shows_activity() <==> app.activity_shown() is Some,
        app.greets() <==> app.screen.show_welcome_hint && app.agent.state is Connected,
{
}

/// An answer that is coming is shown as far as it was revealed, at least its first
/// character, and only once.
pub proof fn law_a_coming_answer_is_shown_once(tab: TabView, text: Seq<char>, wrap_width: usize, labels: ChatLabels)
    requires
        tab.turn is Streaming,
        tab.messages.len() > 0,
        tab.messages.last() == ChatMessageView::Agent(text),
    ensures
        ({
            let shown: int = if tab.reveal_chars == 0 { 1 } else { tab.reveal_chars as int };
            let mark = dot_mark(Style::DotAgent, Style::AgentText);
            &&& block(tab, tab.messages.len() - 1, wrap_width, labels).len() == 0
            &&& !all_white(text) && text.len() <= shown ==> pending_rows(tab, wrap_width)
                == marked_text(text, wrap_width, mark)
            &&& !all_white(text) && text.len() > shown ==> pending_rows(tab, wrap_width)
                == marked_text(text.take(shown), wrap_width, mark)
            &&& all_white(text) ==> pending_rows(tab, wrap_width).len() == 0
        }),
{
}

/// Every other message is shown as it is, with the card that waits for permission
/// made out.
pub proof fn law_every_message_is_shown(tab: TabView, i: int, wrap_width: usize, labels: ChatLabels)
    requires
        0 <= i < tab.messages.len(),
        !(tab.turn is Streaming) || i < tab.messages.len() - 1 || !(tab.messages[i] is Agent),
    ensures
        block(tab, i, wrap_width, labels) == message_rows(
            tab.messages[i],
            MessageContextView {
                is_last_message: i == tab.messages.len() - 1,
                agent_streaming: tab.turn is Streaming,
                permission_tool_call_id: if tab.permission.len() > 0 {
                    Some(tab.permission[0].tool_call_id@)
                } else {
                    None
                },
                activity_frame: tab.activity_frame as nat,
                wrap_width,
                detailed_tools: false,
            },
            labels,
        ),
{
}

/// A pane is as high as what it shows, within what can be drawn.
pub proof fn law_a_pane_is_as_high_as_what_it_shows(height: nat)
    ensures
        1 <= height <= u16::MAX ==> drawable(height) == height,
        height == 0 ==> drawable(height) == 1,
        height > u16::MAX ==> drawable(height) == u16::MAX,
{
}

/// A pane needs a row for the greeting, and the rows of everything in it.
pub proof fn law_everything_needs_its_rows(app: AppView, width: usize, labels: ChatLabels)
    requires
        app.current_tab().messages.len() == 0,
        app.current_tab().completed_turns.len() == 0,
    ensures
        app.screen.show_welcome_hint && app.agent.state is Connected ==> natural_height(
            app,
            width,
            labels,
        ) == 1,
        !(app.screen.show_welcome_hint && app.agent.state is Connected) ==> natural_height(
            app,
            width,
            labels,
        ) == 0,
{
    assert(pending_rows(app.current_tab(), width).len() == 0);
    reveal_with_fuel(lines_height, 1);
}

/// Each message and each turn adds the rows that it is shown in.
pub proof fn law_heights_add_up_one_by_one(tab: TabView, n: int, width: usize, labels: ChatLabels)
    requires
        n >= 0,
    ensures
        blocks_height(tab, 0, width, labels) == 0,
        turns_height(tab, 0, width, labels) == 0,
        blocks_height(tab, n + 1, width, labels) == blocks_height(tab, n, width, labels)
            + lines_height(block(tab, n, width, labels), width),
        turns_height(tab, n + 1, width, labels) == turns_height(tab, n, width, labels)
            + lines_height(turn_rows(tab.completed_turns[n], false, false, width, labels), width),
{
}

} // verus!
