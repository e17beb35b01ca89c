//! What happens to one tab.

use vstd::prelude::*;
use vstd::string::*;

use crate::tab::{AgentActivityOutcome, TabSession, TabView, TurnState};
use crate::text::{is_empty_text, opt_view, same};
use crate::transcript::{
    copy_text, messages_view, turns_view, ChatMessage, ChatMessageView, CompletedTurnView,
    ToolCallContent, ToolCallKind, ToolCallLocation, ToolCallOutput, ToolCard, ToolCardView,
};
use crate::usage::{UsageSnapshot, UsageStaleness};

verus! {

// ---------------------------------------------------------------------------
// Messages
// ---------------------------------------------------------------------------

/// What is taken out of a conversation.
pub enum Removal<'a> {
    /// The errors.
    Errors,
    /// The card of one tool call.
    Card(&'a str),
}

impl<'a> Removal<'a> {
    /// Whether the removal takes a message.
    pub open spec fn takes(self, m: ChatMessageView) -> bool {
        match self {
            Removal::Errors => m is Error,
            Removal::Card(id) => m is ToolCall && m->ToolCall_0.id == id@,
        }
    }

    /// What is left of the messages.
    pub open spec fn leaves(self, messages: Seq<ChatMessageView>) -> Seq<ChatMessageView> {
        messages.filter(|m: ChatMessageView| !self.takes(m))
    }

    fn takes_message(&self, m: &ChatMessage) -> (r: bool)
        ensures
            r == self.takes(m@),
    {
        match self {
            Removal::Errors => match m {
                ChatMessage::Error(_) => true,
                _ => false,
            },
            Removal::Card(id) => match m {
                ChatMessage::ToolCall(card) => same(card.id.as_str(), id),
                _ => false,
            },
        }
    }
}

/// Takes messages out of a conversation.
pub fn remove_messages(messages: &mut Vec<ChatMessage>, removal: Removal<'_>)
    ensures
        messages_view(final(messages)@) == removal.leaves(messages_view(old(messages)@)),
{
    let mut rest: Vec<ChatMessage> = Vec::new();
    std::mem::swap(messages, &mut rest);
    let ghost all = messages_view(rest@);
    let ghost p = |m: ChatMessageView| !removal.takes(m);
    let mut kept: Vec<ChatMessage> = Vec::new();
    proof {
        assert(messages_view(kept@) =~= all.take(0).filter(p)) by {
            reveal_with_fuel(Seq::filter, 1);
        }
        assert(messages_view(rest@) =~= all.skip(0));
    }
    while rest.len() > 0
        invariant
            rest@.len() <= all.len(),
            p == (|m: ChatMessageView| !removal.takes(m)),
            messages_view(rest@) == all.skip(all.len() - rest@.len()),
            messages_view(kept@) == all.take(all.len() - rest@.len()).filter(p),
        decreases rest.len(),
    {
        let ghost n = all.len() - rest@.len();
        let ghost was = messages_view(rest@);
        let m = rest.remove(0);
        proof {
            assert(m@ == was[0]);
            assert(all[n] == m@);
            assert(messages_view(rest@) =~= was.skip(1));
            assert(all.skip(n).skip(1) =~= all.skip(n + 1));
            assert(all.take(n + 1) =~= all.take(n).push(m@));
            all.take(n).lemma_filter_push(m@, p);
        }
        if !removal.takes_message(&m) {
            let ghost had = messages_view(kept@);
            kept.push(m);
            proof {
                assert(messages_view(kept@) =~= had.push(m@));
            }
        }
    }
    proof {
        assert(all.take(all.len() as int) =~= all);
    }
    *messages = kept;
}

// ---------------------------------------------------------------------------
// Tool calls
// ---------------------------------------------------------------------------

/// News of a tool call: what is absent has not changed.
pub struct ToolCallPatch {
    pub id: String,
    pub title: Option<String>,
    pub status: Option<String>,
    pub kind: Option<ToolCallKind>,
    pub location: Option<String>,
    pub location_is_command: bool,
    pub cwd: Option<String>,
    pub output: Option<ToolCallOutput>,
    pub exit_code: Option<i32>,
    pub content: Option<Vec<ToolCallContent>>,
    pub locations: Option<Vec<ToolCallLocation>>,
}

/// A new text where there is one.
pub open spec fn or_text(new: Option<String>, current: Seq<char>) -> Seq<char> {
    match new {
        Some(s) => s@,
        None => current,
    }
}

impl ToolCallPatch {
    /// Whether the news say anew what the call touches.
    pub open spec fn relocates(&self) -> bool {
        self.location is Some || self.locations is Some
    }

    /// A card after the news.
    pub open spec fn patched(&self, card: ToolCardView) -> ToolCardView {
        if card.id != self.id@ {
            card
        } else {
            ToolCardView {
                id: card.id,
                title: or_text(self.title, card.title),
                status: or_text(self.status, card.status),
                kind: match self.kind {
                    Some(kind) => kind,
                    None => card.kind,
                },
                location: if self.relocates() {
                    opt_view(self.location)
                } else {
                    card.location
                },
                location_is_command: if self.relocates() {
                    self.location_is_command
                } else {
                    card.location_is_command
                },
                cwd: match self.cwd {
                    Some(cwd) => if cwd@.len() > 0 {
                        Some(cwd@)
                    } else {
                        None
                    },
                    None => card.cwd,
                },
                output: match self.output {
                    Some(output) => if output.text@.len() > 0 {
                        Some(output)
                    } else {
                        None
                    },
                    None => card.output,
                },
                exit_code: match self.exit_code {
                    Some(code) => Some(code),
                    None => card.exit_code,
                },
                content: match self.content {
                    Some(content) => content@,
                    None => card.content,
                },
                locations: match self.locations {
                    Some(locations) => locations@,
                    None => card.locations,
                },
            }
        }
    }

    /// A message after the news: only the card of this call changes.
    pub open spec fn patched_message(&self, m: ChatMessageView) -> ChatMessageView {
        match m {
            ChatMessageView::ToolCall(card) => ChatMessageView::ToolCall(self.patched(card)),
            other => other,
        }
    }

    fn patch(&self, card: &mut ToolCard)
        ensures
            final(card)@ == self.patched(old(card)@),
    {
        if !same(card.id.as_str(), self.id.as_str()) {
            return;
        }
        if let Some(title) = &self.title {
            card.title = title.clone();
        }
        if let Some(status) = &self.status {
            card.status = status.clone();
        }
        if let Some(kind) = self.kind {
            card.kind = kind;
        }
        if self.location.is_some() || self.locations.is_some() {
            card.location = copy_text(&self.location);
            card.location_is_command = self.location_is_command;
        }
        if let Some(output) = &self.output {
            card.output = if is_empty_text(output.text.as_str()) {
                None
            } else {
                Some(output.clone())
            };
        }
        if let Some(content) = &self.content {
            card.content = copy_content(content);
        }
        if let Some(locations) = &self.locations {
            card.locations = copy_locations(locations);
        }
        if let Some(cwd) = &self.cwd {
            card.cwd = if is_empty_text(cwd.as_str()) {
                None
            } else {
                Some(cwd.clone())
            };
        }
        if let Some(code) = self.exit_code {
            card.exit_code = Some(code);
        }
    }
}

fn copy_content(v: &Vec<ToolCallContent>) -> (r: Vec<ToolCallContent>)
    ensures
        r@ == v@,
{
    let mut out: Vec<ToolCallContent> = Vec::new();
    let mut i: usize = 0;
    while i < v.len()
        invariant
            i <= v.len(),
            out@ == v@.take(i as int),
        decreases v.len() - i,
    {
        out.push(v[i].clone());
        proof {
            assert(v@.take(i + 1) =~= v@.take(i as int).push(v@[i as int]));
        }
        i += 1;
    }
    proof {
        assert(v@.take(v@.len() as int) =~= v@);
    }
    out
}

fn copy_locations(v: &Vec<ToolCallLocation>) -> (r: Vec<ToolCallLocation>)
    ensures
        r@ == v@,
{
    let mut out: Vec<ToolCallLocation> = Vec::new();
    let mut i: usize = 0;
    while i < v.len()
        invariant
            i <= v.len(),
            out@ == v@.take(i as int),
        decreases v.len() - i,
    {
        out.push(v[i].clone());
        proof {
            assert(v@.take(i + 1) =~= v@.take(i as int).push(v@[i as int]));
        }
        i += 1;
    }
    proof {
        assert(v@.take(v@.len() as int) =~= v@);
    }
    out
}

/// Brings the news of a tool call to its card.
pub fn patch_messages(messages: &mut Vec<ChatMessage>, patch: &ToolCallPatch)
    ensures
        messages_view(final(messages)@) == messages_view(old(messages)@).map_values(
            |m: ChatMessageView| patch.patched_message(m),
        ),
{
    let ghost all = messages_view(messages@);
    let ghost f = |m: ChatMessageView| patch.patched_message(m);
    let mut i: usize = 0;
    while i < messages.len()
        invariant
            i <= messages.len(),
            messages.len() == all.len(),
            f == (|m: ChatMessageView| patch.patched_message(m)),
            forall|k: int| 0 <= k < i ==> (#[trigger] messages@[k])@ == f(all[k]),
            forall|k: int| i <= k < messages.len() ==> (#[trigger] messages@[k])@ == all[k],
        decreases messages.len() - i,
    {
        let m = &mut messages[i];
        match m {
            ChatMessage::ToolCall(card) => {
                patch.patch(card);
            },
            _ => {},
        }
        i += 1;
    }
    proof {
        assert(messages_view(messages@) =~= all.map_values(f));
    }
}

/// Output of a terminal that tool calls run in.
pub struct TerminalOutput {
    pub terminal_id: String,
    pub output: ToolCallOutput,
    pub exit_code: Option<i32>,
}

impl TerminalOutput {
    /// Whether a piece of content is this terminal.
    pub open spec fn is_terminal(&self, item: ToolCallContent) -> bool {
        item is Terminal && item->Terminal_id@ == self.terminal_id@
    }

    /// A new exit code where there is one.
    pub open spec fn or_exit(&self, current: Option<i32>) -> Option<i32> {
        if self.exit_code is Some {
            self.exit_code
        } else {
            current
        }
    }

    /// A piece of content after the news.
    pub open spec fn updated_item(&self, item: ToolCallContent) -> ToolCallContent {
        match item {
            ToolCallContent::Terminal { id, output, exit_code } if id@ == self.terminal_id@ =>
                ToolCallContent::Terminal {
                id,
                output: Some(self.output),
                exit_code: self.or_exit(exit_code),
            },
            other => other,
        }
    }

    /// A card after the news: one that shows the terminal shows its output too.
    pub open spec fn updated(&self, card: ToolCardView) -> ToolCardView {
        let content = card.content.map_values(|item: ToolCallContent| self.updated_item(item));
        if card.content.any(|item: ToolCallContent| self.is_terminal(item)) {
            ToolCardView {
                content,
                output: Some(self.output),
                exit_code: self.or_exit(card.exit_code),
                ..card
            }
        } else {
            ToolCardView { content, ..card }
        }
    }

    /// A message after the news.
    pub open spec fn updated_message(&self, m: ChatMessageView) -> ChatMessageView {
        match m {
            ChatMessageView::ToolCall(card) => ChatMessageView::ToolCall(self.updated(card)),
            other => other,
        }
    }

    /// Messages after the news.
    pub open spec fn updated_messages(&self, messages: Seq<ChatMessageView>) -> Seq<ChatMessageView> {
        messages.map_values(|m: ChatMessageView| self.updated_message(m))
    }

    /// A turn that is over, after the news.
    pub open spec fn updated_turn(&self, turn: CompletedTurnView) -> CompletedTurnView {
        CompletedTurnView { details: self.updated_messages(turn.details), ..turn }
    }

    fn update_item(&self, item: &mut ToolCallContent) -> (r: bool)
        ensures
            r == self.is_terminal(*old(item)),
            *final(item) == self.updated_item(*old(item)),
    {
        match item {
            ToolCallContent::Terminal { id, output, exit_code } => {
                if same(id.as_str(), self.terminal_id.as_str()) {
                    *output = Some(self.output.clone());
                    if self.exit_code.is_some() {
                        *exit_code = self.exit_code;
                    }
                    true
                } else {
                    false
                }
            },
            _ => false,
        }
    }

    fn update_card(&self, card: &mut ToolCard)
        ensures
            final(card)@ == self.updated(old(card)@),
    {
        let ghost before = card.content@;
        let ghost is = |item: ToolCallContent| self.is_terminal(item);
        let mut seen = false;
        let mut i: usize = 0;
        while i < card.content.len()
            invariant
                i <= card.content.len(),
                card.content.len() == before.len(),
                is == (|item: ToolCallContent| self.is_terminal(item)),
                card@ == (ToolCardView { content: card.content@, ..old(card)@ }),
                seen == exists|k: int| 0 <= k < i && #[trigger] is(before[k]),
                forall|k: int| 0 <= k < i ==> #[trigger] card.content@[k] == self.updated_item(before[k]),
                forall|k: int| i <= k < before.len() ==> #[trigger] card.content@[k] == before[k],
            decreases card.content.len() - i,
        {
            let hit = self.update_item(&mut card.content[i]);
            proof {
                assert(is(before[i as int]) == hit);
            }
            if hit {
                seen = true;
            }
            i += 1;
        }
        proof {
            assert(card.content@ =~= before.map_values(|item: ToolCallContent| self.updated_item(item)));
            assert(seen == before.any(is));
        }
        if seen {
            card.output = Some(self.output.clone());
            if self.exit_code.is_some() {
                card.exit_code = self.exit_code;
            }
        }
    }

    /// Brings the output of the terminal to the cards that show it.
    pub fn update_messages(&self, messages: &mut Vec<ChatMessage>)
        ensures
            messages_view(final(messages)@) == self.updated_messages(messages_view(old(messages)@)),
    {
        let ghost all = messages_view(messages@);
        let ghost f = |m: ChatMessageView| self.updated_message(m);
        let mut i: usize = 0;
        while i < messages.len()
            invariant
                i <= messages.len(),
                messages.len() == all.len(),
                f == (|m: ChatMessageView| self.updated_message(m)),
                forall|k: int| 0 <= k < i ==> (#[trigger] messages@[k])@ == f(all[k]),
                forall|k: int| i <= k < messages.len() ==> (#[trigger] messages@[k])@ == all[k],
            decreases messages.len() - i,
        {
            let m = &mut messages[i];
            match m {
                ChatMessage::ToolCall(card) => {
                    self.update_card(card);
                },
                _ => {},
            }
            i += 1;
        }
        proof {
            assert(messages_view(messages@) =~= all.map_values(f));
        }
    }
}

// ---------------------------------------------------------------------------
// One tab
// ---------------------------------------------------------------------------

/// The generation after `n`; after the last comes the first.
pub open spec fn next_generation(n: u64) -> u64 {
    if n == u64::MAX {
        0
    } else {
        (n + 1) as u64
    }
}

impl TabView {
    /// The tab with one more message.
    pub open spec fn saying(self, m: ChatMessageView) -> TabView {
        TabView { messages: self.messages.push(m), ..self }
    }

    /// The tab scrolled to the bottom of its conversation.
    pub open spec fn at_bottom(self) -> TabView {
        TabView { chat_scroll: self.chat_scroll.bottom(), ..self }
    }

    /// The tab without a selected turn.
    pub open spec fn without_selection(self) -> TabView {
        TabView {
            selected_completed_turn_idx: None,
            completed_turn_selection_visible_pending: false,
            ..self
        }
    }

    /// The tab with a turn selected and about to be scrolled into sight.
    pub open spec fn selecting(self, i: int) -> TabView {
        TabView {
            selected_completed_turn_idx: Some(i as usize),
            completed_turn_selection_visible_pending: true,
            ..self
        }
    }

    /// The tab with a turn opened or closed.
    pub open spec fn with_expanded(self, i: int, expanded: bool) -> TabView {
        TabView {
            completed_turns: self.completed_turns.update(
                i,
                CompletedTurnView { expanded, ..self.completed_turns[i] },
            ),
            ..self
        }
    }

    /// The tab once the user's words of a replay are told.
    pub open spec fn user_flushed(self) -> TabView {
        if self.replay_user_buffer.len() > 0 {
            TabView {
                messages: self.messages.push(ChatMessageView::User(self.replay_user_buffer)),
                replay_user_buffer: Seq::empty(),
                ..self
            }
        } else {
            self
        }
    }

    /// The tab once the agent's words of a replay are told.
    pub open spec fn agent_flushed(self) -> TabView {
        if self.replay_agent_buffer.len() > 0 {
            TabView {
                messages: self.messages.push(ChatMessageView::Agent(self.replay_agent_buffer)),
                replay_agent_buffer: Seq::empty(),
                ..self
            }
        } else {
            self
        }
    }

    /// The tab once its turn, where it has one, is recorded as failed.
    pub open spec fn activity_failed(self) -> TabView {
        match self.turn.prompt_id() {
            Some(id) => TabView {
                activity_operation_id: id,
                activity_outcome: Some(AgentActivityOutcome::Failed),
                ..self
            },
            None => self,
        }
    }

    /// The tab without a turn.
    pub open spec fn idle(self) -> TabView {
        TabView { turn: TurnState::Idle, ..self }
    }

    /// The tab without its conversation.
    pub open spec fn history_cleared(self) -> TabView {
        TabView { messages: Seq::empty(), ..self.without_selection() }
    }

    /// The tab with no usage known.
    pub open spec fn usage_cleared(self) -> TabView {
        TabView {
            usage: None,
            usage_staleness: UsageStaleness { context: false, cost: false },
            ..self
        }
    }

    /// The tab once usage was reported.
    pub open spec fn usage_reported(self, snapshot: UsageSnapshot) -> TabView {
        TabView {
            usage: Some(
                match self.usage {
                    Some(current) => current.merged(snapshot),
                    None => snapshot,
                },
            ),
            usage_staleness: self.usage_staleness.reported(snapshot),
            ..self
        }
    }

    /// The tab with whatever is being pasted given up.
    pub open spec fn paste_invalidated(self) -> TabView {
        TabView {
            paste_generation: next_generation(self.paste_generation),
            paste_pending: false,
            ..self
        }
    }
}

impl TabSession {
    /// Adds a message.
    pub fn say(&mut self, m: ChatMessage)
        ensures
            final(self)@ == old(self)@.saying(m@),
    {
        self.messages.push(m);
        proof {
            assert(messages_view(self.messages@) =~= old(self)@.messages.push(m@));
        }
    }

    /// Scrolls to the bottom of the conversation.
    pub fn scroll_to_bottom(&mut self)
        ensures
            final(self)@ == old(self)@.at_bottom(),
    {
        self.chat_scroll.offset = 0;
    }

    /// Gives up the selection of a turn.
    pub fn clear_completed_turn_selection(&mut self)
        ensures
            final(self)@ == old(self)@.without_selection(),
    {
        self.selected_completed_turn_idx = None;
        self.completed_turn_selection_visible_pending = false;
    }

    /// Selects a turn, where there is one.
    pub fn select_completed_turn(&mut self, i: usize) -> (r: bool)
        ensures
            r == (i < old(self)@.completed_turns.len()),
            final(self)@ == (if r {
                old(self)@.selecting(i as int)
            } else {
                old(self)@
            }),
    {
        if i < self.completed_turns.len() {
            self.selected_completed_turn_idx = Some(i);
            self.completed_turn_selection_visible_pending = true;
            true
        } else {
            false
        }
    }

    /// Opens or closes a turn.
    pub fn set_expanded(&mut self, i: usize, expanded: bool)
        requires
            i < old(self)@.completed_turns.len(),
        ensures
            final(self)@ == old(self)@.with_expanded(i as int, expanded),
    {
        let ghost before = self.completed_turns@;
        let turn = &mut self.completed_turns[i];
        turn.expanded = expanded;
        proof {
            let after = self.completed_turns@;
            assert(turns_view(after) =~= old(self)@.completed_turns.update(
                i as int,
                CompletedTurnView { expanded, ..old(self)@.completed_turns[i as int] },
            ));
        }
    }

    /// Opens a turn that is closed, closes one that is open, where there is
    /// one.
    pub fn toggle_completed_turn(&mut self, i: usize) -> (r: bool)
        ensures
            r == (i < old(self)@.completed_turns.len()),
            final(self)@ == (if r {
                old(self)@.with_expanded(i as int, !old(self)@.completed_turns[i as int].expanded)
            } else {
                old(self)@
            }),
    {
        if i < self.completed_turns.len() {
            let open = self.completed_turns[i].expanded;
            proof {
                assert(self@.completed_turns[i as int] == self.completed_turns@[i as int]@);
            }
            self.set_expanded(i, !open);
            true
        } else {
            false
        }
    }

    /// Tells the user's words of a replay.
    pub fn flush_replayed_user(&mut self)
        ensures
            final(self)@ == old(self)@.user_flushed(),
    {
        if !is_empty_text(self.replay_user_buffer.as_str()) {
            let mut text = String::new();
            std::mem::swap(&mut self.replay_user_buffer, &mut text);
            self.say(ChatMessage::User(text));
        }
    }

    /// Tells the agent's words of a replay.
    pub fn flush_replayed_agent(&mut self)
        ensures
            final(self)@ == old(self)@.agent_flushed(),
    {
        if !is_empty_text(self.replay_agent_buffer.as_str()) {
            let mut text = String::new();
            std::mem::swap(&mut self.replay_agent_buffer, &mut text);
            self.say(ChatMessage::Agent(text));
        }
    }

    /// Records the turn, where there is one, as failed.
    pub fn fail_activity(&mut self)
        ensures
            final(self)@ == old(self)@.activity_failed(),
    {
        let id = match self.turn.prompt() {
            Some(prompt) => Some(prompt.id),
            None => None,
        };
        if let Some(id) = id {
            self.activity_operation_id = id;
            self.activity_outcome = Some(AgentActivityOutcome::Failed);
        }
    }

    /// Gives up the conversation.
    pub fn clear_chat_history(&mut self)
        ensures
            final(self)@ == old(self)@.history_cleared(),
    {
        self.messages.clear();
        proof {
            assert(messages_view(self.messages@) =~= Seq::<ChatMessageView>::empty());
        }
        self.clear_completed_turn_selection();
    }

    /// Forgets the usage.
    pub fn clear_usage(&mut self)
        ensures
            final(self)@ == old(self)@.usage_cleared(),
    {
        self.usage = None;
        self.usage_staleness = UsageStaleness { context: false, cost: false };
    }

    /// Takes note of a report of usage.
    pub fn report_usage(&mut self, snapshot: UsageSnapshot)
        ensures
            final(self)@ == old(self)@.usage_reported(snapshot),
    {
        self.usage_staleness.mark_reported(&snapshot);
        match self.usage.take() {
            Some(mut current) => {
                current.merge(snapshot);
                self.usage = Some(current);
            },
            None => {
                self.usage = Some(snapshot);
            },
        }
    }

    /// Gives up whatever is being pasted.
    pub fn invalidate_pending_paste(&mut self)
        ensures
            final(self)@ == old(self)@.paste_invalidated(),
    {
        self.paste_generation = self.paste_generation.wrapping_add(1);
        self.paste_pending = false;
    }

    /// Takes messages out of the conversation.
    pub fn remove_from_conversation(&mut self, removal: Removal<'_>)
        ensures
            final(self)@ == (TabView {
                messages: removal.leaves(old(self)@.messages),
                ..old(self)@
            }),
    {
        remove_messages(&mut self.messages, removal);
    }

    /// Brings the news of a tool call to its card.
    pub fn patch_tool_call(&mut self, patch: &ToolCallPatch)
        ensures
            final(self)@ == (TabView {
                messages: old(self)@.messages.map_values(
                    |m: ChatMessageView| patch.patched_message(m),
                ),
                ..old(self)@
            }),
    {
        patch_messages(&mut self.messages, patch);
    }

    /// Brings the output of a terminal to the cards that show it, in the
    /// running turn and in the turns that are over.
    pub fn update_terminal(&mut self, news: &TerminalOutput)
        ensures
            final(self)@ == (TabView {
                messages: news.updated_messages(old(self)@.messages),
                completed_turns: old(self)@.completed_turns.map_values(
                    |t: CompletedTurnView| news.updated_turn(t),
                ),
                ..old(self)@
            }),
    {
        news.update_messages(&mut self.messages);
        let ghost all = turns_view(self.completed_turns@);
        let ghost f = |t: CompletedTurnView| news.updated_turn(t);
        let mut i: usize = 0;
        while i < self.completed_turns.len()
            invariant
                i <= self.completed_turns.len(),
                self.completed_turns.len() == all.len(),
                f == (|t: CompletedTurnView| news.updated_turn(t)),
                self@ == (TabView {
                    messages: news.updated_messages(old(self)@.messages),
                    completed_turns: turns_view(self.completed_turns@),
                    ..old(self)@
                }),
                all == old(self)@.completed_turns,
                forall|k: int| 0 <= k < i ==> (#[trigger] self.completed_turns@[k])@ == f(all[k]),
                forall|k: int|
                    i <= k < self.completed_turns.len() ==> (#[trigger] self.completed_turns@[k])@ == all[k],
            decreases self.completed_turns.len() - i,
        {
            let turn = &mut self.completed_turns[i];
            news.update_messages(&mut turn.details);
            i += 1;
        }
        proof {
            assert(turns_view(self.completed_turns@) =~= all.map_values(f));
        }
    }
}

impl TabView {
    /// The conversation holds more than disclaimers.
    pub open spec fn has_content(self) -> bool {
        ||| self.completed_turns.len() > 0
        ||| exists|k: int| 0 <= k < self.messages.len() && !((#[trigger] self.messages[k]) is Disclaimer)
    }
}

/// News of a tool call leave the cards of all other calls as they are, and
/// never change a card's id.
pub proof fn law_patch_touches_its_card_alone(patch: ToolCallPatch, card: ToolCardView)
    ensures
        card.id != patch.id@ ==> patch.patched(card) == card,
        patch.patched(card).id == card.id,
{
}

/// News without a location leave the location.
pub proof fn law_patch_without_location_keeps_it(patch: ToolCallPatch, card: ToolCardView)
    requires
        patch.location is None,
        patch.locations is None,
    ensures
        patch.patched(card).location == card.location,
        patch.patched(card).location_is_command == card.location_is_command,
        patch.patched(card).locations == card.locations,
{
}

/// What news say of a call is what its card says afterwards; an empty output or
/// directory takes the old one away, and what the news do not speak of stays.
pub proof fn law_news_are_what_the_card_says(patch: ToolCallPatch, card: ToolCardView)
    requires
        card.id == patch.id@,
    ensures
        ({
            let after = patch.patched(card);
            &&& patch.title is Some ==> after.title == patch.title->0@
            &&& patch.title is None ==> after.title == card.title
            &&& patch.status is Some ==> after.status == patch.status->0@
            &&& patch.status is None ==> after.status == card.status
            &&& patch.kind is Some ==> after.kind == patch.kind->0
            &&& patch.kind is None ==> after.kind == card.kind
            &&& patch.output is Some && patch.output->0.text@.len() > 0 ==> after.output
                == patch.output
            &&& patch.output is Some && patch.output->0.text@.len() == 0 ==> after.output is None
            &&& patch.output is None ==> after.output == card.output
            &&& patch.cwd is Some && patch.cwd->0@.len() > 0 ==> after.cwd == Some(patch.cwd->0@)
            &&& patch.cwd is Some && patch.cwd->0@.len() == 0 ==> after.cwd is None
            &&& patch.cwd is None ==> after.cwd == card.cwd
            &&& patch.exit_code is Some ==> after.exit_code == patch.exit_code
            &&& patch.exit_code is None ==> after.exit_code == card.exit_code
            &&& patch.content is Some ==> after.content == patch.content->0@
            &&& patch.content is None ==> after.content == card.content
            &&& patch.locations is Some ==> after.locations == patch.locations->0@
            &&& patch.locations is None ==> after.locations == card.locations
            &&& patch.location is Some ==> after.location == Some(patch.location->0@)
                && after.location_is_command == patch.location_is_command
            &&& patch.location is None && patch.locations is Some ==> after.location is None
                && after.location_is_command == patch.location_is_command
        }),
{
}

/// What a terminal puts out is shown wherever the terminal is: in its place among
/// the content of a card, and as the output of that card. An exit code that is
/// not told again stays, and all other content does.
pub proof fn law_terminal_output_reaches_its_cards(news: TerminalOutput, card: ToolCardView, i: int)
    requires
        0 <= i < card.content.len(),
    ensures
        ({
            let after = news.updated(card);
            let item = card.content[i];
            let shown = after.content[i];
            &&& after.content.len() == card.content.len()
            &&& !(item is Terminal) ==> shown == item
            &&& item is Terminal && item->Terminal_id@ != news.terminal_id@ ==> shown == item
            &&& item is Terminal && item->Terminal_id@ == news.terminal_id@ ==> {
                &&& shown is Terminal && shown->Terminal_id@ == news.terminal_id@
                &&& shown->Terminal_output == Some(news.output)
                &&& news.exit_code is Some ==> shown->Terminal_exit_code == news.exit_code
                    && after.exit_code == news.exit_code
                &&& news.exit_code is None ==> shown->Terminal_exit_code
                    == item->Terminal_exit_code && after.exit_code == card.exit_code
                &&& after.output == Some(news.output)
            }
            &&& after.title == card.title && after.status == card.status && after.id == card.id
        }),
{
    let item = card.content[i];
    if item is Terminal && item->Terminal_id@ == news.terminal_id@ {
        let f = |item: ToolCallContent| news.is_terminal(item);
        assert(f(card.content[i]));
        assert(card.content.any(f));
    }
}

/// Output of a terminal that a card does not show leaves the card as it is.
pub proof fn law_foreign_terminals_change_no_card(news: TerminalOutput, card: ToolCardView)
    requires
        forall|i: int|
            0 <= i < card.content.len() && (#[trigger] card.content[i]) is Terminal
                ==> card.content[i]->Terminal_id@ != news.terminal_id@,
    ensures
        news.updated(card) == card,
{
    let f = |item: ToolCallContent| news.is_terminal(item);
    assert(!card.content.any(f));
    assert(card.content.map_values(|item: ToolCallContent| news.updated_item(item)) =~= card.content);
}

} // verus!
