//! What the agent says and asks.

use vstd::prelude::*;
use vstd::string::*;

use crate::app::effect::{ChunkKind, EffectOf};
use crate::app::event::{AppEvent, SoftStopReason};
use crate::app::state::{App, AppView};
use crate::phrases::{Phrase, PhraseOf, PhraseView};
use crate::tab::{
    inputs_view, AgentActivityOutcome, PermissionState, TabSession, TabView, TurnState, UserInputState, UserInputView,
};
use crate::tab_actions::{Removal, TerminalOutput, ToolCallPatch};
use crate::text::same;
use crate::transcript::{
    ChatMessage, ChatMessageView, CompletedTurnView, NoticeKind, PlanEntry, ToolCard,
};

verus! {

// ---------------------------------------------------------------------------
// Words
// ---------------------------------------------------------------------------

impl TabView {
    /// A turn or a replay is going on, so that words of the agent belong here.
    pub open spec fn listens(self) -> bool {
        self.turn.in_flight() || self.loading_session
    }

    /// There is a turn or a replay that a request of the agent can belong to.
    pub open spec fn can_be_asked(self) -> bool {
        !(self.turn is Idle) || self.loading_session
    }

    /// The tab after words of the agent in a replay.
    pub open spec fn agent_replayed(self, text: Seq<char>) -> TabView {
        let s = self.user_flushed();
        TabView { replay_agent_buffer: s.replay_agent_buffer + text, ..s }
    }

    /// The tab after words of the user in a replay.
    pub open spec fn user_replayed(self, text: Seq<char>) -> TabView {
        let s = self.agent_flushed();
        TabView { replay_user_buffer: s.replay_user_buffer + text, ..s }
    }

    /// The tab once the words of a replay before a card are told.
    pub open spec fn replay_told(self) -> TabView {
        if self.loading_session {
            self.user_flushed().agent_flushed()
        } else {
            self
        }
    }

    /// The tab after an error of its own: nothing is loading, no turn goes on.
    pub open spec fn tab_failed(self, message: Seq<char>) -> TabView {
        let s = TabView {
            loading_session: false,
            loading_target_session_id: None,
            replay_agent_buffer: Seq::empty(),
            replay_user_buffer: Seq::empty(),
            timing_note: None,
            ..self
        };
        TabView { active_direct_proposal_id: None, ..s.activity_failed().idle() }.saying(
            ChatMessageView::Error(message),
        ).at_bottom()
    }
}

impl TabSession {
    fn listens_now(&self) -> (r: bool)
        ensures
            r == self@.listens(),
    {
        self.turn.is_in_flight() || self.loading_session
    }

    fn fail_tab(&mut self, message: String)
        ensures
            final(self)@ == old(self)@.tab_failed(message@),
    {
        self.loading_session = false;
        self.loading_target_session_id = None;
        self.replay_agent_buffer = String::new();
        self.replay_user_buffer = String::new();
        self.timing_note = None;
        self.fail_activity();
        self.turn = TurnState::Idle;
        self.active_direct_proposal_id = None;
        self.say(ChatMessage::Error(message));
        self.scroll_to_bottom();
    }

    fn replay_agent(&mut self, text: &str)
        ensures
            final(self)@ == old(self)@.agent_replayed(text@),
    {
        self.flush_replayed_user();
        self.replay_agent_buffer.append(text);
    }

    fn replay_user(&mut self, text: &str)
        ensures
            final(self)@ == old(self)@.user_replayed(text@),
    {
        self.flush_replayed_agent();
        self.replay_user_buffer.append(text);
    }

    fn tell_replay(&mut self)
        ensures
            final(self)@ == old(self)@.replay_told(),
    {
        if self.loading_session {
            self.flush_replayed_user();
            self.flush_replayed_agent();
        }
    }
}

/// What is said of an answer that ended early.
pub open spec fn stop_phrase(reason: SoftStopReason) -> PhraseView {
    match reason {
        SoftStopReason::MaxTokens => PhraseOf::StoppedMaxTokens,
        SoftStopReason::MaxTurnRequests => PhraseOf::StoppedMaxTurnRequests,
        SoftStopReason::Refusal => PhraseOf::StoppedRefusal,
    }
}

/// A notice.
pub open spec fn notice(kind: NoticeKind, text: PhraseView) -> ChatMessageView {
    ChatMessageView::Notice { kind, text }
}

impl AppView {
    /// The pane with a notice in a tab.
    pub open spec fn noticed(self, key: Seq<char>, m: ChatMessageView) -> AppView {
        self.with_tab(key, self.tab(key).saying(m).at_bottom())
    }

    /// The pane after an error in a tab.
    #[verifier::opaque]
    pub open spec fn tab_failed(self, key: Seq<char>, message: Seq<char>) -> AppView {
        self.with_tab(key, self.tab(key).tab_failed(message))
    }

    /// The pane after words of the agent: told at once, kept for a replay, or
    /// dropped where nobody listens.
    #[verifier::opaque]
    pub open spec fn agent_said(self, session_id: Seq<char>, text: Seq<char>) -> AppView {
        let tab = self.session_tab(session_id);
        if tab.loading_session {
            self.with_session_tab(session_id, tab.agent_replayed(text))
        } else if tab.listens() {
            self.with_session_tab(session_id, tab).asking(
                EffectOf::ObserveChunk { session_id, kind: ChunkKind::Message, text },
            )
        } else {
            self.with_session_tab(session_id, tab)
        }
    }

    /// The pane after words of the user in a replay; elsewhere they are dropped.
    #[verifier::opaque]
    pub open spec fn user_replayed(self, session_id: Seq<char>, text: Seq<char>) -> AppView {
        let tab = self.session_tab(session_id);
        if tab.loading_session {
            self.with_session_tab(session_id, tab.user_replayed(text))
        } else {
            self.with_session_tab(session_id, tab)
        }
    }

    /// The pane after the end of an answer.
    #[verifier::opaque]
    pub open spec fn answer_ended(self, session_id: Seq<char>) -> AppView {
        let s = self.asking(EffectOf::SummarizeLatency { session_id }).asking(
            EffectOf::CloseTurn { session_id },
        );
        s.with_session_tab(session_id, s.session_tab(session_id).at_bottom())
    }

    /// The pane with one more card in a conversation, where somebody listens.
    #[verifier::opaque]
    pub open spec fn card_added(self, session_id: Seq<char>, m: ChatMessageView) -> AppView {
        let tab = self.session_tab(session_id);
        if !tab.listens() {
            self
        } else {
            let s = if tab.loading_session {
                self
            } else {
                self.asking(
                    EffectOf::ObserveChunk {
                        session_id,
                        kind: ChunkKind::Thought,
                        text: Seq::empty(),
                    },
                )
            };
            s.with_tab(
                self.session_tab_key(session_id),
                tab.replay_told().saying(m).at_bottom(),
            )
        }
    }

    /// The pane after news of a tool call.
    #[verifier::opaque]
    pub open spec fn card_patched(self, session_id: Seq<char>, patch: ToolCallPatch) -> AppView {
        let tab = self.session_tab(session_id);
        self.with_session_tab(
            session_id,
            if tab.listens() {
                TabView {
                    messages: tab.messages.map_values(
                        |m: ChatMessageView| patch.patched_message(m),
                    ),
                    ..tab
                }
            } else {
                tab
            },
        )
    }

    /// The pane after output of a terminal.
    #[verifier::opaque]
    pub open spec fn terminal_updated(self, session_id: Seq<char>, news: TerminalOutput) -> AppView {
        let tab = self.session_tab(session_id);
        self.with_session_tab(
            session_id,
            TabView {
                messages: news.updated_messages(tab.messages),
                completed_turns: tab.completed_turns.map_values(
                    |t: CompletedTurnView| news.updated_turn(t),
                ),
                ..tab
            },
        )
    }

    /// The pane without the card of a tool call.
    #[verifier::opaque]
    pub open spec fn card_hidden(self, session_id: Seq<char>, id: Seq<char>) -> AppView {
        let tab = self.session_tab(session_id);
        self.with_session_tab(
            session_id,
            TabView { messages: without_card(tab.messages, id), ..tab },
        )
    }
}

/// The messages without the card of a tool call.
pub open spec fn without_card(messages: Seq<ChatMessageView>, id: Seq<char>) -> Seq<
    ChatMessageView,
> {
    messages.filter(|m: ChatMessageView| !(m is ToolCall && m->ToolCall_0.id == id))
}

proof fn lemma_without_card(messages: Seq<ChatMessageView>, id: &str)
    ensures
        Removal::Card(id).leaves(messages) == without_card(messages, id@),
{
    let removal = Removal::Card(id);
    assert((|m: ChatMessageView| !removal.takes(m)) =~= (|m: ChatMessageView|
        !(m is ToolCall && m->ToolCall_0.id == id@)));
}

impl App {
    /// Says something in a tab.
    pub fn notice_in(&mut self, key: &str, m: ChatMessage)
        ensures
            final(self)@ == old(self)@.noticed(key@, m@),
    {
        let tab = self.tab_mut(key);
        tab.say(m);
        tab.scroll_to_bottom();
    }

    /// Something failed in one tab.
    pub fn on_tab_error(&mut self, tab_id: &str, message: String)
        ensures
            final(self)@ == old(self)@.tab_failed(tab_id@, message@),
    {
        proof {
            reveal(AppView::tab_failed);
        }
        let tab = self.tab_mut(tab_id);
        tab.fail_tab(message);
    }

    /// Something is to be said in one tab.
    pub fn on_tab_system_message(&mut self, tab_id: &str, message: String)
        ensures
            final(self)@ == old(self)@.noticed(
                tab_id@,
                notice(NoticeKind::Info, PhraseOf::Text(message@)),
            ),
    {
        self.notice_in(tab_id, ChatMessage::info(Phrase::Text(message)));
    }

    /// The agent is busy.
    pub fn on_agent_busy(&mut self, tab_id: &str)
        ensures
            final(self)@ == old(self)@.noticed(
                tab_id@,
                notice(NoticeKind::Warning, PhraseOf::AgentBusy),
            ),
    {
        self.notice_in(tab_id, ChatMessage::warning(Phrase::AgentBusy));
    }

    /// An answer ended early.
    pub fn on_soft_stop(&mut self, session_id: &str, reason: SoftStopReason)
        ensures
            final(self)@ == old(self)@.noticed(
                old(self)@.session_tab_key(session_id@),
                ChatMessageView::System(stop_phrase(reason)),
            ),
    {
        let phrase = match reason {
            SoftStopReason::MaxTokens => Phrase::StoppedMaxTokens,
            SoftStopReason::MaxTurnRequests => Phrase::StoppedMaxTurnRequests,
            SoftStopReason::Refusal => Phrase::StoppedRefusal,
        };
        let key = self.tab_for_session(session_id);
        self.notice_in(key.as_str(), ChatMessage::System(phrase));
    }

    /// Something failed that belongs to no tab.
    pub fn on_system_message(&mut self, message: String)
        ensures
            final(self)@ == old(self)@.noticed(
                old(self)@.active_key(),
                notice(NoticeKind::Error, PhraseOf::Text(message@)),
            ),
    {
        let key = self.active_tab_key();
        self.notice_in(key.as_str(), ChatMessage::error(Phrase::Text(message)));
    }

    /// Something is to be said of a command that ran.
    pub fn on_execution_info(&mut self, message: String)
        ensures
            final(self)@ == ({
                let s = old(self)@.asking(EffectOf::PushExecutionInfo(message@));
                s.with_current(s.current_tab().at_bottom())
            }),
    {
        self.ask(EffectOf::PushExecutionInfo(message));
        let tab = self.current_tab_mut();
        tab.scroll_to_bottom();
    }

    /// The agent thinks.
    pub fn on_thought_chunk(&mut self, session_id: String, text: String)
        ensures
            final(self)@ == old(self)@.asking(
                EffectOf::ObserveChunk {
                    session_id: session_id@,
                    kind: ChunkKind::Thought,
                    text: text@,
                },
            ),
    {
        self.ask(EffectOf::ObserveChunk { session_id, kind: ChunkKind::Thought, text });
    }

    /// The agent says something.
    pub fn on_message_chunk(&mut self, session_id: String, text: String)
        ensures
            final(self)@ == old(self)@.agent_said(session_id@, text@),
    {
        proof {
            reveal(AppView::agent_said);
        }
        let tab = self.session_tab_mut(session_id.as_str());
        if !tab.listens_now() {
            return;
        }
        if tab.loading_session {
            tab.replay_agent(text.as_str());
            return;
        }
        self.ask(EffectOf::ObserveChunk { session_id, kind: ChunkKind::Message, text });
    }

    /// The user said something, in a replay.
    pub fn on_user_replay(&mut self, session_id: &str, text: &str)
        ensures
            final(self)@ == old(self)@.user_replayed(session_id@, text@),
    {
        proof {
            reveal(AppView::user_replayed);
        }
        let tab = self.session_tab_mut(session_id);
        if !tab.loading_session {
            return;
        }
        tab.replay_user(text);
    }

    /// The answer is complete.
    pub fn on_message_end(&mut self, session_id: String)
        ensures
            final(self)@ == old(self)@.answer_ended(session_id@),
    {
        proof {
            reveal(AppView::answer_ended);
        }
        self.ask(EffectOf::SummarizeLatency { session_id: session_id.clone() });
        self.ask(EffectOf::CloseTurn { session_id: session_id.clone() });
        let tab = self.session_tab_mut(session_id.as_str());
        tab.scroll_to_bottom();
    }

    /// How long something took.
    pub fn on_timing(&mut self, session_id: &str, note: String)
        ensures
            final(self)@ == old(self)@.with_session_tab(
                session_id@,
                TabView { timing_note: Some(note@), ..old(self)@.session_tab(session_id@) },
            ),
    {
        let tab = self.session_tab_mut(session_id);
        tab.timing_note = Some(note);
    }

    fn add_card(&mut self, session_id: String, m: ChatMessage)
        ensures
            final(self)@ == old(self)@.card_added(session_id@, m@),
    {
        proof {
            reveal(AppView::card_added);
        }
        let key = self.tab_for_session(session_id.as_str());
        let (listens, loading) = match self.tab(key.as_str()) {
            Some(tab) => (tab.listens_now(), tab.loading_session),
            None => (false, false),
        };
        if !listens {
            return;
        }
        if !loading {
            self.ask(
                EffectOf::ObserveChunk {
                    session_id,
                    kind: ChunkKind::Thought,
                    text: String::new(),
                },
            );
        }
        let tab = self.tab_mut(key.as_str());
        tab.tell_replay();
        tab.say(m);
        tab.scroll_to_bottom();
    }

    /// The agent calls a tool.
    pub fn on_tool_call(&mut self, session_id: String, card: ToolCard)
        ensures
            final(self)@ == old(self)@.card_added(session_id@, ChatMessageView::ToolCall(card@)),
    {
        proof {
            reveal(AppView::card_added);
        }
        self.add_card(session_id, ChatMessage::ToolCall(card));
    }

    /// The agent has a plan.
    pub fn on_plan(&mut self, session_id: String, entries: Vec<PlanEntry>)
        ensures
            final(self)@ == old(self)@.card_added(session_id@, ChatMessageView::Plan(entries@)),
    {
        proof {
            reveal(AppView::card_added);
        }
        self.add_card(session_id, ChatMessage::Plan(entries));
    }

    /// There is news of a tool call.
    pub fn on_tool_call_update(&mut self, session_id: &str, patch: ToolCallPatch)
        ensures
            final(self)@ == old(self)@.card_patched(session_id@, patch),
    {
        proof {
            reveal(AppView::card_patched);
        }
        let tab = self.session_tab_mut(session_id);
        if !tab.listens_now() {
            return;
        }
        tab.patch_tool_call(&patch);
    }

    /// A terminal that tool calls run in has new output.
    pub fn on_terminal_output(&mut self, session_id: &str, news: TerminalOutput)
        ensures
            final(self)@ == old(self)@.terminal_updated(session_id@, news),
    {
        proof {
            reveal(AppView::terminal_updated);
        }
        let tab = self.session_tab_mut(session_id);
        tab.update_terminal(&news);
    }

    /// The card of a tool call is not to be shown.
    pub fn on_hide_tool_call(&mut self, session_id: &str, id: &str)
        ensures
            final(self)@ == old(self)@.card_hidden(session_id@, id@),
    {
        proof {
            reveal(AppView::card_hidden);
        }
        let tab = self.session_tab_mut(session_id);
        proof {
            lemma_without_card(tab@.messages, id);
        }
        tab.remove_from_conversation(Removal::Card(id));
    }
}

// ---------------------------------------------------------------------------
// Requests
// ---------------------------------------------------------------------------

/// The questions without the one of that id: the first, where there are
/// several.
pub open spec fn without_request(v: Seq<UserInputView>, id: Seq<char>) -> Seq<UserInputView>
    decreases v.len(),
{
    if v.len() == 0 {
        v
    } else if v[0].request_id == id {
        v.skip(1)
    } else {
        seq![v[0]] + without_request(v.skip(1), id)
    }
}

proof fn lemma_without_request_at(v: Seq<UserInputView>, id: Seq<char>, i: int)
    requires
        0 <= i < v.len(),
        v[i].request_id == id,
        forall|k: int| 0 <= k < i ==> (#[trigger] v[k]).request_id != id,
    ensures
        without_request(v, id) == v.remove(i),
    decreases v.len(),
{
    if i == 0 {
        assert(v.remove(0) =~= v.skip(1));
    } else {
        let rest = v.skip(1);
        assert(v[0].request_id != id);
        assert forall|k: int| 0 <= k < i - 1 implies (#[trigger] rest[k]).request_id != id by {
            assert(rest[k] == v[k + 1]);
        }
        lemma_without_request_at(rest, id, i - 1);
        assert(seq![v[0]] + rest.remove(i - 1) =~= v.remove(i));
    }
}

proof fn lemma_without_request_none(v: Seq<UserInputView>, id: Seq<char>)
    requires
        forall|k: int| 0 <= k < v.len() ==> (#[trigger] v[k]).request_id != id,
    ensures
        without_request(v, id) == v,
    decreases v.len(),
{
    if v.len() > 0 {
        let rest = v.skip(1);
        assert(v[0].request_id != id);
        assert forall|k: int| 0 <= k < rest.len() implies (#[trigger] rest[k]).request_id != id by {
            assert(rest[k] == v[k + 1]);
        }
        lemma_without_request_none(rest, id);
        assert(seq![v[0]] + rest =~= v);
    }
}

/// By which a question is answered: the first of that id.
pub open spec fn responder_of(v: Seq<UserInputView>, id: Seq<char>) -> Option<u64>
    decreases v.len(),
{
    if v.len() == 0 {
        None
    } else if v[0].request_id == id {
        v[0].responder
    } else {
        responder_of(v.skip(1), id)
    }
}

proof fn lemma_responder_at(v: Seq<UserInputView>, id: Seq<char>, i: int)
    requires
        0 <= i < v.len(),
        v[i].request_id == id,
        forall|k: int| 0 <= k < i ==> (#[trigger] v[k]).request_id != id,
    ensures
        responder_of(v, id) == v[i].responder,
    decreases v.len(),
{
    if i > 0 {
        let rest = v.skip(1);
        assert(v[0].request_id != id);
        assert forall|k: int| 0 <= k < i - 1 implies (#[trigger] rest[k]).request_id != id by {
            assert(rest[k] == v[k + 1]);
        }
        lemma_responder_at(rest, id, i - 1);
    }
}

proof fn lemma_responder_none(v: Seq<UserInputView>, id: Seq<char>)
    requires
        forall|k: int| 0 <= k < v.len() ==> (#[trigger] v[k]).request_id != id,
    ensures
        responder_of(v, id) is None,
    decreases v.len(),
{
    if v.len() > 0 {
        let rest = v.skip(1);
        assert(v[0].request_id != id);
        assert forall|k: int| 0 <= k < rest.len() implies (#[trigger] rest[k]).request_id != id by {
            assert(rest[k] == v[k + 1]);
        }
        lemma_responder_none(rest, id);
    }
}

impl AppView {
    /// The pane that denies a request, where somebody waits for its answer.
    pub open spec fn denying(self, responder: Option<u64>) -> AppView {
        match responder {
            Some(responder) => self.asking(EffectOf::DenyRequest { responder }),
            None => self,
        }
    }

    /// The pane after a request for permission: it waits behind those that came
    /// before, and is denied where there is no turn that it can belong to.
    #[verifier::opaque]
    pub open spec fn permission_asked(self, session_id: Seq<char>, request: PermissionState) -> AppView {
        let tab = self.session_tab(session_id);
        if tab.can_be_asked() {
            self.with_session_tab(
                session_id,
                TabView { permission: tab.permission.push(request), ..tab },
            )
        } else {
            self.with_session_tab(session_id, tab).denying(request.responder)
        }
    }

    /// The pane after a question to the user: it waits behind those that came
    /// before, and is denied where there is no turn that it can belong to.
    #[verifier::opaque]
    pub open spec fn user_asked(self, session_id: Seq<char>, request: UserInputView) -> AppView {
        let tab = self.session_tab(session_id);
        if tab.can_be_asked() {
            self.with_session_tab(
                session_id,
                TabView { user_input: tab.user_input.push(request), ..tab },
            )
        } else {
            self.with_session_tab(session_id, tab).denying(request.responder)
        }
    }

    /// The pane after a question was taken back: it waits no more, and who waits
    /// for its answer is denied it.
    #[verifier::opaque]
    pub open spec fn question_cancelled(self, session_id: Seq<char>, request_id: Seq<char>) -> AppView {
        let tab = self.session_tab(session_id);
        self.with_session_tab(
            session_id,
            TabView { user_input: without_request(tab.user_input, request_id), ..tab },
        ).denying(responder_of(tab.user_input, request_id))
    }
}

impl App {
    fn deny(&mut self, responder: Option<u64>)
        ensures
            final(self)@ == old(self)@.denying(responder),
    {
        if let Some(responder) = responder {
            self.ask(EffectOf::DenyRequest { responder });
        }
    }

    /// The agent asks for permission.
    pub fn on_permission_request(&mut self, session_id: &str, request: PermissionState)
        ensures
            final(self)@ == old(self)@.permission_asked(session_id@, request),
    {
        proof {
            reveal(AppView::permission_asked);
        }
        let tab = self.session_tab_mut(session_id);
        if tab.turn.can_service_agent_request() || tab.loading_session {
            tab.permission.push_back(request);
        } else {
            self.deny(request.responder);
        }
    }

    /// The agent asks its user something.
    pub fn on_user_input_request(&mut self, session_id: &str, request: UserInputState)
        ensures
            final(self)@ == old(self)@.user_asked(session_id@, request@),
    {
        proof {
            reveal(AppView::user_asked);
        }
        let tab = self.session_tab_mut(session_id);
        if tab.turn.can_service_agent_request() || tab.loading_session {
            let ghost before = tab.user_input@;
            tab.user_input.push_back(request);
            proof {
                assert(inputs_view(tab.user_input@) =~= inputs_view(before).push(request@));
            }
        } else {
            self.deny(request.responder);
        }
    }

    /// The agent takes a question back.
    pub fn on_cancel_user_input(&mut self, session_id: &str, request_id: &str)
        ensures
            final(self)@ == old(self)@.question_cancelled(session_id@, request_id@),
    {
        proof {
            reveal(AppView::question_cancelled);
        }
        let tab = self.session_tab_mut(session_id);
        let ghost all = inputs_view(tab.user_input@);
        let ghost start = tab@;
        let mut i: usize = 0;
        let n: usize = tab.user_input.len();
        let mut found: Option<usize> = None;
        while i < n && found.is_none()
            invariant
                i <= n,
                n == tab.user_input@.len(),
                all == inputs_view(tab.user_input@),
                match found {
                    None => forall|k: int| 0 <= k < i ==> (#[trigger] all[k]).request_id != request_id@,
                    Some(j) => j < n && all[j as int].request_id == request_id@ && forall|k: int|
                        0 <= k < j ==> (#[trigger] all[k]).request_id != request_id@,
                },
            decreases n - i,
        {
            proof {
                assert(all[i as int] == tab.user_input@[i as int]@);
            }
            if same(tab.user_input[i].request_id.as_str(), request_id) {
                found = Some(i);
            }
            i += 1;
        }
        let responder = match found {
            Some(j) => {
                let taken = tab.user_input.remove(j);
                proof {
                    lemma_without_request_at(all, request_id@, j as int);
                    lemma_responder_at(all, request_id@, j as int);
                    assert(inputs_view(tab.user_input@) =~= all.remove(j as int));
                }
                match taken {
                    Some(taken) => taken.responder,
                    None => None,
                }
            },
            None => {
                proof {
                    lemma_without_request_none(all, request_id@);
                    lemma_responder_none(all, request_id@);
                }
                None
            },
        };
        self.deny(responder);
    }
}

// ---------------------------------------------------------------------------
// Laws
// ---------------------------------------------------------------------------

/// Requests for permission wait in the order in which they came: a new one
/// never takes the place of one that waits, so that the front stays in front.
pub proof fn law_permissions_are_first_in_first_out(
    app: AppView,
    session_id: Seq<char>,
    request: PermissionState,
)
    ensures
        app.session_tab(session_id).permission.is_prefix_of(
            app.permission_asked(session_id, request).tab(
                app.session_tab_key(session_id),
            ).permission,
        ),
        app.session_tab(session_id).can_be_asked() ==> app.permission_asked(session_id, request).tab(
            app.session_tab_key(session_id),
        ).permission.last() == request,
        !app.session_tab(session_id).can_be_asked() ==> app.permission_asked(
            session_id,
            request,
        ).tab(app.session_tab_key(session_id)).permission == app.session_tab(session_id).permission,
{
    reveal(AppView::permission_asked);
}

/// A request for permission that finds no turn to belong to is denied, once, and
/// nothing else is asked for; the queues of all tabs stay as they were. One that
/// is accepted waits and asks for nothing.
pub proof fn law_refused_permission_is_denied(
    app: AppView,
    session_id: Seq<char>,
    request: PermissionState,
)
    requires
        request.responder is Some,
    ensures
        ({
            let after = app.permission_asked(session_id, request);
            let tab = app.session_tab(session_id);
            &&& tab.can_be_asked() ==> after.effects == app.effects
            &&& !tab.can_be_asked() ==> after.effects == app.effects.push(
                EffectOf::DenyRequest { responder: request.responder->0 },
            )
            &&& !tab.can_be_asked() ==> forall|key: Seq<char>| #[trigger]
                after.tab(key).permission == app.tab(key).permission && after.tab(key).user_input
                    == app.tab(key).user_input
        }),
{
    reveal(AppView::permission_asked);
}

/// A question that finds no turn to belong to is denied, once, and nothing else
/// is asked for; the queues of all tabs stay as they were. One that is accepted
/// waits and asks for nothing.
pub proof fn law_refused_question_is_denied(
    app: AppView,
    session_id: Seq<char>,
    request: UserInputView,
)
    requires
        request.responder is Some,
    ensures
        ({
            let after = app.user_asked(session_id, request);
            let tab = app.session_tab(session_id);
            &&& tab.can_be_asked() ==> after.effects == app.effects
            &&& tab.can_be_asked() ==> after.tab(app.session_tab_key(session_id)).user_input
                == tab.user_input.push(request)
            &&& !tab.can_be_asked() ==> after.effects == app.effects.push(
                EffectOf::DenyRequest { responder: request.responder->0 },
            )
            &&& !tab.can_be_asked() ==> forall|key: Seq<char>| #[trigger]
                after.tab(key).permission == app.tab(key).permission && after.tab(key).user_input
                    == app.tab(key).user_input
        }),
{
    reveal(AppView::user_asked);
}

/// A question that is taken back is denied, once; where no question has the id,
/// nothing is asked for and no queue changes.
pub proof fn law_cancelled_question_is_denied(
    app: AppView,
    session_id: Seq<char>,
    request_id: Seq<char>,
    i: int,
)
    requires
        0 <= i <= app.session_tab(session_id).user_input.len(),
        forall|k: int|
            0 <= k < i ==> (#[trigger] app.session_tab(session_id).user_input[k]).request_id
                != request_id,
        i < app.session_tab(session_id).user_input.len() ==> app.session_tab(
            session_id,
        ).user_input[i].request_id == request_id && app.session_tab(
            session_id,
        ).user_input[i].responder is Some,
    ensures
        ({
            let after = app.question_cancelled(session_id, request_id);
            let waiting = app.session_tab(session_id).user_input;
            let left = after.tab(app.session_tab_key(session_id)).user_input;
            if i < waiting.len() {
                &&& after.effects == app.effects.push(
                    EffectOf::DenyRequest { responder: waiting[i].responder->0 },
                )
                &&& left == waiting.remove(i)
            } else {
                &&& after.effects == app.effects
                &&& left == waiting
            }
        }),
{
    reveal(AppView::question_cancelled);
    let waiting = app.session_tab(session_id).user_input;
    if i < waiting.len() {
        lemma_without_request_at(waiting, request_id, i);
        lemma_responder_at(waiting, request_id, i);
    } else {
        lemma_without_request_none(waiting, request_id);
        lemma_responder_none(waiting, request_id);
    }
}

/// Words and cards that come when no turn is in flight and nothing is replayed
/// leave the conversation as it is.
pub proof fn law_late_words_are_dropped(
    app: AppView,
    session_id: Seq<char>,
    text: Seq<char>,
    m: ChatMessageView,
    patch: ToolCallPatch,
)
    requires
        !app.session_tab(session_id).listens(),
    ensures
        app.agent_said(session_id, text).tab(app.session_tab_key(session_id)) == app.session_tab(
            session_id,
        ),
        app.agent_said(session_id, text).effects == app.effects,
        app.card_added(session_id, m) == app,
        app.card_patched(session_id, patch).tab(app.session_tab_key(session_id))
            == app.session_tab(session_id),
        app.user_replayed(session_id, text).tab(app.session_tab_key(session_id))
            == app.session_tab(session_id),
{
    reveal(AppView::agent_said);
    reveal(AppView::user_replayed);
    reveal(AppView::card_added);
    reveal(AppView::card_patched);
}

/// A replay keeps the order of the conversation: words of the agent come after
/// the user's words before them, and the other way round.
pub proof fn law_replay_keeps_order(tab: TabView, user: Seq<char>, agent: Seq<char>)
    requires
        tab.replay_user_buffer.len() == 0,
        tab.replay_agent_buffer.len() == 0,
        user.len() > 0,
        agent.len() > 0,
    ensures
        tab.user_replayed(user).agent_replayed(agent).user_flushed().agent_flushed().messages
            == tab.messages.push(ChatMessageView::User(user)).push(ChatMessageView::Agent(agent)),
{
    let a = tab.user_replayed(user);
    assert(a.replay_user_buffer =~= user);
    let b = a.agent_replayed(agent);
    assert(b.replay_agent_buffer =~= agent);
}

/// An error in one tab says nothing of the connection and leaves every other
/// tab as it is.
pub proof fn law_tab_error_stays_in_its_tab(
    app: AppView,
    key: Seq<char>,
    message: Seq<char>,
    other: Seq<char>,
)
    requires
        other != key,
    ensures
        app.tab_failed(key, message).agent == app.agent,
        app.tab_failed(key, message).screen == app.screen,
        app.tab_failed(key, message).tab(other) == app.tab(other),
        app.tab_failed(key, message).tab(key).turn is Idle,
        !app.tab_failed(key, message).tab(key).loading_session,
{
    reveal(AppView::tab_failed);
}

/// Whether of all tabs only one may have changed.
pub open spec fn only_tab_touched(before: AppView, after: AppView, key: Seq<char>) -> bool {
    forall|other: Seq<char>| #![trigger after.tabs.contains_key(other)]
        other != key ==> after.tabs.contains_key(other) == before.tabs.contains_key(other) && (
        before.tabs.contains_key(other) ==> after.tabs[other] == before.tabs[other])
}

/// A card that comes while somebody listens is the last message of its tab. Words
/// of a replay that were not told yet come before it.
pub proof fn law_a_card_is_told_last(app: AppView, session_id: String, card: ToolCard)
    requires
        app.session_tab(session_id@).turn is Submitted || app.session_tab(session_id@).turn is Streaming
            || app.session_tab(session_id@).loading_session,
    ensures
        ({
            let key = app.session_tab_key(session_id@);
            let before = app.session_tab(session_id@);
            let after = app.after(AppEvent::ToolCall { session_id, card });
            let tab = after.tabs[key];
            &&& after.tabs.contains_key(key)
            &&& tab.messages.last() == ChatMessageView::ToolCall(card@)
            &&& before.messages.is_prefix_of(tab.messages)
            &&& !before.loading_session ==> tab.messages == before.messages.push(
                ChatMessageView::ToolCall(card@),
            )
            &&& before.loading_session && before.replay_user_buffer.len() > 0
                && before.replay_agent_buffer.len() > 0 ==> tab.messages == before.messages.push(
                ChatMessageView::User(before.replay_user_buffer),
            ).push(ChatMessageView::Agent(before.replay_agent_buffer)).push(
                ChatMessageView::ToolCall(card@),
            )
            &&& tab.chat_scroll.offset == 0
            &&& only_tab_touched(app, after, key)
        }),
{
    reveal(AppView::card_added);
}

/// A plan that comes while somebody listens is the last message of its tab.
pub proof fn law_a_plan_is_told_last(app: AppView, session_id: String, entries: Vec<PlanEntry>)
    requires
        app.session_tab(session_id@).turn is Submitted || app.session_tab(session_id@).turn is Streaming
            || app.session_tab(session_id@).loading_session,
    ensures
        ({
            let key = app.session_tab_key(session_id@);
            let after = app.after(AppEvent::Plan { session_id, entries });
            &&& after.tabs[key].messages.last() == ChatMessageView::Plan(entries@)
            &&& app.session_tab(session_id@).messages.is_prefix_of(after.tabs[key].messages)
            &&& only_tab_touched(app, after, key)
        }),
{
    reveal(AppView::card_added);
}

/// News of a tool call reach the card of the call and no other message: what they
/// say is what the card then says.
#[verifier::rlimit(40)]
pub proof fn law_news_reach_their_card(app: AppView, session_id: String, patch: ToolCallPatch, i: int)
    requires
        app.session_tab(session_id@).turn is Submitted || app.session_tab(session_id@).turn is Streaming
            || app.session_tab(session_id@).loading_session,
        0 <= i < app.session_tab(session_id@).messages.len(),
    ensures
        ({
            let key = app.session_tab_key(session_id@);
            let before = app.session_tab(session_id@).messages;
            let after = app.after(AppEvent::ToolCallUpdate { session_id, patch });
            let messages = after.tabs[key].messages;
            let was = before[i]->ToolCall_0;
            let is = messages[i]->ToolCall_0;
            let meant = before[i] is ToolCall && was.id == patch.id@;
            &&& messages.len() == before.len()
            &&& !meant ==> messages[i] == before[i]
            &&& meant ==> messages[i] is ToolCall && is.id == was.id
            &&& meant && patch.title is Some ==> is.title == patch.title->0@
            &&& meant && patch.title is None ==> is.title == was.title
            &&& meant && patch.status is Some ==> is.status == patch.status->0@
            &&& meant && patch.status is None ==> is.status == was.status
            &&& meant && patch.output is Some && patch.output->0.text@.len() > 0 ==> is.output
                == patch.output
            &&& meant && patch.output is None ==> is.output == was.output
            &&& meant && patch.exit_code is Some ==> is.exit_code == patch.exit_code
            &&& meant && patch.content is Some ==> is.content == patch.content->0@
            &&& meant && patch.content is None ==> is.content == was.content
            &&& only_tab_touched(app, after, key)
            &&& after.effects == app.effects
        }),
{
    reveal(AppView::card_patched);
}

/// Output of a terminal reaches the cards that show it, in the running turn and in
/// turns that are over.
#[verifier::rlimit(40)]
pub proof fn law_terminal_output_reaches_every_turn(
    app: AppView,
    session_id: String,
    news: TerminalOutput,
)
    ensures
        ({
            let key = app.session_tab_key(session_id@);
            let before = app.session_tab(session_id@);
            let after = app.after(AppEvent::ToolTerminalOutput { session_id, news }).tabs[key];
            &&& after.messages.len() == before.messages.len()
            &&& forall|i: int|
                0 <= i < before.messages.len() ==> match before.messages[i] {
                    ChatMessageView::ToolCall(card) => #[trigger] after.messages[i]
                        == ChatMessageView::ToolCall(news.updated(card)),
                    m => after.messages[i] == m,
                }
            &&& after.completed_turns.len() == before.completed_turns.len()
            &&& forall|t: int, i: int|
                0 <= t < before.completed_turns.len() && 0 <= i
                    < before.completed_turns[t].details.len() ==> match before.completed_turns[t].details[i] {
                    ChatMessageView::ToolCall(card) =>
                        #[trigger] after.completed_turns[t].details[i] == ChatMessageView::ToolCall(
                        news.updated(card),
                    ),
                    m => after.completed_turns[t].details[i] == m,
                }
        }),
{
    reveal(AppView::terminal_updated);
}

proof fn lemma_filter_keeps(s: Seq<ChatMessageView>, p: spec_fn(ChatMessageView) -> bool)
    ensures
        forall|m: ChatMessageView| #[trigger]
            s.filter(p).contains(m) <==> s.contains(m) && p(m),
        (forall|i: int| 0 <= i < s.len() ==> p(#[trigger] s[i])) ==> s.filter(p) == s,
    decreases s.len(),
{
    reveal(Seq::filter);
    if s.len() > 0 {
        let rest = s.drop_last();
        lemma_filter_keeps(rest, p);
        assert forall|m: ChatMessageView| #[trigger] s.contains(m) <==> rest.contains(m) || m
            == s.last() by {
            if s.contains(m) {
                let k = choose|k: int| 0 <= k < s.len() && s[k] == m;
                if k < rest.len() {
                    assert(rest[k] == m);
                }
            }
            if rest.contains(m) {
                let k = choose|k: int| 0 <= k < rest.len() && rest[k] == m;
                assert(s[k] == m);
            }
            if m == s.last() {
                assert(s[s.len() - 1] == m);
            }
        }
        let kept = rest.filter(p);
        assert forall|m: ChatMessageView| #[trigger] s.filter(p).contains(m) <==> s.contains(m) && p(
            m,
        ) by {
            if p(s.last()) {
                assert(s.filter(p) == kept.push(s.last()));
                if kept.push(s.last()).contains(m) {
                    let k = choose|k: int|
                        0 <= k < kept.push(s.last()).len() && kept.push(s.last())[k] == m;
                    if k < kept.len() {
                        assert(kept[k] == m);
                        assert(kept.contains(m));
                    }
                }
                if kept.contains(m) {
                    let k = choose|k: int| 0 <= k < kept.len() && kept[k] == m;
                    assert(kept.push(s.last())[k] == m);
                }
                if m == s.last() {
                    assert(kept.push(s.last())[kept.len() as int] == m);
                }
            }
        }
        if forall|i: int| 0 <= i < s.len() ==> p(#[trigger] s[i]) {
            assert forall|i: int| 0 <= i < rest.len() implies p(#[trigger] rest[i]) by {
                assert(rest[i] == s[i]);
            }
            assert(p(s[s.len() - 1]));
            assert(s.filter(p) =~= s);
        }
    }
}

/// Hiding a tool call takes its card out of the conversation, and nothing else.
pub proof fn law_hiding_takes_one_card(app: AppView, session_id: String, id: String, m: ChatMessageView)
    ensures
        ({
            let key = app.session_tab_key(session_id@);
            let before = app.session_tab(session_id@).messages;
            let after = app.after(AppEvent::HideToolCall { session_id, id }).tabs[key].messages;
            let hidden = m is ToolCall && m->ToolCall_0.id == id@;
            &&& hidden ==> !after.contains(m)
            &&& !hidden ==> after.contains(m) == before.contains(m)
            &&& (forall|i: int|
                0 <= i < before.len() ==> !((#[trigger] before[i]) is ToolCall
                    && before[i]->ToolCall_0.id == id@)) ==> after == before
        }),
{
    reveal(AppView::card_hidden);
    let before = app.session_tab(session_id@).messages;
    lemma_filter_keeps(
        before,
        |m: ChatMessageView| !(m is ToolCall && m->ToolCall_0.id == id@),
    );
}

/// Words of the agent in a turn are handed on as they came, once; those of a
/// replay are added to what was replayed.
pub proof fn law_words_are_handed_on(app: AppView, session_id: String, text: String)
    ensures
        ({
            let key = app.session_tab_key(session_id@);
            let before = app.session_tab(session_id@);
            let after = app.after(AppEvent::AgentMessageChunk { session_id, text });
            &&& before.loading_session ==> after.effects == app.effects
                && after.tabs[key].replay_agent_buffer == before.replay_agent_buffer + text@
            &&& !before.loading_session && (before.turn is Submitted || before.turn is Streaming)
                ==> after.effects == app.effects.push(
                EffectOf::ObserveChunk {
                    session_id: session_id@,
                    kind: ChunkKind::Message,
                    text: text@,
                },
            )
            &&& !before.loading_session ==> after.tabs[key] == before
            &&& only_tab_touched(app, after, key)
        }),
{
    reveal(AppView::agent_said);
}

/// Thoughts of the agent are handed on as thoughts.
pub proof fn law_thoughts_are_handed_on(app: AppView, session_id: String, text: String)
    ensures
        app.after(AppEvent::AgentThoughtChunk { session_id, text }).effects == app.effects.push(
            EffectOf::ObserveChunk {
                session_id: session_id@,
                kind: ChunkKind::Thought,
                text: text@,
            },
        ),
        app.after(AppEvent::AgentThoughtChunk { session_id, text }).tabs == app.tabs,
{
}

/// Words of the user are taken in during a replay, behind what the agent had said
/// before them, and are no news at any other time.
pub proof fn law_replayed_words_of_the_user_are_kept(app: AppView, session_id: String, text: String)
    ensures
        ({
            let key = app.session_tab_key(session_id@);
            let before = app.session_tab(session_id@);
            let tab = app.after(AppEvent::UserMessageReplayChunk { session_id, text }).tabs[key];
            &&& !before.loading_session ==> tab == before
            &&& before.loading_session ==> {
                &&& tab.replay_user_buffer == before.replay_user_buffer + text@
                &&& tab.replay_agent_buffer.len() == 0
                &&& before.replay_agent_buffer.len() > 0 ==> tab.messages == before.messages.push(
                    ChatMessageView::Agent(before.replay_agent_buffer),
                )
                &&& before.replay_agent_buffer.len() == 0 ==> tab.messages == before.messages
            }
        }),
{
    reveal(AppView::user_replayed);
}

/// The end of an answer closes the turn of its session and shows its end.
pub proof fn law_the_end_of_an_answer_closes_the_turn(app: AppView, session_id: String)
    ensures
        ({
            let key = app.session_tab_key(session_id@);
            let after = app.after(AppEvent::AgentMessageEnd { session_id });
            &&& after.effects == app.effects.push(
                EffectOf::SummarizeLatency { session_id: session_id@ },
            ).push(EffectOf::CloseTurn { session_id: session_id@ })
            &&& after.tabs[key].chat_scroll.offset == 0
            &&& after.tabs[key].messages == app.session_tab(session_id@).messages
            &&& only_tab_touched(app, after, key)
        }),
{
    reveal(AppView::answer_ended);
    let s = app.asking(EffectOf::SummarizeLatency { session_id: session_id@ }).asking(
        EffectOf::CloseTurn { session_id: session_id@ },
    );
    lemma_asking_keeps_bindings(app, s, session_id@, 0);
}

/// What is asked of the world changes nothing of which tab a session is in.
pub proof fn lemma_asking_keeps_bindings(a: AppView, b: AppView, session_id: Seq<char>, i: int)
    requires
        b.tabs == a.tabs,
        b.tab_order == a.tab_order,
        b.sessions == a.sessions,
        b.ids == a.ids,
    ensures
        b.tab_with_session(session_id, i) == a.tab_with_session(session_id, i),
        b.session_tab_key(session_id) == a.session_tab_key(session_id) || i != 0,
    decreases a.tab_order.len() - i,
{
    if 0 <= i < a.tab_order.len() {
        lemma_asking_keeps_bindings(a, b, session_id, i + 1);
    }
}

/// An error of a tab ends its turn and whatever it was loading, and is the last
/// thing it says. A turn that was under way has failed.
pub proof fn law_a_tab_error_ends_the_turn(app: AppView, tab_id: String, message: String)
    ensures
        ({
            let before = app.tab(tab_id@);
            let after = app.after(AppEvent::TabError { tab_id, message });
            let tab = after.tabs[tab_id@];
            &&& tab.messages == before.messages.push(ChatMessageView::Error(message@))
            &&& tab.turn is Idle
            &&& !tab.loading_session && tab.loading_target_session_id is None
            &&& tab.replay_agent_buffer.len() == 0 && tab.replay_user_buffer.len() == 0
            &&& tab.active_direct_proposal_id is None
            &&& tab.chat_scroll.offset == 0
            &&& match before.turn {
                TurnState::Idle => tab.activity_outcome == before.activity_outcome,
                TurnState::Submitted(p) => tab.activity_operation_id == p.id && tab.activity_outcome
                    == Some(AgentActivityOutcome::Failed),
                TurnState::Streaming(p) => tab.activity_operation_id == p.id && tab.activity_outcome
                    == Some(AgentActivityOutcome::Failed),
                TurnState::Surfaced(p) => tab.activity_operation_id == p.id && tab.activity_outcome
                    == Some(AgentActivityOutcome::Failed),
            }
            &&& only_tab_touched(app, after, tab_id@)
        }),
{
    reveal(AppView::tab_failed);
}

/// A message of the system is told as a notice, in its tab.
pub proof fn law_the_system_tells_notices(app: AppView, tab_id: String, message: String)
    ensures
        ({
            let told = app.after(AppEvent::TabSystemMessage { tab_id, message });
            &&& told.tabs[tab_id@].messages == app.tab(tab_id@).messages.push(
                ChatMessageView::Notice { kind: NoticeKind::Info, text: PhraseOf::Text(message@) },
            )
            &&& only_tab_touched(app, told, tab_id@)
        }),
{
}

/// That the agent is busy is told as a warning, in its tab.
pub proof fn law_a_busy_agent_is_a_warning(app: AppView, tab_id: String)
    ensures
        ({
            let busy = app.after(AppEvent::AgentBusy { tab_id });
            &&& busy.tabs[tab_id@].messages == app.tab(tab_id@).messages.push(
                ChatMessageView::Notice { kind: NoticeKind::Warning, text: PhraseOf::AgentBusy },
            )
            &&& only_tab_touched(app, busy, tab_id@)
        }),
{
}

/// A failure of the pane is told as an error, in the tab in front.
pub proof fn law_a_failing_pane_tells_errors(app: AppView, message: String)
    ensures
        ({
            let failed = app.after(AppEvent::SystemMessage(message));
            &&& failed.tabs[app.active_key()].messages == app.current_tab().messages.push(
                ChatMessageView::Notice { kind: NoticeKind::Error, text: PhraseOf::Text(message@) },
            )
            &&& only_tab_touched(app, failed, app.active_key())
        }),
{
}

/// An answer that ended early is told by a line that says why.
pub proof fn law_an_early_end_is_told_by_its_reason(
    app: AppView,
    session_id: String,
    reason: SoftStopReason,
)
    ensures
        app.after(AppEvent::AgentSoftStop { session_id, reason }).tabs[app.session_tab_key(
            session_id@,
        )].messages == app.session_tab(session_id@).messages.push(
            ChatMessageView::System(
                match reason {
                    SoftStopReason::MaxTokens => PhraseOf::StoppedMaxTokens,
                    SoftStopReason::MaxTurnRequests => PhraseOf::StoppedMaxTurnRequests,
                    SoftStopReason::Refusal => PhraseOf::StoppedRefusal,
                },
            ),
        ),
{
}

/// Requests that a turn can own wait behind those that came before, as they were
/// asked, with the first answer highlighted.
#[verifier::rlimit(40)]
pub proof fn law_owned_requests_wait(app: AppView, event: AppEvent)
    requires
        match event {
            AppEvent::PermissionRequest { session_id, .. } => !(app.session_tab(
                session_id@,
            ).turn is Idle),
            AppEvent::UserInputRequest { session_id, .. } => !(app.session_tab(
                session_id@,
            ).turn is Idle),
            _ => false,
        },
    ensures
        match event {
            AppEvent::PermissionRequest {
                session_id,
                tool_call_id,
                description,
                title,
                kind_label,
                target,
                target_is_command,
                options,
                responder,
            } => {
                let before = app.session_tab(session_id@).permission;
                let after = app.after(event).tabs[app.session_tab_key(session_id@)].permission;
                let last = after.last();
                &&& after.len() == before.len() + 1
                &&& before.is_prefix_of(after)
                &&& last.tool_call_id == tool_call_id && last.description == description
                &&& last.title == title && last.kind_label == kind_label
                &&& last.target == target && last.target_is_command == target_is_command
                &&& last.options == options && last.selected == 0
                &&& last.responder == Some(responder)
            },
            AppEvent::UserInputRequest { request_id, session_id, request, responder } => {
                let before = app.session_tab(session_id@).user_input;
                let after = app.after(event).tabs[app.session_tab_key(session_id@)].user_input;
                let last = after.last();
                &&& after.len() == before.len() + 1
                &&& before.is_prefix_of(after)
                &&& last.request_id == request_id@ && last.request == request
                &&& last.selected == 0 && last.input.len() == 0
                &&& last.responder == Some(responder)
            },
            _ => true,
        },
{
    reveal(AppView::permission_asked);
    reveal(AppView::user_asked);
}

} // verus!
