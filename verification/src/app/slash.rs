//! The commands that are typed behind a slash, carried out.

use vstd::prelude::*;
use vstd::string::*;

use crate::app::config_picker::{category_at, values_of};
use crate::app::conversation::notice;
use crate::app::effect::EffectOf;
use crate::app::recovery::agent_at;
use crate::app::state::{
    tabs_view, AgentSource, AgentView, App, AppView, AvailableAgent, ConnectionState, IdsView,
    ScreenView, SessionMaps, SessionsView,
};
use crate::commands::{
    resolve_position, resolved_position, CommandKind, ParseOutcome, ParsedCommand,
};
use crate::json::{
    entry, event, event_view, law_a_member_is_read_by_its_name, law_an_event_says_its_method,
    no_members, put, Json, JsonView, MemberView,
};
use crate::keyed::{lemma_values_related, Keyed};
use crate::models::{
    contains_model, copy_models, customs_view, has_model, merge_models, merged_models, models_view,
    AcpModelInfo, CustomModelCatalogEntry,
};
use crate::phrases::{Phrase, PhraseOf, PhraseView};
use crate::tab::{
    AutofixView, ConfigPicker, ConfigPickerView, SubmittedPrompt, TabSession, TabView, TurnState,
};
use crate::tab_actions::next_generation;
use crate::text::{
    holds_text, is_empty_text, lower, opt_view, same, same_ignore_case, trim, trimmed, views,
};
use crate::transcript::{copy_text, ChatMessage, NoticeKind};

verus! {

// ---------------------------------------------------------------------------
// One tab
// ---------------------------------------------------------------------------

impl TabView {
    /// The tab of a stack that starts anew.
    pub open spec fn restarted(self) -> TabView {
        TabView {
            session_id: None,
            turn: TurnState::Idle,
            ..self.history_cleared().usage_cleared()
        }
    }

    /// The tab with the model picker, and no other picker, open.
    pub open spec fn picking_model(self) -> TabView {
        TabView {
            model_picker_open: true,
            agent_picker_open: false,
            config_picker: ConfigPickerView::Closed,
            ..self
        }
    }

    /// The tab with its input emptied.
    pub open spec fn input_cleared(self) -> TabView {
        TabView { input: Seq::empty(), cursor: 0, command_selected: 0, ..self }
    }

    /// The tab in which a position is to be typed behind the command.
    pub open spec fn asking_position(self) -> TabView {
        TabView { input: "/move "@, cursor: 6, command_selected: 0, ..self }
    }

    /// The tab with a fix of the last failure handed to the agent.
    pub open spec fn fixing(self, hint: String) -> TabView {
        let generation = next_generation(self.autofix.generation);
        TabView {
            turn: TurnState::Submitted(SubmittedPrompt { id: generation, text: hint }),
            autofix: AutofixView { generation, ..self.autofix },
            ..self
        }
    }
}

impl TabSession {
    fn restart(&mut self)
        ensures
            final(self)@ == old(self)@.restarted(),
    {
        self.clear_chat_history();
        self.clear_usage();
        self.session_id = None;
        self.turn = TurnState::Idle;
    }

    /// Empties the input.
    pub fn clear_input(&mut self)
        ensures
            final(self)@ == old(self)@.input_cleared(),
    {
        self.input = String::new();
        self.cursor = 0;
        self.command_selected = 0;
    }
}

fn restart_tabs(tabs: &mut Keyed<TabSession>)
    ensures
        tabs_view(final(tabs)@) == tabs_view(old(tabs)@).map_values(|t: TabView| t.restarted()),
        final(tabs).keys() == old(tabs).keys(),
{
    let ghost before = *tabs;
    let n: usize = tabs.count();
    let mut i: usize = 0;
    while i < n
        invariant
            i <= n,
            n == before.values().len(),
            tabs.keys() == before.keys(),
            tabs.values().len() == n,
            forall|k: int|
                0 <= k < i ==> (#[trigger] tabs.values()[k])@ == before.values()[k]@.restarted(),
            forall|k: int| i <= k < n ==> #[trigger] tabs.values()[k] == before.values()[k],
        decreases n - i,
    {
        let tab = tabs.value_mut(i);
        tab.restart();
        i += 1;
    }
    proof {
        let related = |a: TabSession, b: TabSession| b@ == a@.restarted();
        assert forall|k: int| 0 <= k < before.values().len() implies #[trigger] related(
            before.values()[k],
            tabs.values()[k],
        ) by {
            assert(tabs.values()[k]@ == before.values()[k]@.restarted());
        }
        lemma_values_related(before, *tabs, related);
        assert forall|key: Seq<char>| #[trigger] tabs@.contains_key(key) implies tabs@[key]@
            == before@[key]@.restarted() by {
            assert(before@.contains_key(key));
            assert(related(before@[key], tabs@[key]));
        }
        assert(tabs_view(tabs@) =~= tabs_view(before@).map_values(|t: TabView| t.restarted()));
    }
}

// ---------------------------------------------------------------------------
// What the commands do
// ---------------------------------------------------------------------------

/// Where the first agent with the id stands, case ignored, from the `i`-th on.
pub open spec fn named_agent(agents: Seq<AvailableAgent>, id: Seq<char>, i: int) -> Option<int>
    decreases agents.len() - i,
{
    if i < 0 || i >= agents.len() {
        None
    } else if lower(agents[i].id@) == lower(id) {
        Some(i)
    } else {
        named_agent(agents, id, i + 1)
    }
}

fn find_agent(agents: &Vec<AvailableAgent>, id: &str) -> (r: Option<usize>)
    ensures
        match r {
            Some(i) => named_agent(agents@, id@, 0) == Some(i as int) && i < agents.len(),
            None => named_agent(agents@, id@, 0) is None,
        },
{
    let mut i: usize = 0;
    while i < agents.len()
        invariant
            i <= agents.len(),
            named_agent(agents@, id@, 0) == named_agent(agents@, id@, i as int),
        decreases agents.len() - i,
    {
        if same_ignore_case(agents[i].id.as_str(), id) {
            return Some(i);
        }
        i += 1;
    }
    None
}

impl AppView {
    /// The pane with a notice in the tab in front.
    pub open spec fn noticed_in_front(self, kind: NoticeKind, text: PhraseView) -> AppView {
        self.noticed(self.active_key(), notice(kind, text))
    }

    /// The pane with the help shown, or put away.
    pub open spec fn help_toggled(self) -> AppView {
        AppView {
            screen: ScreenView {
                help_overlay_visible: !self.screen.help_overlay_visible,
                ..self.screen
            },
            ..self
        }
    }

    /// The pane after the turn in front was to be stopped.
    #[verifier::opaque]
    pub open spec fn turn_stopped(self) -> AppView {
        let tab = self.current_tab();
        if !tab.turn.in_flight() {
            self.noticed_in_front(NoticeKind::Info, PhraseOf::NothingToStop)
        } else {
            match tab.session_id {
                Some(session_id) => self.turn_cancelled(session_id),
                None => self.with_current(tab.idle()),
            }
        }
    }

    /// The pane after a session was to be begun: not while the agent works.
    #[verifier::opaque]
    pub open spec fn session_begun(self) -> AppView {
        if self.current_tab().turn.in_flight() {
            self.noticed_in_front(NoticeKind::Warning, PhraseOf::AgentBusy)
        } else {
            self.with_current(
                TabView { session_id: None, ..self.current_tab().history_cleared() },
            ).asking(EffectOf::NewSession { tab_id: self.active_key() })
        }
    }

    /// The pane of a stack that starts anew: no tab keeps its session or its
    /// conversation.
    #[verifier::opaque]
    pub open spec fn stack_restarted(self) -> AppView {
        AppView {
            ids: IdsView { session_id: Seq::empty(), ..self.ids },
            agent: AgentView {
                state: ConnectionState::Connecting(Phrase::Restarting),
                ..self.agent
            },
            sessions: SessionsView {
                session_to_tab: Map::empty(),
                model_configs: Map::empty(),
                config_options: Map::empty(),
            },
            tabs: self.tabs.map_values(|t: TabView| t.restarted()),
            ..self
        }.asking(EffectOf::RestartStack)
    }

    /// The pane after a fix of the last failure was to be worked out: not
    /// while there is a turn.
    #[verifier::opaque]
    pub open spec fn fix_asked(self, hint: String) -> AppView {
        if !(self.current_tab().turn is Idle) {
            self.noticed_in_front(NoticeKind::Warning, PhraseOf::AgentBusy)
        } else {
            self.with_current(self.current_tab().fixing(hint)).asking(
                EffectOf::SubmitAutofix { tab_id: self.active_key() },
            )
        }
    }

    /// The pane with the model picker open.
    pub open spec fn model_picker_opened(self) -> AppView {
        self.with_current(self.current_tab().picking_model())
    }

    /// The pane with the model picker closed.
    pub open spec fn model_picker_closed(self) -> AppView {
        self.with_current(TabView { model_picker_open: false, ..self.current_tab() })
    }

    /// The pane after a model was to be picked from a list: the values of the
    /// session's own option for it, or else the models that can be picked.
    pub open spec fn model_list_asked(self) -> AppView {
        match category_at(self.front_options(), "model"@, 0) {
            Some(k) => self.with_current(
                self.current_tab().picking(values_of(self.front_options()[k], true)),
            ),
            None => if self.catalog.picker_models.len() == 0 {
                self.noticed_in_front(NoticeKind::Info, PhraseOf::NoModels)
            } else {
                self.model_picker_opened()
            },
        }
    }

    /// The pane after a model was named: the one in use stays, one that can be
    /// picked is asked for, and any other is refused.
    pub open spec fn model_named(self, id: Seq<char>) -> AppView {
        if self.catalog.current_model_id == Some(id) {
            self.model_picker_closed()
        } else if !has_model(self.catalog.picker_models, id) {
            self.noticed_in_front(NoticeKind::Error, PhraseOf::ModelUnavailable { model: id })
        } else {
            match self.current_tab().session_id {
                Some(session_id) => self.model_picker_closed().asking(
                    EffectOf::SetSessionModel { session_id, model: id, pane_override: true },
                ),
                None => self.with_current(
                    TabView {
                        model_picker_open: false,
                        model_override: Some(id),
                        ..self.current_tab()
                    },
                ),
            }
        }
    }

    /// The pane after a model was asked for.
    #[verifier::opaque]
    pub open spec fn model_asked(self, rest: Seq<char>) -> AppView {
        if trimmed(rest).len() == 0 {
            self.model_list_asked()
        } else {
            self.model_named(trimmed(rest))
        }
    }

    /// The pane after the options of the session were asked for.
    #[verifier::opaque]
    pub open spec fn options_asked(self) -> AppView {
        if self.front_options().len() == 0 {
            self.noticed_in_front(NoticeKind::Info, PhraseOf::NoOptions)
        } else {
            self.with_current(
                self.current_tab().picking(ConfigPickerView::Options { selected: 0 }),
            )
        }
    }

    /// The pane after it was to be moved: it takes the position, or asks for
    /// one where it does not understand.
    #[verifier::opaque]
    pub open spec fn move_asked(self, rest: Seq<char>) -> AppView {
        match resolved_position(rest) {
            Some(position) => self.with_current(
                TabView { agent_pane_position: Some(position), ..self.current_tab() },
            ).tab_projected(self.active_key()),
            None => self.with_current(self.current_tab().asking_position()),
        }
    }

    /// The pane after another agent was asked for.
    #[verifier::opaque]
    pub open spec fn agent_asked(self, rest: Seq<char>) -> AppView {
        if trimmed(rest).len() == 0 {
            if self.agent.available.len() == 0 {
                self.noticed_in_front(NoticeKind::Warning, PhraseOf::NoAgents)
            } else {
                self.agent_picker_opened(
                    agent_at(self.agent.available, self.agent.current_id, self.agent.source, 0) as usize,
                )
            }
        } else {
            match named_agent(self.agent.available, trimmed(rest), 0) {
                Some(i) => self.asking(
                    EffectOf::SwitchAgent { agent_id: self.agent.available[i].id@ },
                ),
                None => self.noticed_in_front(
                    NoticeKind::Error,
                    PhraseOf::UnknownAgent { agent: trimmed(rest) },
                ),
            }
        }
    }

    /// The pane after a command.
    pub open spec fn commanded(self, kind: CommandKind, rest: String) -> AppView {
        match kind {
            CommandKind::Help => self.help_toggled(),
            CommandKind::Clear => self.with_current(self.current_tab().history_cleared()),
            CommandKind::New => self.session_begun(),
            CommandKind::Stop => self.turn_stopped(),
            CommandKind::Sessions => self.agents_view_opened(self.active_key()),
            CommandKind::Restart => self.stack_restarted(),
            CommandKind::Fix => self.fix_asked(rest),
            CommandKind::Model => self.model_asked(rest@),
            CommandKind::Config => self.options_asked(),
            CommandKind::Move => self.move_asked(rest@),
            CommandKind::Agent => self.agent_asked(rest@),
        }
    }
}

impl App {
    fn notice_in_front(&mut self, m: ChatMessage)
        ensures
            final(self)@ == old(self)@.noticed(old(self)@.active_key(), m@),
    {
        let key = self.active_tab_key();
        self.notice_in(key.as_str(), m);
    }

    fn front_turn_in_flight(&self) -> (r: bool)
        ensures
            r == self@.current_tab().turn.in_flight(),
    {
        match self.current_tab() {
            Some(tab) => tab.turn.is_in_flight(),
            None => false,
        }
    }

    fn front_turn_idle(&self) -> (r: bool)
        ensures
            r == (self@.current_tab().turn is Idle),
    {
        match self.current_tab() {
            Some(tab) => tab.turn.is_idle(),
            None => true,
        }
    }

    fn front_session(&self) -> (r: Option<String>)
        ensures
            opt_view(r) == self@.current_tab().session_id,
    {
        match self.current_tab() {
            Some(tab) => copy_text(&tab.session_id),
            None => None,
        }
    }

    fn stop_turn(&mut self)
        ensures
            final(self)@ == old(self)@.turn_stopped(),
    {
        proof {
            reveal(AppView::turn_stopped);
        }
        if !self.front_turn_in_flight() {
            self.notice_in_front(ChatMessage::info(Phrase::NothingToStop));
            return;
        }
        match self.front_session() {
            Some(session_id) => {
                self.cancel_turn(session_id.as_str());
            },
            None => {
                let tab = self.current_tab_mut();
                tab.turn = TurnState::Idle;
            },
        }
    }

    fn begin_session(&mut self)
        ensures
            final(self)@ == old(self)@.session_begun(),
    {
        proof {
            reveal(AppView::session_begun);
        }
        if self.front_turn_in_flight() {
            self.notice_in_front(ChatMessage::warning(Phrase::AgentBusy));
            return;
        }
        let key = self.active_tab_key();
        let tab = self.current_tab_mut();
        tab.clear_chat_history();
        tab.session_id = None;
        self.ask(EffectOf::NewSession { tab_id: key });
    }

    fn restart_stack(&mut self)
        ensures
            final(self)@ == old(self)@.stack_restarted(),
    {
        proof {
            reveal(AppView::stack_restarted);
        }
        self.agent.state = ConnectionState::Connecting(Phrase::Restarting);
        self.ids.session_id = String::new();
        self.sessions = SessionMaps {
            session_to_tab: Keyed::new(),
            model_configs: Keyed::new(),
            config_options: Keyed::new(),
        };
        proof {
            assert(self.sessions@.session_to_tab =~= Map::empty());
            assert(self.sessions@.model_configs =~= Map::empty());
            assert(self.sessions@.config_options =~= Map::empty());
        }
        restart_tabs(&mut self.tabs);
        self.ask(EffectOf::RestartStack);
    }

    fn ask_fix(&mut self, hint: String)
        ensures
            final(self)@ == old(self)@.fix_asked(hint),
    {
        proof {
            reveal(AppView::fix_asked);
        }
        if !self.front_turn_idle() {
            self.notice_in_front(ChatMessage::warning(Phrase::AgentBusy));
            return;
        }
        let key = self.active_tab_key();
        let tab = self.current_tab_mut();
        let generation: u64 = tab.autofix.generation.wrapping_add(1);
        tab.autofix.generation = generation;
        tab.turn = TurnState::Submitted(SubmittedPrompt { id: generation, text: hint });
        self.ask(EffectOf::SubmitAutofix { tab_id: key });
    }

    /// Opens the model picker.
    pub fn open_model_picker(&mut self)
        ensures
            final(self)@ == old(self)@.model_picker_opened(),
    {
        let tab = self.current_tab_mut();
        tab.model_picker_open = true;
        tab.agent_picker_open = false;
        tab.config_picker = ConfigPicker::Closed;
    }

    /// Closes the model picker.
    pub fn close_model_picker(&mut self)
        ensures
            final(self)@ == old(self)@.model_picker_closed(),
    {
        let tab = self.current_tab_mut();
        tab.model_picker_open = false;
    }

    fn list_models(&mut self)
        ensures
            final(self)@ == old(self)@.model_list_asked(),
    {
        match self.category_values("model") {
            Some(picker) => {
                let tab = self.current_tab_mut();
                tab.config_picker = picker;
                tab.model_picker_open = false;
                tab.agent_picker_open = false;
            },
            None => {
                if self.catalog.picker_models.len() == 0 {
                    self.notice_in_front(ChatMessage::info(Phrase::NoModels));
                } else {
                    self.open_model_picker();
                }
            },
        }
    }

    fn name_model(&mut self, id: String)
        ensures
            final(self)@ == old(self)@.model_named(id@),
    {
        if holds_text(&self.catalog.current_model_id, id.as_str()) {
            self.close_model_picker();
        } else if !contains_model(&self.catalog.picker_models, id.as_str()) {
            self.notice_in_front(ChatMessage::error(Phrase::ModelUnavailable { model: id }));
        } else {
            match self.front_session() {
                Some(session_id) => {
                    self.close_model_picker();
                    self.ask(
                        EffectOf::SetSessionModel { session_id, model: id, pane_override: true },
                    );
                },
                None => {
                    let tab = self.current_tab_mut();
                    tab.model_picker_open = false;
                    tab.model_override = Some(id);
                },
            }
        }
    }

    fn ask_model(&mut self, rest: &str)
        ensures
            final(self)@ == old(self)@.model_asked(rest@),
    {
        proof {
            reveal(AppView::model_asked);
        }
        let id = trim(rest);
        if is_empty_text(id.as_str()) {
            self.list_models();
        } else {
            self.name_model(id);
        }
    }

    fn ask_options(&mut self)
        ensures
            final(self)@ == old(self)@.options_asked(),
    {
        proof {
            reveal(AppView::options_asked);
        }
        if self.option_count() == 0 {
            self.notice_in_front(ChatMessage::info(Phrase::NoOptions));
        } else {
            let tab = self.current_tab_mut();
            tab.config_picker = ConfigPicker::Options { selected: 0 };
            tab.model_picker_open = false;
            tab.agent_picker_open = false;
        }
    }

    fn ask_move(&mut self, rest: &str)
        ensures
            final(self)@ == old(self)@.move_asked(rest@),
    {
        proof {
            reveal(AppView::move_asked);
        }
        match resolve_position(rest) {
            Some(position) => {
                let tab = self.current_tab_mut();
                tab.agent_pane_position = Some(position);
                self.project_active_tab_state();
            },
            None => {
                let tab = self.current_tab_mut();
                tab.input = "/move ".to_owned();
                tab.cursor = 6;
                tab.command_selected = 0;
            },
        }
    }

    fn ask_agent(&mut self, rest: &str)
        ensures
            final(self)@ == old(self)@.agent_asked(rest@),
    {
        proof {
            reveal(AppView::agent_asked);
        }
        let id = trim(rest);
        if is_empty_text(id.as_str()) {
            if self.agent.available.len() == 0 {
                self.notice_in_front(ChatMessage::warning(Phrase::NoAgents));
            } else {
                let selected: usize = self.current_agent_index();
                self.open_agent_picker(selected);
            }
            return;
        }
        match find_agent(&self.agent.available, id.as_str()) {
            Some(i) => {
                let agent_id = self.agent.available[i].id.clone();
                self.ask(EffectOf::SwitchAgent { agent_id });
            },
            None => {
                self.notice_in_front(ChatMessage::error(Phrase::UnknownAgent { agent: id }));
            },
        }
    }

    /// Carries out a command.
    pub fn handle_slash_command(&mut self, cmd: ParsedCommand)
        ensures
            final(self)@ == old(self)@.commanded(cmd.kind, cmd.rest),
    {
        match cmd.kind {
            CommandKind::Help => {
                self.screen.help_overlay_visible = !self.screen.help_overlay_visible;
            },
            CommandKind::Clear => {
                let tab = self.current_tab_mut();
                tab.clear_chat_history();
            },
            CommandKind::New => self.begin_session(),
            CommandKind::Stop => self.stop_turn(),
            CommandKind::Sessions => {
                let key = self.active_tab_key();
                self.open_agents_view_for_tab(key.as_str());
            },
            CommandKind::Restart => self.restart_stack(),
            CommandKind::Fix => self.ask_fix(cmd.rest),
            CommandKind::Model => self.ask_model(cmd.rest.as_str()),
            CommandKind::Config => self.ask_options(),
            CommandKind::Move => self.ask_move(cmd.rest.as_str()),
            CommandKind::Agent => self.ask_agent(cmd.rest.as_str()),
        }
    }
}

// ---------------------------------------------------------------------------
// Enter
// ---------------------------------------------------------------------------

impl AppView {
    /// The pane after a command that was typed: the input is empty before the
    /// command is carried out.
    pub open spec fn typed_command_run(self, kind: CommandKind, rest: String) -> AppView {
        self.with_current(self.current_tab().input_cleared()).commanded(kind, rest)
    }

    /// The pane after a command that nobody knows.
    pub open spec fn command_refused(self, word: Seq<char>) -> AppView {
        let s = self.with_current(self.current_tab().input_cleared());
        s.noticed_in_front(NoticeKind::Warning, PhraseOf::UnknownCommand { command: word })
    }
}

impl App {
    fn run_typed(&mut self, cmd: ParsedCommand)
        ensures
            final(self)@ == old(self)@.typed_command_run(cmd.kind, cmd.rest),
    {
        let tab = self.current_tab_mut();
        tab.clear_input();
        self.handle_slash_command(cmd);
    }

    /// Carries out what was typed, where it is a command, and says whether it
    /// was one.
    pub fn try_handle_slash_on_enter(&mut self) -> (r: bool)
        ensures
            exists|outcome: ParseOutcome| #[trigger]
                old(self)@.enter_means(outcome) && (match outcome {
                    ParseOutcome::Command(c) => r && final(self)@ == old(self)@.typed_command_run(
                        c.kind,
                        c.rest,
                    ),
                    ParseOutcome::Unknown(word) => r && final(self)@
                        == old(self)@.command_refused(word@),
                    ParseOutcome::NotCommand => !r && final(self)@ == old(self)@,
                }),
    {
        let outcome = self.entered();
        let ghost meant = outcome;
        proof {
            assert(old(self)@.enter_means(meant));
        }
        match outcome {
            ParseOutcome::Command(cmd) => {
                self.run_typed(cmd);
                true
            },
            ParseOutcome::Unknown(word) => {
                let tab = self.current_tab_mut();
                tab.clear_input();
                self.notice_in_front(
                    ChatMessage::warning(Phrase::UnknownCommand { command: word }),
                );
                true
            },
            ParseOutcome::NotCommand => false,
        }
    }
}

// ---------------------------------------------------------------------------
// Models and agents
// ---------------------------------------------------------------------------

/// What the model picker shows.
pub struct ModelPopupState {
    pub models: Vec<AcpModelInfo>,
    /// Which of them cannot be chosen now.
    pub disabled: Vec<bool>,
}

fn all_enabled(n: usize) -> (r: Vec<bool>)
    ensures
        r@ == Seq::new(n as nat, |i: int| false),
{
    let mut v: Vec<bool> = Vec::new();
    while v.len() < n
        invariant
            v.len() <= n,
            v@ =~= Seq::new(v@.len(), |i: int| false),
        decreases n - v.len(),
    {
        v.push(false);
    }
    v
}

/// The agents whose id is among those that are allowed.
pub open spec fn allowed_agents(agents: Seq<AvailableAgent>, ids: Seq<Seq<char>>) -> Seq<
    AvailableAgent,
> {
    agents.filter(|a: AvailableAgent| ids.contains(a.id@))
}

fn is_allowed(ids: &Vec<String>, id: &str) -> (r: bool)
    ensures
        r == views(ids@).contains(id@),
{
    let mut i: usize = 0;
    while i < ids.len()
        invariant
            i <= ids.len(),
            forall|k: int| 0 <= k < i ==> (#[trigger] views(ids@)[k]) != id@,
        decreases ids.len() - i,
    {
        proof {
            assert(views(ids@)[i as int] == ids@[i as int]@);
        }
        if same(ids[i].as_str(), id) {
            return true;
        }
        i += 1;
    }
    false
}

impl App {
    /// Takes over the models of the user's own.
    pub fn set_custom_model_config(
        &mut self,
        models: Vec<CustomModelCatalogEntry>,
        selection: Option<String>,
    )
        ensures
            final(self)@ == (AppView {
                catalog: old(self)@.catalog.with_custom(customs_view(models@), opt_view(selection)),
                ..old(self)@
            }),
    {
        self.catalog.set_custom_models(models, selection);
    }

    /// Takes over the models of the cloud.
    pub fn set_cloud_models(&mut self, models: Vec<AcpModelInfo>)
        ensures
            final(self)@ == (AppView {
                catalog: old(self)@.catalog.with_cloud(models_view(models@)),
                ..old(self)@
            }),
    {
        self.catalog.set_cloud_models(models);
    }

    /// Models together with those of the user's own.
    pub fn merge_custom_models(&self, models: Vec<AcpModelInfo>) -> (r: Vec<AcpModelInfo>)
        ensures
            models_view(r@) == merged_models(models_view(models@), self@.catalog.custom_models),
    {
        merge_models(&models, &self.catalog.custom_models)
    }

    /// What the model picker shows, where it is open.
    pub fn model_popup_state(&self) -> (r: Option<ModelPopupState>)
        ensures
            match r {
                Some(state) => self@.current_tab().model_picker_open && models_view(state.models@)
                    == self@.catalog.picker_models && state.disabled@ == Seq::new(
                    self@.catalog.picker_models.len(),
                    |i: int| false,
                ),
                None => !self@.current_tab().model_picker_open,
            },
    {
        let open = match self.current_tab() {
            Some(tab) => tab.model_picker_open,
            None => false,
        };
        if !open {
            return None;
        }
        Some(
            ModelPopupState {
                models: copy_models(&self.catalog.picker_models),
                disabled: all_enabled(self.catalog.picker_models.len()),
            },
        )
    }

    /// Leaves only the agents that are allowed.
    pub fn set_allowed_agent_ids(&mut self, ids: Vec<String>)
        ensures
            final(self)@ == (AppView {
                agent: AgentView {
                    available: allowed_agents(old(self)@.agent.available, views(ids@)),
                    ..old(self)@.agent
                },
                ..old(self)@
            }),
    {
        let ghost all = self.agent.available@;
        let ghost p = |a: AvailableAgent| views(ids@).contains(a.id@);
        let mut kept: Vec<AvailableAgent> = Vec::new();
        let mut i: usize = 0;
        proof {
            assert(kept@ =~= all.take(0).filter(p));
        }
        while i < self.agent.available.len()
            invariant
                i <= all.len(),
                all == self.agent.available@,
                self@ == old(self)@,
                p == (|a: AvailableAgent| views(ids@).contains(a.id@)),
                kept@ == all.take(i as int).filter(p),
            decreases all.len() - i,
        {
            proof {
                assert(all.take(i + 1) =~= all.take(i as int).push(all[i as int]));
                all.take(i as int).lemma_filter_push(all[i as int], p);
            }
            if is_allowed(&ids, self.agent.available[i].id.as_str()) {
                kept.push(self.agent.available[i].clone());
            }
            i += 1;
        }
        proof {
            assert(all.take(all.len() as int) =~= all);
        }
        self.agent.available = kept;
    }
}

/// The event that asks the terminal for another agent in a tab.
pub open spec fn switch_agent_event(
    window_id: Seq<char>,
    tab_id: Seq<char>,
    agent_id: Seq<char>,
    source: AgentSource,
) -> JsonView {
    event_view(
        "switch_agent"@,
        JsonView::Object(
            seq![
                entry("window_id"@, JsonView::Text(window_id)),
                entry("tab_id"@, JsonView::Text(tab_id)),
                entry("agent_id"@, JsonView::Text(agent_id)),
            ] + source_members(source),
        ),
    )
}

/// What an event says of where an agent runs.
pub open spec fn source_members(source: AgentSource) -> Seq<MemberView> {
    match source {
        AgentSource::Host => seq![entry("agent_source"@, JsonView::Text("host"@))],
        AgentSource::Wsl { distro } => seq![
            entry("agent_source"@, JsonView::Text("wsl"@)),
            entry("wsl_distro"@, JsonView::Text(distro@)),
        ],
    }
}

/// The event that asks the terminal for another agent in a tab.
pub fn build_switch_agent_event(
    window_id: &str,
    tab_id: &str,
    agent_id: &str,
    source: &AgentSource,
) -> (r: Json)
    ensures
        r@ == switch_agent_event(window_id@, tab_id@, agent_id@, *source),
{
    let mut m = no_members();
    put(&mut m, "window_id", Json::of_text(window_id));
    put(&mut m, "tab_id", Json::of_text(tab_id));
    put(&mut m, "agent_id", Json::of_text(agent_id));
    match source {
        AgentSource::Host => {
            put(&mut m, "agent_source", Json::of_text("host"));
        },
        AgentSource::Wsl { distro } => {
            put(&mut m, "agent_source", Json::of_text("wsl"));
            put(&mut m, "wsl_distro", Json::of_text(distro.as_str()));
        },
    }
    let params = Json::of_members(m);
    proof {
        let want = switch_agent_event(window_id@, tab_id@, agent_id@, *source)->Object_0[2].value;
        assert(params@->Object_0 =~= want->Object_0);
    }
    event("switch_agent", params)
}

// ---------------------------------------------------------------------------
// Laws
// ---------------------------------------------------------------------------

impl TabView {
    /// How many pickers are open.
    pub open spec fn open_pickers(self) -> int {
        (if self.model_picker_open { 1int } else { 0int }) + (if self.agent_picker_open {
            1int
        } else {
            0int
        }) + (if self.config_picker is Closed { 0int } else { 1int })
    }
}

/// A picker that opens is the only one that is open.
pub proof fn law_one_picker_at_a_time(v: AppView, selected: usize, picker: ConfigPickerView)
    requires
        !(picker is Closed),
    ensures
        v.model_picker_opened().current_tab().open_pickers() == 1,
        v.agent_picker_opened(selected).current_tab().open_pickers() == 1,
        v.current_tab().picking(picker).open_pickers() == 1,
{
}

/// No command opens a second picker over a tab.
pub proof fn law_commands_keep_one_picker(v: AppView, kind: CommandKind, rest: String)
    requires
        v.current_tab().open_pickers() <= 1,
    ensures
        v.commanded(kind, rest).current_tab().open_pickers() <= 1,
{
    match kind {
        CommandKind::New => {
            lemma_pickers_after_new(v);
        },
        CommandKind::Stop => {
            lemma_pickers_after_stop(v);
        },
        CommandKind::Restart => {
            lemma_pickers_after_restart(v);
        },
        CommandKind::Fix => {
            lemma_pickers_after_fix(v, rest);
        },
        CommandKind::Model => {
            lemma_pickers_after_model(v, rest@);
        },
        CommandKind::Config => {
            lemma_pickers_after_config(v);
        },
        CommandKind::Move => {
            lemma_pickers_after_move(v, rest@);
        },
        CommandKind::Agent => {
            lemma_pickers_after_agent(v, rest@);
        },
        _ => {},
    }
}

proof fn lemma_pickers_after_new(v: AppView)
    requires
        v.current_tab().open_pickers() <= 1,
    ensures
        v.session_begun().current_tab().open_pickers() <= 1,
{
    reveal(AppView::session_begun);
}

proof fn lemma_pickers_after_stop(v: AppView)
    requires
        v.current_tab().open_pickers() <= 1,
    ensures
        v.turn_stopped().current_tab().open_pickers() <= 1,
{
    reveal(AppView::turn_stopped);
}

proof fn lemma_pickers_after_restart(v: AppView)
    requires
        v.current_tab().open_pickers() <= 1,
    ensures
        v.stack_restarted().current_tab().open_pickers() <= 1,
{
    reveal(AppView::stack_restarted);
}

proof fn lemma_pickers_after_fix(v: AppView, rest: String)
    requires
        v.current_tab().open_pickers() <= 1,
    ensures
        v.fix_asked(rest).current_tab().open_pickers() <= 1,
{
    reveal(AppView::fix_asked);
}

proof fn lemma_pickers_after_model(v: AppView, rest: Seq<char>)
    requires
        v.current_tab().open_pickers() <= 1,
    ensures
        v.model_asked(rest).current_tab().open_pickers() <= 1,
{
    reveal(AppView::model_asked);
}

proof fn lemma_pickers_after_config(v: AppView)
    requires
        v.current_tab().open_pickers() <= 1,
    ensures
        v.options_asked().current_tab().open_pickers() <= 1,
{
    reveal(AppView::options_asked);
}

proof fn lemma_pickers_after_move(v: AppView, rest: Seq<char>)
    requires
        v.current_tab().open_pickers() <= 1,
    ensures
        v.move_asked(rest).current_tab().open_pickers() <= 1,
{
    reveal(AppView::move_asked);
}

proof fn lemma_pickers_after_agent(v: AppView, rest: Seq<char>)
    requires
        v.current_tab().open_pickers() <= 1,
    ensures
        v.agent_asked(rest).current_tab().open_pickers() <= 1,
{
    reveal(AppView::agent_asked);
}

/// A command that finds the agent at work leaves its turn alone.
pub proof fn law_a_working_agent_is_left_alone(v: AppView, rest: String)
    requires
        v.current_tab().turn.in_flight(),
    ensures
        v.commanded(CommandKind::New, rest).current_tab().turn == v.current_tab().turn,
        v.commanded(CommandKind::New, rest).current_tab().session_id == v.current_tab().session_id,
        v.commanded(CommandKind::Fix, rest).current_tab().turn == v.current_tab().turn,
        v.commanded(CommandKind::Fix, rest).current_tab().autofix == v.current_tab().autofix,
        v.commanded(CommandKind::Fix, rest).effects == v.effects,
{
    reveal(AppView::session_begun);
    reveal(AppView::fix_asked);
}

/// Moving the pane in one tab leaves every other tab where it is.
pub proof fn law_move_stays_in_its_tab(v: AppView, rest: Seq<char>, other: Seq<char>)
    requires
        other != v.active_key(),
    ensures
        v.move_asked(rest).tab(other) == v.tab(other),
{
    reveal(AppView::move_asked);
}

/// A stack that starts anew keeps no session and no conversation in any tab.
pub proof fn law_restart_forgets_every_tab(v: AppView, key: Seq<char>)
    requires
        v.tabs.contains_key(key),
    ensures
        v.stack_restarted().tab(key).session_id is None,
        v.stack_restarted().tab(key).messages.len() == 0,
        v.stack_restarted().tab(key).turn is Idle,
        v.stack_restarted().agent.state is Connecting,
        v.stack_restarted().ids.session_id.len() == 0,
{
    reveal(AppView::stack_restarted);
}

/// A command that was typed runs in a tab whose input is empty again.
pub proof fn law_a_typed_command_empties_the_input(v: AppView, rest: String)
    ensures
        v.typed_command_run(CommandKind::Clear, rest).current_tab().input.len() == 0,
        v.typed_command_run(CommandKind::Help, rest).current_tab().input.len() == 0,
        v.typed_command_run(CommandKind::Help, rest).current_tab().cursor == 0,
        v.typed_command_run(CommandKind::Help, rest).screen.help_overlay_visible
            == !v.screen.help_overlay_visible,
        v.typed_command_run(CommandKind::Clear, rest).current_tab().messages.len() == 0,
{
}

/// Agents that are not allowed are not offered, and the others are.
pub proof fn law_only_allowed_agents_are_offered(
    agents: Seq<AvailableAgent>,
    ids: Seq<Seq<char>>,
    a: AvailableAgent,
)
    ensures
        allowed_agents(agents, ids).contains(a) <==> agents.contains(a) && ids.contains(a.id@),
{
    let p = |a: AvailableAgent| ids.contains(a.id@);
    let offered = agents.filter(p);
    agents.filter_lemma(p);
    if offered.contains(a) {
        agents.lemma_filter_contains_rev(p, a);
        let k = choose|k: int| 0 <= k < offered.len() && offered[k] == a;
        assert(p(offered[k]));
    }
    if agents.contains(a) && p(a) {
        let k = choose|k: int| 0 <= k < agents.len() && agents[k] == a;
        assert(p(agents[k]));
    }
}

/// The terminal is asked to switch this tab of this window to the agent that was
/// picked, on the host or in its distribution.
pub proof fn law_a_switch_names_the_agent_and_where(
    window_id: Seq<char>,
    tab_id: Seq<char>,
    agent_id: Seq<char>,
    source: AgentSource,
)
    ensures
        ({
            let told = switch_agent_event(window_id, tab_id, agent_id, source);
            let params = told.member("params"@)->0;
            &&& told.text_member("method"@) == Some("switch_agent"@)
            &&& told.member("params"@) is Some
            &&& params.text_member("window_id"@) == Some(window_id)
            &&& params.text_member("tab_id"@) == Some(tab_id)
            &&& params.text_member("agent_id"@) == Some(agent_id)
            &&& source is Host ==> params.text_member("agent_source"@) == Some("host"@)
                && params.member("wsl_distro"@) is None
            &&& source is Wsl ==> params.text_member("agent_source"@) == Some("wsl"@)
                && params.text_member("wsl_distro"@) == Some(source->distro@)
        }),
{
    reveal_strlit("window_id");
    reveal_strlit("tab_id");
    reveal_strlit("agent_id");
    reveal_strlit("agent_source");
    reveal_strlit("wsl_distro");
    assert("window_id"@.len() == 9 && "tab_id"@.len() == 6 && "agent_id"@.len() == 8
        && "agent_source"@.len() == 12 && "wsl_distro"@.len() == 10);
    let params = switch_agent_event(window_id, tab_id, agent_id, source)->Object_0[2].value;
    law_an_event_says_its_method("switch_agent"@, params);
    let v = params->Object_0;
    law_a_member_is_read_by_its_name(v, "window_id"@, 0);
    law_a_member_is_read_by_its_name(v, "tab_id"@, 1);
    law_a_member_is_read_by_its_name(v, "agent_id"@, 2);
    law_a_member_is_read_by_its_name(v, "agent_source"@, 3);
    law_a_member_is_read_by_its_name(v, "wsl_distro"@, 4);
}

} // verus!
