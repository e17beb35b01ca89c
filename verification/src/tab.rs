//! What the agent pane keeps for each tab of the terminal.

use std::collections::VecDeque;

use vstd::prelude::*;
use vstd::string::*;

use crate::text::opt_view;
use crate::transcript::{
    messages_view, turns_view, ChatMessage, ChatMessageView, CompletedTurn, CompletedTurnView,
};
use crate::usage::{UsageSnapshot, UsageStaleness};

verus! {

/// What the pane shows of a tab.
#[derive(Clone, Copy, Debug, PartialEq, Eq, Structural)]
pub enum PaneView {
    Chat,
    Agents,
}

/// A prompt that was handed to the agent.
pub struct SubmittedPrompt {
    pub id: u64,
    pub text: String,
}

/// How far the current turn has got.
pub enum TurnState {
    Idle,
    /// Handed over, nothing has come back yet.
    Submitted(SubmittedPrompt),
    /// The agent is answering.
    Streaming(SubmittedPrompt),
    /// The answer is on screen and the pane takes input again, while the agent
    /// may still go on.
    Surfaced(SubmittedPrompt),
}

impl TurnState {
    /// The pane waits for the agent.
    pub open spec fn in_flight(self) -> bool {
        self is Submitted || self is Streaming
    }

    /// The id of the prompt of the turn.
    pub open spec fn prompt_id(self) -> Option<u64> {
        match self {
            TurnState::Idle => None,
            TurnState::Submitted(p) => Some(p.id),
            TurnState::Streaming(p) => Some(p.id),
            TurnState::Surfaced(p) => Some(p.id),
        }
    }

    /// Whether no turn is going on.
    pub fn is_idle(&self) -> (r: bool)
        ensures
            r == (*self is Idle),
    {
        match self {
            TurnState::Idle => true,
            _ => false,
        }
    }

    /// Whether the pane waits for the agent.
    pub fn is_in_flight(&self) -> (r: bool)
        ensures
            r == self.in_flight(),
    {
        match self {
            TurnState::Submitted(_) => true,
            TurnState::Streaming(_) => true,
            _ => false,
        }
    }

    /// Whether the agent is answering.
    pub fn is_streaming(&self) -> (r: bool)
        ensures
            r == (*self is Streaming),
    {
        match self {
            TurnState::Streaming(_) => true,
            _ => false,
        }
    }

    /// Whether there is a turn that a request of the agent can belong to.
    pub fn can_service_agent_request(&self) -> (r: bool)
        ensures
            r == !(*self is Idle),
    {
        !self.is_idle()
    }

    /// The prompt of the turn.
    pub fn prompt(&self) -> (r: Option<&SubmittedPrompt>)
        ensures
            match r {
                Some(p) => *self == TurnState::Submitted(*p) || *self == TurnState::Streaming(*p)
                    || *self == TurnState::Surfaced(*p),
                None => *self is Idle,
            },
    {
        match self {
            TurnState::Idle => None,
            TurnState::Submitted(p) => Some(p),
            TurnState::Streaming(p) => Some(p),
            TurnState::Surfaced(p) => Some(p),
        }
    }
}

/// How the last turn ended.
#[derive(Clone, Copy, Debug, PartialEq, Eq, Structural)]
pub enum AgentActivityOutcome {
    Succeeded,
    Failed,
    Cancelled,
}

impl AgentActivityOutcome {
    /// The name of the outcome.
    pub open spec fn name(self) -> Seq<char> {
        match self {
            AgentActivityOutcome::Succeeded => "succeeded"@,
            AgentActivityOutcome::Failed => "failed"@,
            AgentActivityOutcome::Cancelled => "cancelled"@,
        }
    }

    /// The name of the outcome.
    pub fn as_str(self) -> (r: &'static str)
        ensures
            r@ == self.name(),
    {
        match self {
            AgentActivityOutcome::Succeeded => "succeeded",
            AgentActivityOutcome::Failed => "failed",
            AgentActivityOutcome::Cancelled => "cancelled",
        }
    }
}

/// One of the answers to a request for permission.
pub struct PermOption {
    pub id: String,
    pub name: String,
}

/// A request for permission that waits for the user.
pub struct PermissionState {
    pub tool_call_id: String,
    pub description: String,
    pub title: String,
    pub kind_label: Option<String>,
    pub target: Option<String>,
    pub target_is_command: bool,
    pub options: Vec<PermOption>,
    pub selected: usize,
    /// By which the answer is delivered.
    pub responder: Option<u64>,
}

/// What the agent asks the user.
pub struct UserInputRequest {
    pub question: String,
    pub choices: Vec<String>,
    pub allow_freeform: bool,
}

/// A question that waits for the user.
pub struct UserInputState {
    pub request_id: String,
    pub request: UserInputRequest,
    pub selected: usize,
    pub input: String,
    /// By which the answer is delivered.
    pub responder: Option<u64>,
}

/// A question, mathematically.
#[verifier::ext_equal]
pub struct UserInputView {
    pub request_id: Seq<char>,
    pub request: UserInputRequest,
    pub selected: usize,
    pub input: Seq<char>,
    pub responder: Option<u64>,
}

impl View for UserInputState {
    type V = UserInputView;

    open spec fn view(&self) -> UserInputView {
        UserInputView {
            request_id: self.request_id@,
            request: self.request,
            selected: self.selected,
            input: self.input@,
            responder: self.responder,
        }
    }
}

/// The questions of a queue, mathematically.
pub open spec fn inputs_view(v: Seq<UserInputState>) -> Seq<UserInputView> {
    v.map_values(|u: UserInputState| u@)
}

/// What the bar at the bottom says of a failed command.
pub enum AutofixBarSnapshot {
    Idle,
    /// A failure was seen in a pane.
    Detected { pane_id: String },
    /// A fix is being worked out.
    Pending { pane_id: String },
    /// A fix is ready to be looked at.
    Review { pane_id: String },
}

/// What is known of a failed command and its fix.
pub struct AutofixState {
    pub generation: u64,
    /// The pane a fix is worked out for.
    pub pane_id: Option<String>,
    /// The pane whose fix waits for review.
    pub suggested_pane_id: Option<String>,
    /// The pane whose next prompt-start merely follows the failure.
    pub trigger_echo_pane: Option<String>,
    /// When the fix was armed.
    pub armed_at: Option<u64>,
    pub bar_snapshot: AutofixBarSnapshot,
}

/// How far the conversation is scrolled up.
#[derive(Clone, Copy, Debug, PartialEq, Eq, Structural)]
pub struct ChatScroll {
    pub offset: usize,
    pub max: usize,
}

impl ChatScroll {
    /// The scroll after a move by some rows, upwards where positive. It stops
    /// at the bottom; how far up there is something to see is not asked.
    pub open spec fn moved(self, rows: int) -> ChatScroll {
        ChatScroll {
            offset: if self.offset + rows < 0 {
                0
            } else if self.offset + rows > usize::MAX {
                usize::MAX
            } else {
                (self.offset + rows) as usize
            },
            max: self.max,
        }
    }

    /// The scroll at the bottom.
    pub open spec fn bottom(self) -> ChatScroll {
        ChatScroll { offset: 0, max: self.max }
    }

    /// Moves up by some rows.
    pub fn up(&mut self, rows: usize)
        ensures
            *final(self) == old(self).moved(rows as int),
    {
        self.offset = self.offset.saturating_add(rows);
    }

    /// Moves down by some rows.
    pub fn down(&mut self, rows: usize)
        ensures
            *final(self) == old(self).moved(-rows),
    {
        self.offset = self.offset.saturating_sub(rows);
    }
}

/// Where the pane stands in its window.
#[derive(Clone, Copy, Debug, PartialEq, Eq, Structural)]
pub enum PanePosition {
    Left,
    Right,
    Up,
    Bottom,
}

impl PanePosition {
    /// The name of the position.
    pub open spec fn name(self) -> Seq<char> {
        match self {
            PanePosition::Left => "left"@,
            PanePosition::Right => "right"@,
            PanePosition::Up => "up"@,
            PanePosition::Bottom => "bottom"@,
        }
    }

    /// The name of the position.
    pub fn as_str(self) -> (r: &'static str)
        ensures
            r@ == self.name(),
    {
        match self {
            PanePosition::Left => "left",
            PanePosition::Right => "right",
            PanePosition::Up => "up",
            PanePosition::Bottom => "bottom",
        }
    }
}

/// The picker for the options of a session.
pub enum ConfigPicker {
    Closed,
    /// The options, one of them highlighted.
    Options { selected: usize },
    /// The values of an option, one of them highlighted. `direct` where they were
    /// opened without the options before them.
    Values { option_id: String, selected: usize, direct: bool },
}

/// The picker for the options of a session, mathematically.
#[verifier::ext_equal]
pub enum ConfigPickerView {
    Closed,
    Options { selected: usize },
    Values { option_id: Seq<char>, selected: usize, direct: bool },
}

impl View for ConfigPicker {
    type V = ConfigPickerView;

    open spec fn view(&self) -> ConfigPickerView {
        match *self {
            ConfigPicker::Closed => ConfigPickerView::Closed,
            ConfigPicker::Options { selected } => ConfigPickerView::Options { selected },
            ConfigPicker::Values { option_id, selected, direct } => ConfigPickerView::Values {
                option_id: option_id@,
                selected,
                direct,
            },
        }
    }
}

impl ConfigPicker {
    /// Whether the picker is open.
    pub fn is_open(&self) -> (r: bool)
        ensures
            r == !(self@ is Closed),
    {
        match self {
            ConfigPicker::Closed => false,
            _ => true,
        }
    }

    /// The option whose values are shown.
    pub fn option_id(&self) -> (r: Option<&str>)
        ensures
            match r {
                Some(id) => self@ is Values && self@->option_id == id@,
                None => !(self@ is Values),
            },
    {
        match self {
            ConfigPicker::Values { option_id, .. } => Some(option_id.as_str()),
            _ => None,
        }
    }
}

/// What the agent pane keeps for one tab.
pub struct TabSession {
    pub session_id: Option<String>,
    pub messages: Vec<ChatMessage>,
    pub completed_turns: Vec<CompletedTurn>,
    pub turn: TurnState,
    pub permission: VecDeque<PermissionState>,
    pub user_input: VecDeque<UserInputState>,
    pub activity_frame: usize,
    pub activity_operation_id: u64,
    pub activity_outcome: Option<AgentActivityOutcome>,
    pub activity_summary: Option<String>,
    pub timing_note: Option<String>,
    pub active_direct_proposal_id: Option<String>,
    /// The messages of a stored session are being replayed.
    pub loading_session: bool,
    pub loading_target_session_id: Option<String>,
    pub replay_agent_buffer: String,
    pub replay_user_buffer: String,
    pub chat_scroll: ChatScroll,
    pub current_view: PaneView,
    pub pane_open: bool,
    pub agent_pane_position: Option<PanePosition>,
    pub input: String,
    /// How many characters stand before the cursor.
    pub cursor: usize,
    /// Which candidate of the command popup is highlighted.
    pub command_selected: usize,
    /// The input can be reached by the navigation keys.
    pub input_focusable: bool,
    pub model_picker_open: bool,
    pub agent_picker_open: bool,
    pub agent_picker_selected: usize,
    pub selected_completed_turn_idx: Option<usize>,
    /// The selected turn has yet to be scrolled into sight.
    pub completed_turn_selection_visible_pending: bool,
    pub usage: Option<UsageSnapshot>,
    pub usage_staleness: UsageStaleness,
    pub model_override: Option<String>,
    pub config_pending_id: Option<String>,
    pub config_picker: ConfigPicker,
    pub paste_generation: u64,
    pub paste_pending: bool,
    pub reveal_chars: usize,
    pub autofix: AutofixState,
}

/// A failed command and its fix, mathematically.
#[verifier::ext_equal]
pub struct AutofixView {
    pub generation: u64,
    pub pane_id: Option<Seq<char>>,
    pub suggested_pane_id: Option<Seq<char>>,
    pub trigger_echo_pane: Option<Seq<char>>,
    pub armed_at: Option<u64>,
    pub bar: BarView,
}

/// The bar at the bottom, mathematically.
#[verifier::ext_equal]
pub enum BarView {
    Idle,
    Detected(Seq<char>),
    Pending(Seq<char>),
    Review(Seq<char>),
}

impl View for AutofixBarSnapshot {
    type V = BarView;

    open spec fn view(&self) -> BarView {
        match self {
            AutofixBarSnapshot::Idle => BarView::Idle,
            AutofixBarSnapshot::Detected { pane_id } => BarView::Detected(pane_id@),
            AutofixBarSnapshot::Pending { pane_id } => BarView::Pending(pane_id@),
            AutofixBarSnapshot::Review { pane_id } => BarView::Review(pane_id@),
        }
    }
}

impl View for AutofixState {
    type V = AutofixView;

    open spec fn view(&self) -> AutofixView {
        AutofixView {
            generation: self.generation,
            pane_id: opt_view(self.pane_id),
            suggested_pane_id: opt_view(self.suggested_pane_id),
            trigger_echo_pane: opt_view(self.trigger_echo_pane),
            armed_at: self.armed_at,
            bar: self.bar_snapshot@,
        }
    }
}

/// What is kept for one tab, mathematically.
#[verifier::ext_equal]
pub struct TabView {
    pub session_id: Option<Seq<char>>,
    pub messages: Seq<ChatMessageView>,
    pub completed_turns: Seq<CompletedTurnView>,
    pub turn: TurnState,
    pub permission: Seq<PermissionState>,
    pub user_input: Seq<UserInputView>,
    pub activity_frame: usize,
    pub activity_operation_id: u64,
    pub activity_outcome: Option<AgentActivityOutcome>,
    pub activity_summary: Option<Seq<char>>,
    pub timing_note: Option<Seq<char>>,
    pub active_direct_proposal_id: Option<Seq<char>>,
    pub loading_session: bool,
    pub loading_target_session_id: Option<Seq<char>>,
    pub replay_agent_buffer: Seq<char>,
    pub replay_user_buffer: Seq<char>,
    pub chat_scroll: ChatScroll,
    pub current_view: PaneView,
    pub pane_open: bool,
    pub agent_pane_position: Option<PanePosition>,
    pub input: Seq<char>,
    pub cursor: usize,
    pub command_selected: usize,
    pub input_focusable: bool,
    pub model_picker_open: bool,
    pub agent_picker_open: bool,
    pub agent_picker_selected: usize,
    pub selected_completed_turn_idx: Option<usize>,
    pub completed_turn_selection_visible_pending: bool,
    pub usage: Option<UsageSnapshot>,
    pub usage_staleness: UsageStaleness,
    pub model_override: Option<Seq<char>>,
    pub config_pending_id: Option<Seq<char>>,
    pub config_picker: ConfigPickerView,
    pub paste_generation: u64,
    pub paste_pending: bool,
    pub reveal_chars: usize,
    pub autofix: AutofixView,
}

impl View for TabSession {
    type V = TabView;

    open spec fn view(&self) -> TabView {
        TabView {
            session_id: opt_view(self.session_id),
            messages: messages_view(self.messages@),
            completed_turns: turns_view(self.completed_turns@),
            turn: self.turn,
            permission: self.permission@,
            user_input: inputs_view(self.user_input@),
            activity_frame: self.activity_frame,
            activity_operation_id: self.activity_operation_id,
            activity_outcome: self.activity_outcome,
            activity_summary: opt_view(self.activity_summary),
            timing_note: opt_view(self.timing_note),
            active_direct_proposal_id: opt_view(self.active_direct_proposal_id),
            loading_session: self.loading_session,
            loading_target_session_id: opt_view(self.loading_target_session_id),
            replay_agent_buffer: self.replay_agent_buffer@,
            replay_user_buffer: self.replay_user_buffer@,
            chat_scroll: self.chat_scroll,
            current_view: self.current_view,
            pane_open: self.pane_open,
            agent_pane_position: self.agent_pane_position,
            input: self.input@,
            cursor: self.cursor,
            command_selected: self.command_selected,
            input_focusable: self.input_focusable,
            model_picker_open: self.model_picker_open,
            agent_picker_open: self.agent_picker_open,
            agent_picker_selected: self.agent_picker_selected,
            selected_completed_turn_idx: self.selected_completed_turn_idx,
            completed_turn_selection_visible_pending: self.completed_turn_selection_visible_pending,
            usage: self.usage,
            usage_staleness: self.usage_staleness,
            model_override: opt_view(self.model_override),
            config_pending_id: opt_view(self.config_pending_id),
            config_picker: self.config_picker@,
            paste_generation: self.paste_generation,
            paste_pending: self.paste_pending,
            reveal_chars: self.reveal_chars,
            autofix: self.autofix@,
        }
    }
}

/// A tab of which nothing is known yet.
pub open spec fn fresh_tab() -> TabView {
    TabView {
        session_id: None,
        messages: Seq::empty(),
        completed_turns: Seq::empty(),
        turn: TurnState::Idle,
        permission: Seq::empty(),
        user_input: Seq::empty(),
        activity_frame: 0,
        activity_operation_id: 0,
        activity_outcome: None,
        activity_summary: None,
        timing_note: None,
        active_direct_proposal_id: None,
        loading_session: false,
        loading_target_session_id: None,
        replay_agent_buffer: Seq::empty(),
        replay_user_buffer: Seq::empty(),
        chat_scroll: ChatScroll { offset: 0, max: 0 },
        current_view: PaneView::Chat,
        pane_open: false,
        agent_pane_position: None,
        input: Seq::empty(),
        cursor: 0,
        command_selected: 0,
        input_focusable: true,
        model_picker_open: false,
        agent_picker_open: false,
        agent_picker_selected: 0,
        selected_completed_turn_idx: None,
        completed_turn_selection_visible_pending: false,
        usage: None,
        usage_staleness: UsageStaleness { context: false, cost: false },
        model_override: None,
        config_pending_id: None,
        config_picker: ConfigPickerView::Closed,
        paste_generation: 0,
        paste_pending: false,
        reveal_chars: 0,
        autofix: AutofixView {
            generation: 0,
            pane_id: None,
            suggested_pane_id: None,
            trigger_echo_pane: None,
            armed_at: None,
            bar: BarView::Idle,
        },
    }
}

impl Default for TabSession {
    fn default() -> (r: Self)
        ensures
            r@ == fresh_tab(),
    {
        let r = TabSession {
            session_id: None,
            messages: Vec::new(),
            completed_turns: Vec::new(),
            turn: TurnState::Idle,
            permission: VecDeque::new(),
            user_input: VecDeque::new(),
            activity_frame: 0,
            activity_operation_id: 0,
            activity_outcome: None,
            activity_summary: None,
            timing_note: None,
            active_direct_proposal_id: None,
            loading_session: false,
            loading_target_session_id: None,
            replay_agent_buffer: String::new(),
            replay_user_buffer: String::new(),
            chat_scroll: ChatScroll { offset: 0, max: 0 },
            current_view: PaneView::Chat,
            pane_open: false,
            agent_pane_position: None,
            input: String::new(),
            cursor: 0,
            command_selected: 0,
            input_focusable: true,
            model_picker_open: false,
            agent_picker_open: false,
            agent_picker_selected: 0,
            selected_completed_turn_idx: None,
            completed_turn_selection_visible_pending: false,
            usage: None,
            usage_staleness: UsageStaleness { context: false, cost: false },
            model_override: None,
            config_pending_id: None,
            config_picker: ConfigPicker::Closed,
            paste_generation: 0,
            paste_pending: false,
            reveal_chars: 0,
            autofix: AutofixState {
                generation: 0,
                pane_id: None,
                suggested_pane_id: None,
                trigger_echo_pane: None,
                armed_at: None,
                bar_snapshot: AutofixBarSnapshot::Idle,
            },
        };
        proof {
            assert(r@ =~= fresh_tab());
        }
        r
    }
}

} // verus!
