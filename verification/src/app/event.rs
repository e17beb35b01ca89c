//! What happens to the pane.

use vstd::prelude::*;

use crate::app::effect::{AliveSession, KeyEvent, KeyModifiers, SessionEvent, WtNotification};
use crate::app::state::{
    AcpSessionConfigOption, AvailableAgent, PreflightResult, SetupOption, TextSelection,
};
use crate::json::Json;
use crate::models::{AcpModelInfo, CustomModelCatalogEntry};
use crate::tab::{PermOption, UserInputRequest};
use crate::tab_actions::{TerminalOutput, ToolCallPatch};
use crate::transcript::{PlanEntry, ToolCard};
use crate::usage::UsageSnapshot;

verus! {

/// What the mouse did.
#[derive(Clone, Copy, Debug, PartialEq, Eq, Structural)]
pub enum MouseEventKind {
    ScrollUp,
    ScrollDown,
    LeftDown,
    LeftDrag,
    LeftUp,
    RightDown,
    Other,
}

/// An event of the mouse.
pub struct MouseEvent {
    pub kind: MouseEventKind,
    pub column: u16,
    pub row: u16,
    pub modifiers: KeyModifiers,
    /// What is selected once the selection has taken the event.
    pub selection: TextSelection,
}

/// Why an agent failed.
#[derive(Clone, Copy, Debug, PartialEq, Eq, Structural)]
pub enum AgentFailure {
    /// The user cancelled the turn.
    Cancelled,
    /// The agent wants its user to sign in.
    AuthRequired,
    /// The connection never came about.
    HandshakeFailed,
    /// The agent is there and does not answer; the session goes on.
    Unresponsive,
    /// What was asked for is no longer there; the session goes on.
    ResourceGone,
    /// The agent answered with an error; the session goes on.
    Protocol,
}

/// Why an answer ended early.
#[derive(Clone, Copy, Debug, PartialEq, Eq, Structural)]
pub enum SoftStopReason {
    MaxTokens,
    MaxTurnRequests,
    Refusal,
}

/// Where a session comes from.
#[derive(Clone, Copy, Debug, PartialEq, Eq, Structural)]
pub enum SessionOrigin {
    AgentPane,
    /// Started by hand in a shell.
    Unknown,
}

/// A member of an event that had to be read into a list.
pub enum Parsed<T> {
    Absent,
    Invalid,
    Present(T),
}

/// An event of the terminal.
pub struct WtEvent {
    pub method: String,
    pub pane_id: String,
    pub tab_id: Option<String>,
    pub params: Json,
    /// What is to be told of the event.
    pub notification: WtNotification,
    /// Where the session comes from that runs in the pane of the event.
    pub pane_origin: Option<SessionOrigin>,
    /// The member `cloud_models` of `params`.
    pub cloud_models: Parsed<Vec<AcpModelInfo>>,
    /// The member `custom_models` of `params`.
    pub custom_models: Parsed<Vec<CustomModelCatalogEntry>>,
}

/// What is known of an agent.
pub struct AgentProfile {
    pub id: String,
    pub display_name: String,
    pub install_hint: String,
    pub auth_hint: String,
}

/// What was found of an agent on this machine.
pub struct AgentStatus {
    pub cli_found: bool,
    pub display_name: String,
    pub cli_path: Option<String>,
}

/// What happens to the pane.
pub enum AppEvent {
    Key(KeyEvent),
    Mouse(MouseEvent),
    Tick,
    RevealTick,
    Resize(u16, u16),
    FocusChanged(bool),
    /// The selection was copied, or could not be.
    SelectionCopied { now_ms: u64 },
    SelectionCopyFailed,
    ConnectionStage(String),
    CloudModelsAvailable(Vec<AcpModelInfo>),
    AgentConnected {
        name: String,
        model: Option<String>,
        version: Option<String>,
        session_id: String,
        available_models: Vec<AcpModelInfo>,
        current_model_id: Option<String>,
        load_session_supported: bool,
        image_supported: bool,
        /// The welcome was already shown in an earlier run.
        welcome_shown: bool,
    },
    SessionAttached {
        tab_id: String,
        session_id: String,
        available_models: Vec<AcpModelInfo>,
        current_model_id: Option<String>,
    },
    UsageReported { session_id: String, snapshot: UsageSnapshot },
    UsageCleared { session_id: String },
    ModelConfigUpdated {
        session_id: String,
        available_models: Vec<AcpModelInfo>,
        current_model_id: Option<String>,
    },
    ModelSetCompleted { session_id: String, model: String, pane_override: bool },
    ModelSetFailed { session_id: String, model: String, pane_override: bool, message: String },
    SessionConfigUpdated { session_id: String, options: Vec<AcpSessionConfigOption> },
    SessionConfigSetCompleted {
        session_id: String,
        config_id: String,
        value: String,
        model_compat: bool,
    },
    SessionConfigSetFailed { session_id: String, config_id: String, message: String },
    TabError { tab_id: String, message: String },
    TabSystemMessage { tab_id: String, message: String },
    AgentPasteTextReady { tab_id: String, generation: u64, text: String },
    AgentPasteTextFailed { tab_id: String, generation: u64 },
    PromptTemplateLoaded { name: String },
    PromptTargetResolved { tab_id: Option<String>, prompt_id: u64, pane_id: String },
    AgentError { session_id: Option<String>, failure: AgentFailure, message: String },
    AgentSoftStop { session_id: String, reason: SoftStopReason },
    AgentBusy { tab_id: String },
    TabRenamed { old_tab_id: String, new_tab_id: String, new_window_id: Option<String> },
    MasterDisconnected,
    ExecutionInfo(String),
    AgentThoughtChunk { session_id: String, text: String },
    AgentMessageChunk { session_id: String, text: String },
    UserMessageReplayChunk { session_id: String, text: String },
    AgentMessageEnd { session_id: String },
    TimingMetric { session_id: String, note: String },
    ToolCall { session_id: String, card: ToolCard },
    ToolCallUpdate { session_id: String, patch: ToolCallPatch },
    ToolTerminalOutput { session_id: String, news: TerminalOutput },
    HideToolCall { session_id: String, id: String },
    Plan { session_id: String, entries: Vec<PlanEntry> },
    PermissionRequest {
        session_id: String,
        tool_call_id: String,
        description: String,
        title: String,
        kind_label: Option<String>,
        target: Option<String>,
        target_is_command: bool,
        options: Vec<PermOption>,
        responder: u64,
    },
    UserInputRequest {
        request_id: String,
        session_id: String,
        request: UserInputRequest,
        responder: u64,
    },
    CancelUserInputRequest { request_id: String, session_id: String },
    SystemMessage(String),
    DebugPipeMessage(String),
    WtEvent(WtEvent),
    AgentInstallComplete,
    /// What was found after an installation ended.
    InstallChecked {
        agent_id: Option<String>,
        status: Option<AgentStatus>,
        profile: AgentProfile,
        options: Vec<SetupOption>,
    },
    LoginProgress { device_code: String, verify_url: String },
    LoginComplete { agent_id: String, success: bool, error: Option<String> },
    PostLoginAuthRecovery { tab_id: Option<String>, agent_id: String },
    AuthRecoveryTimedOut { agent_id: String, generation: u64 },
    /// What the sign-in screen needs to know of its agent.
    SignInPrepared { profile: AgentProfile, options: Vec<SetupOption> },
    AgentSourcesDiscovered {
        generation: u64,
        host_agents: Vec<AvailableAgent>,
        wsl_sources: Vec<AvailableAgent>,
    },
    PreflightComplete(PreflightResult),
    /// What the set-up screen needs to know, for a check that failed.
    SetupPrepared { result: PreflightResult, can_auto_install: bool, options: Vec<SetupOption> },
    AgentSessionEvent(SessionEvent<String>),
    AliveSnapshotLoaded(Vec<AliveSession>),
    AliveSessionAdded(AliveSession),
    AliveSessionRemoved(String),
    AliveJoinUpgrade(Vec<AliveSession>),
    SessionsChanged,
    DirectTerminalActionProposal { ticket: u64 },
    DirectTerminalActionProposalCommit { proposal_id: String, ticket: u64 },
    /// Whether a proposal could be committed.
    ProposalCommitted { proposal_id: String, ticket: u64, committed: bool },
    DirectTerminalActionProposalInvalidate { proposal_id: String, session_id: String },
    AgentsSnapshotLoaded { request_id: u64, ticket: u64 },
    AgentsSnapshotFailed { request_id: u64 },
    RegisterBornBoundSession { event: SessionEvent<String> },
    MasterMutationCompleted { request_id: u64 },
}

} // verus!
