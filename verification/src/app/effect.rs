//! What the pane asks the world around it to do.

use vstd::prelude::*;

use crate::json::{Json, JsonView};
use crate::tab::{AutofixBarSnapshot, BarView};
use crate::text::opt_view;
use crate::transcript::copy_text;

verus! {

/// A key that was pressed.
#[derive(Clone, Copy, Debug, PartialEq, Eq, Structural)]
pub enum KeyCode {
    Char(char),
    Up,
    Down,
    /// Any other key, by its number.
    Other(u32),
}

/// The keys held down beside it.
#[derive(Clone, Copy, Debug, PartialEq, Eq, Structural)]
pub struct KeyModifiers {
    pub control: bool,
    pub alt: bool,
    pub shift: bool,
}

/// A key with the keys held down beside it.
#[derive(Clone, Copy, Debug, PartialEq, Eq, Structural)]
pub struct KeyEvent {
    pub code: KeyCode,
    pub modifiers: KeyModifiers,
}

/// What a piece of the agent's answer is.
#[derive(Clone, Copy, Debug, PartialEq, Eq, Structural)]
pub enum ChunkKind {
    Thought,
    Message,
}

/// An agent, or the one that is used where none is named.
pub enum AgentChoice<T> {
    Named(T),
    Copilot,
}

/// Something that happened to a session in a pane.
pub enum SessionEvent<T> {
    PaneClosed { pane_session_id: T },
    ConnectionFailed { pane_session_id: T, reason: T },
    /// Anything else, as text that is handed through.
    Other { payload: T },
}

/// A session that is alive, and the pane it runs in.
pub struct AliveSession {
    pub session_id: String,
    pub pane_session_id: Option<String>,
    /// All that is known of it, as text that is handed through.
    pub record: String,
}

impl Clone for AliveSession {
    fn clone(&self) -> (r: Self)
        ensures
            r == *self,
    {
        AliveSession {
            session_id: self.session_id.clone(),
            pane_session_id: copy_text(&self.pane_session_id),
            record: self.record.clone(),
        }
    }
}

/// A copy of a list of sessions.
pub fn copy_sessions(v: &Vec<AliveSession>) -> (r: Vec<AliveSession>)
    ensures
        r@ == v@,
{
    let mut out: Vec<AliveSession> = Vec::new();
    let mut i: usize = 0;
    while i < v.len()
        invariant
            i <= v.len(),
            out@ == v@.take(i as int),
        decreases v.len() - i,
    {
        out.push(v[i].clone());
        i += 1;
    }
    out
}

/// How much an event of the terminal matters.
#[derive(Clone, Copy, Debug, PartialEq, Eq, Structural)]
pub enum WtEventSeverity {
    Critical,
    Actionable,
    Informational,
}

/// What is told of an event of the terminal.
pub struct WtNotification {
    pub severity: WtEventSeverity,
    pub summary: String,
    pub pane_id: String,
    pub tab_id: Option<String>,
    pub acknowledged: bool,
    pub age_ticks: u32,
    /// The age at which it goes away by itself.
    pub dismiss_at: Option<u32>,
}

impl Clone for WtNotification {
    fn clone(&self) -> (r: Self)
        ensures
            r == *self,
    {
        WtNotification {
            severity: self.severity,
            summary: self.summary.clone(),
            pane_id: self.pane_id.clone(),
            tab_id: copy_text(&self.tab_id),
            acknowledged: self.acknowledged,
            age_ticks: self.age_ticks,
            dismiss_at: self.dismiss_at,
        }
    }
}

/// A request to the world, over texts of type `T`, JSON documents of type `J`,
/// bars of type `B` and lists of sessions of type `S`.
pub enum EffectOf<T, J, B, S> {
    /// Publish an event to the terminal.
    Send(J),
    /// Show the bar at the bottom for a tab.
    SendBar { tab_id: T, bar: B },
    /// Copy text that is selected on screen.
    CopySelection(T),
    /// Copy text to the clipboard.
    CopyText(T),
    HandleKey(KeyEvent),
    AdvanceReveal,
    InsertPasteText { tab_id: T, generation: u64, text: T },
    SetSessionModel { session_id: T, model: T, pane_override: bool },
    SetConfigOption { session_id: T, config_id: T, value: T },
    /// Start the agent and all that is around it anew.
    RestartStack,
    ApplyPromptTarget { tab_id: Option<T>, prompt_id: u64, pane_id: T },
    RenameTab { old_tab_id: T, new_tab_id: T, new_window_id: Option<T> },
    /// Find out what the sign-in screen needs to know of an agent.
    PrepareSignIn { agent: AgentChoice<T>, check_agent: bool },
    /// Find out what the set-up screen needs to know.
    PrepareSetup { agent_id: T, check_agent: bool },
    /// Find out whether an agent is installed by now.
    CheckInstall { agent_id: Option<T> },
    ShowCopilotAuth,
    StartAuthRecoveryTimer { agent: AgentChoice<T>, generation: u64 },
    PushExecutionInfo(T),
    SummarizeLatency { session_id: T },
    ObserveChunk { session_id: T, kind: ChunkKind, text: T },
    CloseTurn { session_id: T },
    CancelTurn { session_id: T },
    /// Turn the messages of a replay into turns that are over.
    PackReplay { tab_id: T },
    ClearRecommendations { tab_id: T },
    ApplySessionEvent(SessionEvent<T>),
    PublishSessionHook(SessionEvent<T>),
    /// Record an event of an agent's hooks.
    RouteAgentEvent { pane_id: T, params: Json },
    /// Hand the sessions back to the pane, to be marked as alive.
    PostAliveJoin(S),
    /// Mark sessions as alive.
    JoinAliveSessions(S),
    /// Mark a session as ended.
    EndSession { session_id: T },
    /// Take over the list of sessions that are alive.
    LoadAliveSnapshot(S),
    UpsertAliveSession(AliveSession),
    RemoveAliveSession { session_id: T },
    RefetchAgents,
    /// Judge a proposal; the ticket says which, and whom to answer.
    EvaluateProposal { ticket: u64 },
    CommitProposal { proposal_id: T, ticket: u64 },
    /// Mark a proposal as cancelled for good.
    CancelProposal { proposal_id: T },
    AnswerCommit { ticket: u64, committed: bool },
    /// Answer a request of the agent with a denial: nobody else will.
    DenyRequest { responder: u64 },
    InvalidateProposal { proposal_id: T, session_id: T },
    /// Take over a list of sessions; the ticket says which.
    ApplyAgentsSnapshot { request_id: u64, ticket: u64 },
    FailAgentsSnapshot { request_id: u64 },
    RegisterBornBound(SessionEvent<T>),
    ExecuteAutofix { pane_id: T },
    ExecuteDetectedAutofix,
    DelegatePrompt { prompt: T },
    PasteText(Json),
    ApplyDelegateConfig { agent: T, model: T },
    ApplyGlobalModel { agent_id: T, model: T },
    SwitchTab { tab_id: T },
    RequestTabClose { tab_id: T },
    DropTab { tab_id: T },
    ResetTab { tab_id: T },
    LoadSession { tab_id: T, session_id: T, cwd: Option<T> },
    MarkWelcomeShown,
    OpenAgentsView { tab_id: T },
    CloseAgentsView { tab_id: T },
    AutofixResult { tab_id: T, pane_id: T },
    AutofixCleared { tab_id: T },
    TriggerAutofix(WtNotification),
    LogErrorDetected { critical: bool, method: T, pane_id: T },
    LogFixResolved { pane_id: T, armed_at: u64 },
    UpdateDeferredAgent { agent_id: T },
    DeferAgentStart { agent_id: T },
    NewSession { tab_id: T },
    SubmitAutofix { tab_id: T },
    SwitchAgent { agent_id: T },
    SetTransportAvailable,
}

/// A request to the world.
pub type Effect = EffectOf<String, Json, AutofixBarSnapshot, Vec<AliveSession>>;

/// A request to the world, mathematically.
pub type EffectView = EffectOf<Seq<char>, JsonView, BarView, Seq<AliveSession>>;

/// An agent, mathematically.
pub open spec fn choice_view(a: AgentChoice<String>) -> AgentChoice<Seq<char>> {
    match a {
        AgentChoice::Named(s) => AgentChoice::Named(s@),
        AgentChoice::Copilot => AgentChoice::Copilot,
    }
}

/// A session event, mathematically.
pub open spec fn session_event_view(e: SessionEvent<String>) -> SessionEvent<Seq<char>> {
    match e {
        SessionEvent::PaneClosed { pane_session_id } => SessionEvent::PaneClosed {
            pane_session_id: pane_session_id@,
        },
        SessionEvent::ConnectionFailed { pane_session_id, reason } =>
            SessionEvent::ConnectionFailed { pane_session_id: pane_session_id@, reason: reason@ },
        SessionEvent::Other { payload } => SessionEvent::Other { payload: payload@ },
    }
}

impl AgentChoice<String> {
    /// The id of the agent.
    pub fn id(&self) -> (r: String)
        ensures
            r@ == agent_id_of(choice_view(*self)),
    {
        match self {
            AgentChoice::Named(s) => s.clone(),
            AgentChoice::Copilot => "copilot".to_owned(),
        }
    }
}

/// The id of an agent.
pub open spec fn agent_id_of(a: AgentChoice<Seq<char>>) -> Seq<char> {
    match a {
        AgentChoice::Named(s) => s,
        AgentChoice::Copilot => "copilot"@,
    }
}

impl View for EffectOf<String, Json, AutofixBarSnapshot, Vec<AliveSession>> {
    type V = EffectView;

    open spec fn view(&self) -> EffectView {
        match *self {
            EffectOf::Send(j) => EffectOf::Send(j@),
            EffectOf::SendBar { tab_id, bar } => EffectOf::SendBar { tab_id: tab_id@, bar: bar@ },
            EffectOf::CopySelection(s) => EffectOf::CopySelection(s@),
            EffectOf::CopyText(s) => EffectOf::CopyText(s@),
            EffectOf::HandleKey(k) => EffectOf::HandleKey(k),
            EffectOf::AdvanceReveal => EffectOf::AdvanceReveal,
            EffectOf::InsertPasteText { tab_id, generation, text } => EffectOf::InsertPasteText {
                tab_id: tab_id@,
                generation,
                text: text@,
            },
            EffectOf::SetSessionModel { session_id, model, pane_override } =>
                EffectOf::SetSessionModel { session_id: session_id@, model: model@, pane_override },
            EffectOf::SetConfigOption { session_id, config_id, value } =>
                EffectOf::SetConfigOption {
                session_id: session_id@,
                config_id: config_id@,
                value: value@,
            },
            EffectOf::RestartStack => EffectOf::RestartStack,
            EffectOf::ApplyPromptTarget { tab_id, prompt_id, pane_id } =>
                EffectOf::ApplyPromptTarget {
                tab_id: opt_view(tab_id),
                prompt_id,
                pane_id: pane_id@,
            },
            EffectOf::RenameTab { old_tab_id, new_tab_id, new_window_id } => EffectOf::RenameTab {
                old_tab_id: old_tab_id@,
                new_tab_id: new_tab_id@,
                new_window_id: opt_view(new_window_id),
            },
            EffectOf::PrepareSignIn { agent, check_agent } => EffectOf::PrepareSignIn {
                agent: choice_view(agent),
                check_agent,
            },
            EffectOf::PrepareSetup { agent_id, check_agent } => EffectOf::PrepareSetup {
                agent_id: agent_id@,
                check_agent,
            },
            EffectOf::CheckInstall { agent_id } => EffectOf::CheckInstall {
                agent_id: opt_view(agent_id),
            },
            EffectOf::ShowCopilotAuth => EffectOf::ShowCopilotAuth,
            EffectOf::StartAuthRecoveryTimer { agent, generation } =>
                EffectOf::StartAuthRecoveryTimer { agent: choice_view(agent), generation },
            EffectOf::PushExecutionInfo(s) => EffectOf::PushExecutionInfo(s@),
            EffectOf::SummarizeLatency { session_id } => EffectOf::SummarizeLatency {
                session_id: session_id@,
            },
            EffectOf::ObserveChunk { session_id, kind, text } => EffectOf::ObserveChunk {
                session_id: session_id@,
                kind,
                text: text@,
            },
            EffectOf::CloseTurn { session_id } => EffectOf::CloseTurn { session_id: session_id@ },
            EffectOf::CancelTurn { session_id } => EffectOf::CancelTurn { session_id: session_id@ },
            EffectOf::PackReplay { tab_id } => EffectOf::PackReplay { tab_id: tab_id@ },
            EffectOf::ClearRecommendations { tab_id } => EffectOf::ClearRecommendations {
                tab_id: tab_id@,
            },
            EffectOf::ApplySessionEvent(e) => EffectOf::ApplySessionEvent(session_event_view(e)),
            EffectOf::PublishSessionHook(e) => EffectOf::PublishSessionHook(session_event_view(e)),
            EffectOf::RouteAgentEvent { pane_id, params } => EffectOf::RouteAgentEvent {
                pane_id: pane_id@,
                params,
            },
            EffectOf::PostAliveJoin(v) => EffectOf::PostAliveJoin(v@),
            EffectOf::JoinAliveSessions(v) => EffectOf::JoinAliveSessions(v@),
            EffectOf::EndSession { session_id } => EffectOf::EndSession { session_id: session_id@ },
            EffectOf::LoadAliveSnapshot(v) => EffectOf::LoadAliveSnapshot(v@),
            EffectOf::UpsertAliveSession(s) => EffectOf::UpsertAliveSession(s),
            EffectOf::RemoveAliveSession { session_id } => EffectOf::RemoveAliveSession {
                session_id: session_id@,
            },
            EffectOf::RefetchAgents => EffectOf::RefetchAgents,
            EffectOf::EvaluateProposal { ticket } => EffectOf::EvaluateProposal { ticket },
            EffectOf::CommitProposal { proposal_id, ticket } => EffectOf::CommitProposal {
                proposal_id: proposal_id@,
                ticket,
            },
            EffectOf::CancelProposal { proposal_id } => EffectOf::CancelProposal {
                proposal_id: proposal_id@,
            },
            EffectOf::AnswerCommit { ticket, committed } => EffectOf::AnswerCommit {
                ticket,
                committed,
            },
            EffectOf::DenyRequest { responder } => EffectOf::DenyRequest { responder },
            EffectOf::InvalidateProposal { proposal_id, session_id } =>
                EffectOf::InvalidateProposal { proposal_id: proposal_id@, session_id: session_id@ },
            EffectOf::ApplyAgentsSnapshot { request_id, ticket } => EffectOf::ApplyAgentsSnapshot {
                request_id,
                ticket,
            },
            EffectOf::FailAgentsSnapshot { request_id } => EffectOf::FailAgentsSnapshot {
                request_id,
            },
            EffectOf::RegisterBornBound(e) => EffectOf::RegisterBornBound(session_event_view(e)),
            EffectOf::ExecuteAutofix { pane_id } => EffectOf::ExecuteAutofix { pane_id: pane_id@ },
            EffectOf::ExecuteDetectedAutofix => EffectOf::ExecuteDetectedAutofix,
            EffectOf::DelegatePrompt { prompt } => EffectOf::DelegatePrompt { prompt: prompt@ },
            EffectOf::PasteText(params) => EffectOf::PasteText(params),
            EffectOf::ApplyDelegateConfig { agent, model } => EffectOf::ApplyDelegateConfig {
                agent: agent@,
                model: model@,
            },
            EffectOf::ApplyGlobalModel { agent_id, model } => EffectOf::ApplyGlobalModel {
                agent_id: agent_id@,
                model: model@,
            },
            EffectOf::SwitchTab { tab_id } => EffectOf::SwitchTab { tab_id: tab_id@ },
            EffectOf::RequestTabClose { tab_id } => EffectOf::RequestTabClose { tab_id: tab_id@ },
            EffectOf::DropTab { tab_id } => EffectOf::DropTab { tab_id: tab_id@ },
            EffectOf::ResetTab { tab_id } => EffectOf::ResetTab { tab_id: tab_id@ },
            EffectOf::LoadSession { tab_id, session_id, cwd } => EffectOf::LoadSession {
                tab_id: tab_id@,
                session_id: session_id@,
                cwd: opt_view(cwd),
            },
            EffectOf::MarkWelcomeShown => EffectOf::MarkWelcomeShown,
            EffectOf::OpenAgentsView { tab_id } => EffectOf::OpenAgentsView { tab_id: tab_id@ },
            EffectOf::CloseAgentsView { tab_id } => EffectOf::CloseAgentsView { tab_id: tab_id@ },
            EffectOf::AutofixResult { tab_id, pane_id } => EffectOf::AutofixResult {
                tab_id: tab_id@,
                pane_id: pane_id@,
            },
            EffectOf::AutofixCleared { tab_id } => EffectOf::AutofixCleared { tab_id: tab_id@ },
            EffectOf::TriggerAutofix(n) => EffectOf::TriggerAutofix(n),
            EffectOf::LogErrorDetected { critical, method, pane_id } => EffectOf::LogErrorDetected {
                critical,
                method: method@,
                pane_id: pane_id@,
            },
            EffectOf::LogFixResolved { pane_id, armed_at } => EffectOf::LogFixResolved {
                pane_id: pane_id@,
                armed_at,
            },
            EffectOf::UpdateDeferredAgent { agent_id } => EffectOf::UpdateDeferredAgent {
                agent_id: agent_id@,
            },
            EffectOf::DeferAgentStart { agent_id } => EffectOf::DeferAgentStart {
                agent_id: agent_id@,
            },
            EffectOf::NewSession { tab_id } => EffectOf::NewSession { tab_id: tab_id@ },
            EffectOf::SubmitAutofix { tab_id } => EffectOf::SubmitAutofix { tab_id: tab_id@ },
            EffectOf::SwitchAgent { agent_id } => EffectOf::SwitchAgent { agent_id: agent_id@ },
            EffectOf::SetTransportAvailable => EffectOf::SetTransportAvailable,
        }
    }
}

/// Requests, mathematically.
pub open spec fn effects_view(v: Seq<Effect>) -> Seq<EffectView> {
    v.map_values(|e: Effect| e@)
}

// ---------------------------------------------------------------------------
// Laws
// ---------------------------------------------------------------------------

/// An agent that was not named is the one that is always there.
pub proof fn law_an_unnamed_agent_is_copilot(id: Seq<char>)
    ensures
        agent_id_of(AgentChoice::Named(id)) == id,
        agent_id_of(AgentChoice::Copilot) == "copilot"@,
{
}

/// What is asked of the world is seen as it is asked, each part in its own place.
pub proof fn law_effects_are_seen_as_they_are(a: String, b: String, c: String, d: Option<String>, n: u64, yes: bool)
    ensures
        (Effect::RenameTab { old_tab_id: a, new_tab_id: b, new_window_id: d })@ == (
        EffectView::RenameTab { old_tab_id: a@, new_tab_id: b@, new_window_id: opt_view(d) }),
        (Effect::LoadSession { tab_id: a, session_id: b, cwd: d })@ == (EffectView::LoadSession {
            tab_id: a@,
            session_id: b@,
            cwd: opt_view(d),
        }),
        (Effect::InsertPasteText { tab_id: a, generation: n, text: b })@ == (
        EffectView::InsertPasteText { tab_id: a@, generation: n, text: b@ }),
        (Effect::SetSessionModel { session_id: a, model: b, pane_override: yes })@ == (
        EffectView::SetSessionModel { session_id: a@, model: b@, pane_override: yes }),
        (Effect::SetConfigOption { session_id: a, config_id: b, value: c })@ == (
        EffectView::SetConfigOption { session_id: a@, config_id: b@, value: c@ }),
        (Effect::ApplyDelegateConfig { agent: a, model: b })@ == (EffectView::ApplyDelegateConfig {
            agent: a@,
            model: b@,
        }),
        (Effect::ApplyGlobalModel { agent_id: a, model: b })@ == (EffectView::ApplyGlobalModel {
            agent_id: a@,
            model: b@,
        }),
        (Effect::AutofixResult { tab_id: a, pane_id: b })@ == (EffectView::AutofixResult {
            tab_id: a@,
            pane_id: b@,
        }),
        (Effect::LogErrorDetected { critical: yes, method: a, pane_id: b })@ == (
        EffectView::LogErrorDetected { critical: yes, method: a@, pane_id: b@ }),
        (Effect::InvalidateProposal { proposal_id: a, session_id: b })@ == (
        EffectView::InvalidateProposal { proposal_id: a@, session_id: b@ }),
        (Effect::ApplyPromptTarget { tab_id: d, prompt_id: n, pane_id: a })@ == (
        EffectView::ApplyPromptTarget { tab_id: opt_view(d), prompt_id: n, pane_id: a@ }),
{
}

} // verus!
