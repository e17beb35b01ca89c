//! Which event does what.

use vstd::prelude::*;
use vstd::string::*;

use crate::app::connection::{attached, connected, introduced};
use crate::app::conversation::{notice, stop_phrase};
use crate::app::effect::{
    copy_sessions, session_event_view, AliveSession, ChunkKind, EffectOf, SessionEvent,
    WtEventSeverity, WtNotification,
};
use crate::app::event::{AppEvent, SessionOrigin, SoftStopReason, WtEvent};
use crate::app::recovery::{missing_setup, sign_in_setup};
use crate::app::state::{
    options_view, App, AppView, ModelConfig, ModelConfigView, PaneSettings, ScreenView,
};
use crate::app::terminal::{differ, marks_prompt, or_empty};
use crate::json::{Json, JsonView};
use crate::models::models_view;
use crate::phrases::PhraseOf;
use crate::tab::{BarView, PermissionState, TabView, UserInputState, UserInputView};
use crate::text::{holds_text, is_empty_text, opt_view, same};
use crate::transcript::{ChatMessage, ChatMessageView, NoticeKind};

verus! {

// ---------------------------------------------------------------------------
// Events of other panes
// ---------------------------------------------------------------------------

impl AppView {
    /// The pane once a session event was recorded and passed on.
    pub open spec fn session_recorded(self, e: SessionEvent<Seq<char>>) -> AppView {
        self.asking(EffectOf::ApplySessionEvent(e)).asking(EffectOf::PublishSessionHook(e))
    }

    /// The pane after a change of another pane's connection.
    pub open spec fn connection_changed(self, pane_id: Seq<char>, params: JsonView) -> AppView {
        let state = params.text_or_empty("state"@);
        if state == "closed"@ {
            self.session_recorded(SessionEvent::PaneClosed { pane_session_id: pane_id })
        } else if state == "failed"@ {
            self.session_recorded(
                SessionEvent::ConnectionFailed {
                    pane_session_id: pane_id,
                    reason: match params.text_member("reason"@) {
                        Some(reason) => reason,
                        None => "connection failed"@,
                    },
                },
            )
        } else {
            self
        }
    }

    /// The pane after a mark of a shell: the prompt of a shell in which a
    /// session was started by hand means that the session is over.
    pub open spec fn shell_returned(
        self,
        pane_id: Seq<char>,
        seq: Seq<char>,
        origin: Option<SessionOrigin>,
    ) -> AppView {
        if marks_prompt(seq) && origin == Some(SessionOrigin::Unknown) {
            self.session_recorded(SessionEvent::PaneClosed { pane_session_id: pane_id })
        } else {
            self
        }
    }

    /// Whether a notification belongs to the tab of another pane.
    pub open spec fn foreign_notification(self, n: WtNotification) -> bool {
        differ(or_empty(opt_view(n.tab_id)), or_empty(self.ids.owner_tab_id))
    }

    /// The pane once a failure was counted.
    pub open spec fn failure_counted(
        self,
        n: WtNotification,
        method: Seq<char>,
        pane_id: Seq<char>,
    ) -> AppView {
        if n.acknowledged || n.severity == WtEventSeverity::Informational {
            self
        } else {
            self.asking(
                EffectOf::LogErrorDetected {
                    critical: n.severity == WtEventSeverity::Critical,
                    method,
                    pane_id,
                },
            )
        }
    }

    /// The pane after an event that tells of a failure, or of none.
    pub open spec fn event_surfaced(self, e: WtEvent) -> AppView {
        let is_mark = e.method@ == "vt_sequence"@;
        if e.notification.severity == WtEventSeverity::Informational {
            if is_mark {
                self.shell_marked(
                    opt_view(e.tab_id),
                    e.pane_id@,
                    e.params@.text_or_empty("sequence"@),
                )
            } else {
                self
            }
        } else {
            let s = AppView {
                screen: ScreenView { show_notification_banner: true, ..self.screen },
                ..self
            };
            if is_mark {
                s.asking(EffectOf::TriggerAutofix(e.notification))
            } else {
                s
            }
        }
    }

    /// The pane after an event of another pane.
    #[verifier::opaque]
    pub open spec fn pane_event(self, e: WtEvent) -> AppView {
        let s0 = if e.method@ == "connection_state"@ {
            self.connection_changed(e.pane_id@, e.params@)
        } else {
            self
        };
        let s1 = if e.method@ == "vt_sequence"@ {
            s0.shell_returned(
                e.pane_id@,
                e.params@.text_or_empty("sequence"@),
                e.pane_origin,
            )
        } else {
            s0
        };
        if s1.foreign_notification(e.notification) {
            s1
        } else {
            s1.failure_counted(e.notification, e.method@, e.pane_id@).event_surfaced(e).notified(
                e.notification,
            )
        }
    }

    /// The pane after an event of an agent's hooks.
    #[verifier::opaque]
    pub open spec fn hook_reported(self, e: WtEvent) -> AppView {
        let s = self.asking(EffectOf::RouteAgentEvent { pane_id: e.pane_id@, params: e.params });
        if s.settings.log_agent_events {
            s.with_current(s.current_tab().saying(ChatMessageView::AgentEvent(e.params@.written())))
        } else {
            s
        }
    }

    /// The pane after a prompt from the command palette.
    pub open spec fn prompt_delegated(self, params: JsonView) -> AppView {
        let prompt = params.text_or_empty("prompt"@);
        if prompt.len() > 0 {
            self.asking(EffectOf::DelegatePrompt { prompt })
        } else {
            self
        }
    }

    /// The pane after an event of the terminal. What is addressed to the pane
    /// by its method comes first; of the rest, events of the pane itself are
    /// skipped.
    #[verifier::opaque]
    pub open spec fn terminal_told(self, e: WtEvent) -> AppView {
        if e.method@ == "agent_event"@ {
            self.hook_reported(e)
        } else if e.method@ == "autofix_execute"@ {
            self.asking(EffectOf::ExecuteAutofix { pane_id: e.pane_id@ })
        } else if e.method@ == "autofix_dismiss_suggestion"@ {
            self.suggestion_dismissed(self.active_key())
        } else if e.method@ == "autofix_execute_from_detected"@ {
            self.asking(EffectOf::ExecuteDetectedAutofix)
        } else if e.method@ == "agent_prompt"@ {
            self.prompt_delegated(e.params@)
        } else if e.method@ == "agent_paste_text"@ {
            self.asking(EffectOf::PasteText(e.params))
        } else if e.method@ == "agent_config_changed"@ {
            self.configured(e.params@, e.cloud_models, e.custom_models)
        } else if e.method@ == "tab_changed"@ {
            self.tab_changed(e.params@)
        } else if e.method@ == "tab_closed"@ {
            self.tab_closed(e.params@)
        } else if e.method@ == "tab_renamed"@ {
            self.tab_renamed(e.params@)
        } else if e.method@ == "reset_tab_session"@ {
            self.tab_reset(e.params@)
        } else if e.method@ == "load_session"@ {
            self.session_load_asked(e.params@)
        } else if e.method@ == "set_agent_state"@ {
            self.state_set(e.params@)
        } else if self.ids.pane_id == Some(e.pane_id@) {
            self
        } else {
            self.pane_event(e)
        }
    }
}

fn copy_session_event(e: &SessionEvent<String>) -> (r: SessionEvent<String>)
    ensures
        session_event_view(r) == session_event_view(*e),
{
    match e {
        SessionEvent::PaneClosed { pane_session_id } => SessionEvent::PaneClosed {
            pane_session_id: pane_session_id.clone(),
        },
        SessionEvent::ConnectionFailed { pane_session_id, reason } =>
            SessionEvent::ConnectionFailed {
            pane_session_id: pane_session_id.clone(),
            reason: reason.clone(),
        },
        SessionEvent::Other { payload } => SessionEvent::Other { payload: payload.clone() },
    }
}

impl App {
    fn record_session(&mut self, e: SessionEvent<String>)
        ensures
            final(self)@ == old(self)@.session_recorded(session_event_view(e)),
    {
        let hook = copy_session_event(&e);
        self.ask(EffectOf::ApplySessionEvent(e));
        self.ask(EffectOf::PublishSessionHook(hook));
    }

    fn on_connection_changed(&mut self, pane_id: &str, params: &Json)
        ensures
            final(self)@ == old(self)@.connection_changed(pane_id@, params@),
    {
        let state = params.text_or_empty("state");
        if same(state.as_str(), "closed") {
            self.record_session(SessionEvent::PaneClosed { pane_session_id: pane_id.to_owned() });
        } else if same(state.as_str(), "failed") {
            let reason = match params.text_member("reason") {
                Some(reason) => reason,
                None => "connection failed".to_owned(),
            };
            self.record_session(
                SessionEvent::ConnectionFailed { pane_session_id: pane_id.to_owned(), reason },
            );
        }
    }

    fn on_shell_returned(&mut self, pane_id: &str, seq: &str, origin: Option<SessionOrigin>)
        ensures
            final(self)@ == old(self)@.shell_returned(pane_id@, seq@, origin),
    {
        let by_hand = match origin {
            Some(SessionOrigin::Unknown) => true,
            _ => false,
        };
        if by_hand && same(seq, "osc:133;A") {
            self.record_session(SessionEvent::PaneClosed { pane_session_id: pane_id.to_owned() });
        }
    }

    fn is_foreign_notification(&self, n: &WtNotification) -> (r: bool)
        ensures
            r == self@.foreign_notification(*n),
    {
        match (&n.tab_id, &self.ids.owner_tab_id) {
            (Some(a), Some(b)) => !is_empty_text(a.as_str()) && !is_empty_text(b.as_str()) && !same(
                a.as_str(),
                b.as_str(),
            ),
            _ => false,
        }
    }

    fn count_failure(&mut self, n: &WtNotification, method: &str, pane_id: &str)
        ensures
            final(self)@ == old(self)@.failure_counted(*n, method@, pane_id@),
    {
        if !n.acknowledged && n.severity != WtEventSeverity::Informational {
            self.ask(
                EffectOf::LogErrorDetected {
                    critical: n.severity == WtEventSeverity::Critical,
                    method: method.to_owned(),
                    pane_id: pane_id.to_owned(),
                },
            );
        }
    }

    fn surface_event(&mut self, e: &WtEvent)
        ensures
            final(self)@ == old(self)@.event_surfaced(*e),
    {
        let is_mark = same(e.method.as_str(), "vt_sequence");
        if e.notification.severity == WtEventSeverity::Informational {
            if is_mark {
                let seq = e.params.text_or_empty("sequence");
                self.on_shell_mark(&e.tab_id, e.pane_id.as_str(), seq.as_str());
            }
        } else {
            self.screen.show_notification_banner = true;
            if is_mark {
                self.ask(EffectOf::TriggerAutofix(e.notification.clone()));
            }
        }
    }

    fn on_pane_event(&mut self, e: WtEvent)
        ensures
            final(self)@ == old(self)@.pane_event(e),
    {
        proof {
            reveal(AppView::pane_event);
        }
        if same(e.method.as_str(), "connection_state") {
            self.on_connection_changed(e.pane_id.as_str(), &e.params);
        }
        if same(e.method.as_str(), "vt_sequence") {
            let seq = e.params.text_or_empty("sequence");
            self.on_shell_returned(e.pane_id.as_str(), seq.as_str(), e.pane_origin);
        }
        if self.is_foreign_notification(&e.notification) {
            return;
        }
        self.count_failure(&e.notification, e.method.as_str(), e.pane_id.as_str());
        self.surface_event(&e);
        self.queue_notification(e.notification);
    }

    fn on_hook_event(&mut self, e: WtEvent)
        ensures
            final(self)@ == old(self)@.hook_reported(e),
    {
        proof {
            reveal(AppView::hook_reported);
        }
        let detail = if self.settings.log_agent_events {
            Some(e.params.to_text())
        } else {
            None
        };
        self.ask(EffectOf::RouteAgentEvent { pane_id: e.pane_id, params: e.params });
        if let Some(detail) = detail {
            let tab = self.current_tab_mut();
            tab.say(ChatMessage::AgentEvent(detail));
        }
    }

    fn on_agent_prompt(&mut self, params: &Json)
        ensures
            final(self)@ == old(self)@.prompt_delegated(params@),
    {
        let prompt = params.text_or_empty("prompt");
        if !is_empty_text(prompt.as_str()) {
            self.ask(EffectOf::DelegatePrompt { prompt });
        }
    }

    /// The terminal tells something.
    pub fn on_wt_event(&mut self, e: WtEvent)
        ensures
            final(self)@ == old(self)@.terminal_told(e),
    {
        proof {
            reveal(AppView::terminal_told);
        }
        let method = e.method.as_str();
        if same(method, "agent_event") {
            self.on_hook_event(e);
        } else if same(method, "autofix_execute") {
            self.ask(EffectOf::ExecuteAutofix { pane_id: e.pane_id });
        } else if same(method, "autofix_dismiss_suggestion") {
            let active = self.active_tab_key();
            self.dismiss_suggestion(active.as_str());
        } else if same(method, "autofix_execute_from_detected") {
            self.ask(EffectOf::ExecuteDetectedAutofix);
        } else if same(method, "agent_prompt") {
            self.on_agent_prompt(&e.params);
        } else if same(method, "agent_paste_text") {
            self.ask(EffectOf::PasteText(e.params));
        } else if same(method, "agent_config_changed") {
            self.configure(&e.params, e.cloud_models, e.custom_models);
        } else if same(method, "tab_changed") {
            self.on_tab_changed(&e.params);
        } else if same(method, "tab_closed") {
            self.on_tab_closed(&e.params);
        } else if same(method, "tab_renamed") {
            self.on_tab_renamed(&e.params);
        } else if same(method, "reset_tab_session") {
            self.on_tab_reset(&e.params);
        } else if same(method, "load_session") {
            self.on_load_session(&e.params);
        } else if same(method, "set_agent_state") {
            self.on_set_agent_state(&e.params);
        } else if holds_text(&self.ids.pane_id, e.pane_id.as_str()) {
        } else {
            self.on_pane_event(e);
        }
    }
}

// ---------------------------------------------------------------------------
// All events
// ---------------------------------------------------------------------------

/// A session's models as an event gives them.
pub open spec fn given_config(
    models: Vec<crate::models::AcpModelInfo>,
    current: Option<String>,
) -> ModelConfigView {
    ModelConfigView { models: models_view(models@), current: opt_view(current) }
}

impl AppView {
    /// The pane after an event.
    pub open spec fn after(self, event: AppEvent) -> AppView {
        match event {
            AppEvent::Key(key) => self.key_pressed(key),
            AppEvent::Mouse(m) => self.mouse_moved(m),
            AppEvent::Tick => self.ticked(),
            AppEvent::RevealTick => self.asking(EffectOf::AdvanceReveal),
            AppEvent::Resize(cols, rows) => self.resized(cols, rows),
            AppEvent::FocusChanged(focused) => self.focused(focused),
            AppEvent::SelectionCopied { now_ms } => self.selection_copied(now_ms),
            AppEvent::SelectionCopyFailed => self.selection_copy_failed(),
            AppEvent::ConnectionStage(stage) => self.connecting(stage),
            AppEvent::CloudModelsAvailable(models) => self.cloud_models_known(models_view(models@)),
            AppEvent::AgentConnected {
                name,
                model,
                version,
                session_id,
                available_models,
                current_model_id,
                load_session_supported,
                image_supported,
                welcome_shown,
            } => connected(
                self,
                introduced(
                    self.agent,
                    name@,
                    opt_view(model),
                    opt_view(version),
                    load_session_supported,
                    image_supported,
                ),
                session_id@,
                given_config(available_models, current_model_id),
                welcome_shown,
            ),
            AppEvent::SessionAttached { tab_id, session_id, available_models, current_model_id } =>
                attached(
                self,
                tab_id@,
                session_id@,
                given_config(available_models, current_model_id),
            ),
            AppEvent::UsageReported { session_id, snapshot } => self.usage_reported(
                session_id@,
                snapshot,
            ),
            AppEvent::UsageCleared { session_id } => self.usage_cleared(session_id@),
            AppEvent::ModelConfigUpdated { session_id, available_models, current_model_id } =>
                self.model_config_updated(
                session_id@,
                given_config(available_models, current_model_id),
            ),
            AppEvent::ModelSetCompleted { session_id, model, pane_override } => self.model_set(
                session_id@,
                model@,
                pane_override,
            ),
            AppEvent::ModelSetFailed { session_id, model, pane_override, message } =>
                self.model_set_failed(session_id@, model@, pane_override, message@),
            AppEvent::SessionConfigUpdated { session_id, options } => self.options_updated(
                session_id@,
                options_view(options@),
            ),
            AppEvent::SessionConfigSetCompleted { session_id, config_id, value, model_compat } =>
                self.option_set(session_id@, config_id@, value@, model_compat),
            AppEvent::SessionConfigSetFailed { session_id, config_id, message } =>
                self.option_set_failed(session_id@, config_id@, message@),
            AppEvent::TabError { tab_id, message } => self.tab_failed(tab_id@, message@),
            AppEvent::TabSystemMessage { tab_id, message } => self.noticed(
                tab_id@,
                notice(NoticeKind::Info, PhraseOf::Text(message@)),
            ),
            AppEvent::AgentPasteTextReady { tab_id, generation, text } => self.asking(
                EffectOf::InsertPasteText { tab_id: tab_id@, generation, text: text@ },
            ),
            AppEvent::AgentPasteTextFailed { tab_id, generation } => if self.tabs.contains_key(
                tab_id@,
            ) && self.tab(tab_id@).paste_generation == generation {
                self.with_tab(tab_id@, TabView { paste_pending: false, ..self.tab(tab_id@) })
            } else {
                self
            },
            AppEvent::PromptTemplateLoaded { name } => AppView {
                settings: PaneSettings { prompt_name: Some(name), ..self.settings },
                ..self
            },
            AppEvent::PromptTargetResolved { tab_id, prompt_id, pane_id } => self.asking(
                EffectOf::ApplyPromptTarget {
                    tab_id: opt_view(tab_id),
                    prompt_id,
                    pane_id: pane_id@,
                },
            ),
            AppEvent::AgentError { session_id, failure, message } => self.agent_failed(
                opt_view(session_id),
                failure,
                message,
            ),
            AppEvent::AgentSoftStop { session_id, reason } => self.noticed(
                self.session_tab_key(session_id@),
                ChatMessageView::System(stop_phrase(reason)),
            ),
            AppEvent::AgentBusy { tab_id } => self.noticed(
                tab_id@,
                notice(NoticeKind::Warning, PhraseOf::AgentBusy),
            ),
            AppEvent::TabRenamed { old_tab_id, new_tab_id, new_window_id } => self.asking(
                EffectOf::RenameTab {
                    old_tab_id: old_tab_id@,
                    new_tab_id: new_tab_id@,
                    new_window_id: opt_view(new_window_id),
                },
            ),
            AppEvent::MasterDisconnected => AppView {
                screen: ScreenView { should_quit: true, ..self.screen },
                ..self
            },
            AppEvent::ExecutionInfo(message) => {
                let s = self.asking(EffectOf::PushExecutionInfo(message@));
                s.with_current(s.current_tab().at_bottom())
            },
            AppEvent::AgentThoughtChunk { session_id, text } => self.asking(
                EffectOf::ObserveChunk {
                    session_id: session_id@,
                    kind: ChunkKind::Thought,
                    text: text@,
                },
            ),
            AppEvent::AgentMessageChunk { session_id, text } => self.agent_said(
                session_id@,
                text@,
            ),
            AppEvent::UserMessageReplayChunk { session_id, text } => self.user_replayed(
                session_id@,
                text@,
            ),
            AppEvent::AgentMessageEnd { session_id } => self.answer_ended(session_id@),
            AppEvent::TimingMetric { session_id, note } => self.with_session_tab(
                session_id@,
                TabView { timing_note: Some(note@), ..self.session_tab(session_id@) },
            ),
            AppEvent::ToolCall { session_id, card } => self.card_added(
                session_id@,
                ChatMessageView::ToolCall(card@),
            ),
            AppEvent::ToolCallUpdate { session_id, patch } => self.card_patched(session_id@, patch),
            AppEvent::ToolTerminalOutput { session_id, news } => self.terminal_updated(
                session_id@,
                news,
            ),
            AppEvent::HideToolCall { session_id, id } => self.card_hidden(session_id@, id@),
            AppEvent::Plan { session_id, entries } => self.card_added(
                session_id@,
                ChatMessageView::Plan(entries@),
            ),
            AppEvent::PermissionRequest {
                session_id,
                tool_call_id,
                description,
                title,
                kind_label,
                target,
                target_is_command,
                options,
                responder,
            } => self.permission_asked(
                session_id@,
                PermissionState {
                    tool_call_id,
                    description,
                    title,
                    kind_label,
                    target,
                    target_is_command,
                    options,
                    selected: 0,
                    responder: Some(responder),
                },
            ),
            AppEvent::UserInputRequest { request_id, session_id, request, responder } =>
                self.user_asked(
                session_id@,
                UserInputView {
                    request_id: request_id@,
                    request,
                    selected: 0,
                    input: Seq::empty(),
                    responder: Some(responder),
                },
            ),
            AppEvent::CancelUserInputRequest { request_id, session_id } => self.question_cancelled(
                session_id@,
                request_id@,
            ),
            AppEvent::SystemMessage(message) => self.noticed(
                self.active_key(),
                notice(NoticeKind::Error, PhraseOf::Text(message@)),
            ),
            AppEvent::DebugPipeMessage(message) => self.debug_noted(message),
            AppEvent::WtEvent(e) => self.terminal_told(e),
            AppEvent::AgentInstallComplete => self.asking(
                EffectOf::CheckInstall { agent_id: self.setup_agent() },
            ),
            AppEvent::InstallChecked { agent_id, status, profile, options } => self.install_checked(
                agent_id,
                status,
                profile,
                options,
            ),
            AppEvent::LoginProgress { device_code, verify_url } => self.login_progressed(
                device_code,
                verify_url,
            ),
            AppEvent::LoginComplete { agent_id, success, error } => self.login_completed(
                agent_id@,
                success,
                error,
            ),
            AppEvent::PostLoginAuthRecovery { tab_id, agent_id } => self.recovering(
                opt_view(tab_id),
                agent_id@,
            ),
            AppEvent::AuthRecoveryTimedOut { agent_id, generation } => self.recovery_timed_out(
                agent_id@,
                generation,
            ),
            AppEvent::SignInPrepared { profile, options } => self.with_setup(
                sign_in_setup(profile, options),
            ),
            AppEvent::AgentSourcesDiscovered { generation, host_agents, wsl_sources } =>
                self.agents_discovered(generation, host_agents@ + wsl_sources@),
            AppEvent::PreflightComplete(result) => self.preflight_done(result),
            AppEvent::SetupPrepared { result, can_auto_install, options } => self.with_setup(
                missing_setup(result, can_auto_install, options),
            ),
            AppEvent::AgentSessionEvent(e) => self.session_recorded(session_event_view(e)),
            AppEvent::AliveSnapshotLoaded(items) => self.asking(
                EffectOf::PostAliveJoin(items@),
            ).asking(EffectOf::LoadAliveSnapshot(items@)),
            AppEvent::AliveSessionAdded(info) => self.asking(
                EffectOf::JoinAliveSessions(seq![info]),
            ).asking(EffectOf::UpsertAliveSession(info)),
            AppEvent::AliveSessionRemoved(session_id) => self.asking(
                EffectOf::EndSession { session_id: session_id@ },
            ).asking(EffectOf::RemoveAliveSession { session_id: session_id@ }),
            AppEvent::AliveJoinUpgrade(items) => self.asking(EffectOf::JoinAliveSessions(items@)),
            AppEvent::SessionsChanged => self.asking(EffectOf::RefetchAgents),
            AppEvent::DirectTerminalActionProposal { ticket } => self.asking(
                EffectOf::EvaluateProposal { ticket },
            ),
            AppEvent::DirectTerminalActionProposalCommit { proposal_id, ticket } => self.asking(
                EffectOf::CommitProposal { proposal_id: proposal_id@, ticket },
            ),
            AppEvent::ProposalCommitted { proposal_id, ticket, committed } => {
                let s = if committed {
                    self
                } else {
                    self.asking(EffectOf::CancelProposal { proposal_id: proposal_id@ })
                };
                s.asking(EffectOf::AnswerCommit { ticket, committed })
            },
            AppEvent::DirectTerminalActionProposalInvalidate { proposal_id, session_id } =>
                self.asking(
                EffectOf::InvalidateProposal {
                    proposal_id: proposal_id@,
                    session_id: session_id@,
                },
            ),
            AppEvent::AgentsSnapshotLoaded { request_id, ticket } => self.asking(
                EffectOf::ApplyAgentsSnapshot { request_id, ticket },
            ),
            AppEvent::AgentsSnapshotFailed { request_id } => self.asking(
                EffectOf::FailAgentsSnapshot { request_id },
            ),
            AppEvent::RegisterBornBoundSession { event } => self.asking(
                EffectOf::RegisterBornBound(session_event_view(event)),
            ),
            AppEvent::MasterMutationCompleted { request_id } => self.asking(
                EffectOf::RefetchAgents,
            ),
        }
    }

    /// Whether an event can be taken: the turn that a click completes is still
    /// there.
    pub open spec fn accepts(self, event: AppEvent) -> bool {
        match event {
            AppEvent::Mouse(m) => self.clicked_turn_exists(m),
            _ => true,
        }
    }
}

impl App {
    /// Whether an event can be taken.
    pub fn can_handle(&self, event: &AppEvent) -> (r: bool)
        ensures
            r == self@.accepts(*event),
    {
        match event {
            AppEvent::Mouse(m) => self.clicked_turn_still_exists(m),
            _ => true,
        }
    }

    fn on_alive_snapshot(&mut self, items: Vec<AliveSession>)
        ensures
            final(self)@ == old(self)@.after(AppEvent::AliveSnapshotLoaded(items)),
    {
        self.ask(EffectOf::PostAliveJoin(copy_sessions(&items)));
        self.ask(EffectOf::LoadAliveSnapshot(items));
    }

    fn on_alive_session(&mut self, info: AliveSession)
        ensures
            final(self)@ == old(self)@.after(AppEvent::AliveSessionAdded(info)),
    {
        let mut joined: Vec<AliveSession> = Vec::new();
        joined.push(info.clone());
        proof {
            assert(joined@ =~= seq![info]);
        }
        self.ask(EffectOf::JoinAliveSessions(joined));
        self.ask(EffectOf::UpsertAliveSession(info));
    }

    fn on_session_gone(&mut self, session_id: String)
        ensures
            final(self)@ == old(self)@.after(AppEvent::AliveSessionRemoved(session_id)),
    {
        self.ask(EffectOf::EndSession { session_id: session_id.clone() });
        self.ask(EffectOf::RemoveAliveSession { session_id });
    }

    fn on_proposal_committed(&mut self, proposal_id: String, ticket: u64, committed: bool)
        ensures
            final(self)@ == old(self)@.after(
                AppEvent::ProposalCommitted { proposal_id, ticket, committed },
            ),
    {
        if !committed {
            self.ask(EffectOf::CancelProposal { proposal_id });
        }
        self.ask(EffectOf::AnswerCommit { ticket, committed });
    }

    /// Something happened to the pane.
    #[verifier::rlimit(60)]
    pub fn handle_event(&mut self, event: AppEvent)
        requires
            old(self)@.accepts(event),
        ensures
            final(self)@ == old(self)@.after(event),
    {
        match event {
            AppEvent::Key(key) => self.on_key(key),
            AppEvent::Mouse(m) => self.on_mouse(m),
            AppEvent::Tick => self.on_tick(),
            AppEvent::RevealTick => self.ask(EffectOf::AdvanceReveal),
            AppEvent::Resize(cols, rows) => self.on_resize(cols, rows),
            AppEvent::FocusChanged(focused) => self.on_focus(focused),
            AppEvent::SelectionCopied { now_ms } => self.on_selection_copied(now_ms),
            AppEvent::SelectionCopyFailed => self.on_selection_copy_failed(),
            AppEvent::ConnectionStage(stage) => self.on_connection_stage(stage),
            AppEvent::CloudModelsAvailable(models) => self.on_cloud_models(models),
            AppEvent::AgentConnected {
                name,
                model,
                version,
                session_id,
                available_models,
                current_model_id,
                load_session_supported,
                image_supported,
                welcome_shown,
            } => self.on_agent_connected(
                name,
                model,
                version,
                session_id,
                ModelConfig { models: available_models, current: current_model_id },
                load_session_supported,
                image_supported,
                welcome_shown,
            ),
            AppEvent::SessionAttached { tab_id, session_id, available_models, current_model_id } =>
                self.on_session_attached(
                tab_id,
                session_id,
                ModelConfig { models: available_models, current: current_model_id },
            ),
            AppEvent::UsageReported { session_id, snapshot } => self.on_usage_reported(
                session_id.as_str(),
                snapshot,
            ),
            AppEvent::UsageCleared { session_id } => self.on_usage_cleared(session_id.as_str()),
            AppEvent::ModelConfigUpdated { session_id, available_models, current_model_id } =>
                self.on_model_config_updated(
                session_id.as_str(),
                ModelConfig { models: available_models, current: current_model_id },
            ),
            AppEvent::ModelSetCompleted { session_id, model, pane_override } => self.on_model_set(
                session_id.as_str(),
                model,
                pane_override,
            ),
            AppEvent::ModelSetFailed { session_id, model, pane_override, message } =>
                self.on_model_set_failed(
                session_id.as_str(),
                model.as_str(),
                pane_override,
                message,
            ),
            AppEvent::SessionConfigUpdated { session_id, options } => self.on_options_updated(
                session_id.as_str(),
                options,
            ),
            AppEvent::SessionConfigSetCompleted { session_id, config_id, value, model_compat } =>
                self.on_option_set(session_id.as_str(), config_id.as_str(), value, model_compat),
            AppEvent::SessionConfigSetFailed { session_id, config_id, message } =>
                self.on_option_set_failed(session_id.as_str(), config_id.as_str(), message),
            AppEvent::TabError { tab_id, message } => self.on_tab_error(tab_id.as_str(), message),
            AppEvent::TabSystemMessage { tab_id, message } => self.on_tab_system_message(
                tab_id.as_str(),
                message,
            ),
            AppEvent::AgentPasteTextReady { tab_id, generation, text } => self.ask(
                EffectOf::InsertPasteText { tab_id, generation, text },
            ),
            AppEvent::AgentPasteTextFailed { tab_id, generation } => self.on_paste_failed(
                tab_id.as_str(),
                generation,
            ),
            AppEvent::PromptTemplateLoaded { name } => {
                self.settings.prompt_name = Some(name);
            },
            AppEvent::PromptTargetResolved { tab_id, prompt_id, pane_id } => self.ask(
                EffectOf::ApplyPromptTarget { tab_id, prompt_id, pane_id },
            ),
            AppEvent::AgentError { session_id, failure, message } => self.on_agent_error(
                session_id,
                failure,
                message,
            ),
            AppEvent::AgentSoftStop { session_id, reason } => self.on_soft_stop(
                session_id.as_str(),
                reason,
            ),
            AppEvent::AgentBusy { tab_id } => self.on_agent_busy(tab_id.as_str()),
            AppEvent::TabRenamed { old_tab_id, new_tab_id, new_window_id } => self.ask(
                EffectOf::RenameTab { old_tab_id, new_tab_id, new_window_id },
            ),
            AppEvent::MasterDisconnected => self.on_master_disconnected(),
            AppEvent::ExecutionInfo(message) => self.on_execution_info(message),
            AppEvent::AgentThoughtChunk { session_id, text } => self.on_thought_chunk(
                session_id,
                text,
            ),
            AppEvent::AgentMessageChunk { session_id, text } => self.on_message_chunk(
                session_id,
                text,
            ),
            AppEvent::UserMessageReplayChunk { session_id, text } => self.on_user_replay(
                session_id.as_str(),
                text.as_str(),
            ),
            AppEvent::AgentMessageEnd { session_id } => self.on_message_end(session_id),
            AppEvent::TimingMetric { session_id, note } => self.on_timing(
                session_id.as_str(),
                note,
            ),
            AppEvent::ToolCall { session_id, card } => self.on_tool_call(session_id, card),
            AppEvent::ToolCallUpdate { session_id, patch } => self.on_tool_call_update(
                session_id.as_str(),
                patch,
            ),
            AppEvent::ToolTerminalOutput { session_id, news } => self.on_terminal_output(
                session_id.as_str(),
                news,
            ),
            AppEvent::HideToolCall { session_id, id } => self.on_hide_tool_call(
                session_id.as_str(),
                id.as_str(),
            ),
            AppEvent::Plan { session_id, entries } => self.on_plan(session_id, entries),
            AppEvent::PermissionRequest {
                session_id,
                tool_call_id,
                description,
                title,
                kind_label,
                target,
                target_is_command,
                options,
                responder,
            } => self.on_permission_request(
                session_id.as_str(),
                PermissionState {
                    tool_call_id,
                    description,
                    title,
                    kind_label,
                    target,
                    target_is_command,
                    options,
                    selected: 0,
                    responder: Some(responder),
                },
            ),
            AppEvent::UserInputRequest { request_id, session_id, request, responder } => {
                let input = String::new();
                let state = UserInputState {
                    request_id,
                    request,
                    selected: 0,
                    input,
                    responder: Some(responder),
                };
                self.on_user_input_request(session_id.as_str(), state);
            },
            AppEvent::CancelUserInputRequest { request_id, session_id } =>
                self.on_cancel_user_input(session_id.as_str(), request_id.as_str()),
            AppEvent::SystemMessage(message) => self.on_system_message(message),
            AppEvent::DebugPipeMessage(message) => self.on_debug_message(message),
            AppEvent::WtEvent(e) => self.on_wt_event(e),
            AppEvent::AgentInstallComplete => self.on_install_complete(),
            AppEvent::InstallChecked { agent_id, status, profile, options } =>
                self.on_install_checked(agent_id, status, profile, options),
            AppEvent::LoginProgress { device_code, verify_url } => self.on_login_progress(
                device_code,
                verify_url,
            ),
            AppEvent::LoginComplete { agent_id, success, error } => self.on_login_complete(
                agent_id,
                success,
                error,
            ),
            AppEvent::PostLoginAuthRecovery { tab_id, agent_id } => self.on_post_login_recovery(
                tab_id,
                agent_id,
            ),
            AppEvent::AuthRecoveryTimedOut { agent_id, generation } =>
                self.on_auth_recovery_timed_out(agent_id, generation),
            AppEvent::SignInPrepared { profile, options } => self.on_sign_in_prepared(
                profile,
                options,
            ),
            AppEvent::AgentSourcesDiscovered { generation, host_agents, wsl_sources } =>
                self.on_agents_discovered(generation, host_agents, wsl_sources),
            AppEvent::PreflightComplete(result) => self.on_preflight_complete(&result),
            AppEvent::SetupPrepared { result, can_auto_install, options } =>
                self.on_setup_prepared(result, can_auto_install, options),
            AppEvent::AgentSessionEvent(e) => self.record_session(e),
            AppEvent::AliveSnapshotLoaded(items) => self.on_alive_snapshot(items),
            AppEvent::AliveSessionAdded(info) => self.on_alive_session(info),
            AppEvent::AliveSessionRemoved(session_id) => self.on_session_gone(session_id),
            AppEvent::AliveJoinUpgrade(items) => self.ask(EffectOf::JoinAliveSessions(items)),
            AppEvent::SessionsChanged => self.ask(EffectOf::RefetchAgents),
            AppEvent::DirectTerminalActionProposal { ticket } => self.ask(
                EffectOf::EvaluateProposal { ticket },
            ),
            AppEvent::DirectTerminalActionProposalCommit { proposal_id, ticket } => self.ask(
                EffectOf::CommitProposal { proposal_id, ticket },
            ),
            AppEvent::ProposalCommitted { proposal_id, ticket, committed } =>
                self.on_proposal_committed(proposal_id, ticket, committed),
            AppEvent::DirectTerminalActionProposalInvalidate { proposal_id, session_id } =>
                self.ask(EffectOf::InvalidateProposal { proposal_id, session_id }),
            AppEvent::AgentsSnapshotLoaded { request_id, ticket } => self.ask(
                EffectOf::ApplyAgentsSnapshot { request_id, ticket },
            ),
            AppEvent::AgentsSnapshotFailed { request_id } => self.ask(
                EffectOf::FailAgentsSnapshot { request_id },
            ),
            AppEvent::RegisterBornBoundSession { event } => self.ask(
                EffectOf::RegisterBornBound(event),
            ),
            AppEvent::MasterMutationCompleted { request_id: _ } => self.ask(
                EffectOf::RefetchAgents,
            ),
        }
    }
}

// ---------------------------------------------------------------------------
// Laws
// ---------------------------------------------------------------------------

/// Whether an event speaks to the pane by its method, whatever pane it comes
/// from.
pub open spec fn speaks_to_the_pane(method: Seq<char>) -> bool {
    ||| method == "agent_event"@
    ||| method == "autofix_execute"@
    ||| method == "autofix_dismiss_suggestion"@
    ||| method == "autofix_execute_from_detected"@
    ||| method == "agent_prompt"@
    ||| method == "agent_paste_text"@
    ||| method == "agent_config_changed"@
    ||| method == "tab_changed"@
    ||| method == "tab_closed"@
    ||| method == "tab_renamed"@
    ||| method == "reset_tab_session"@
    ||| method == "load_session"@
    ||| method == "set_agent_state"@
}

/// The agent always gets an answer: a request for permission or a question that
/// no turn of its session can own is denied at once, by one effect and no other.
pub proof fn law_unowned_requests_are_denied(
    app: AppView,
    event: AppEvent,
    session_id: Seq<char>,
    ticket: u64,
)
    requires
        !app.session_tab(session_id).can_be_asked(),
        match event {
            AppEvent::PermissionRequest { session_id: s, responder, .. } => s@ == session_id
                && responder == ticket,
            AppEvent::UserInputRequest { session_id: s, responder, .. } => s@ == session_id
                && responder == ticket,
            _ => false,
        },
    ensures
        app.after(event).effects == app.effects.push(EffectOf::DenyRequest { responder: ticket }),
        forall|key: Seq<char>| #[trigger] app.after(event).tab(key) == app.tab(key),
{
    reveal(AppView::permission_asked);
    reveal(AppView::user_asked);
}

/// Whether a proposal was committed is answered once, as it came out; one that
/// was not is cancelled for good before that.
pub proof fn law_every_commit_is_answered(
    app: AppView,
    proposal_id: String,
    ticket: u64,
    committed: bool,
)
    ensures
        app.after(AppEvent::ProposalCommitted { proposal_id, ticket, committed }).effects
            == app.effects + (if committed {
            Seq::empty()
        } else {
            seq![EffectOf::CancelProposal { proposal_id: proposal_id@ }]
        }).push(EffectOf::AnswerCommit { ticket, committed }),
{
    assert(app.after(AppEvent::ProposalCommitted { proposal_id, ticket, committed }).effects
        =~= app.effects + (if committed {
        Seq::empty()
    } else {
        seq![EffectOf::CancelProposal { proposal_id: proposal_id@ }]
    }).push(EffectOf::AnswerCommit { ticket, committed }));
}

/// What happens in the pane itself is no news to it: of its own events, only
/// those that speak to it by their method do anything.
pub proof fn law_own_events_do_nothing(app: AppView, e: WtEvent)
    requires
        app.ids.pane_id == Some(e.pane_id@),
        !speaks_to_the_pane(e.method@),
    ensures
        app.after(AppEvent::WtEvent(e)) == app,
{
    reveal(AppView::terminal_told);
}

/// A notification that belongs to the tab of another pane is neither kept nor
/// shown, nor does it start a fix.
pub proof fn law_foreign_notifications_are_not_shown(app: AppView, e: WtEvent)
    requires
        !speaks_to_the_pane(e.method@),
        app.foreign_notification(e.notification),
    ensures
        app.after(AppEvent::WtEvent(e)).screen == app.screen,
        app.after(AppEvent::WtEvent(e)).tabs == app.tabs,
        forall|n: WtNotification| #[trigger]
            app.after(AppEvent::WtEvent(e)).effects.contains(EffectOf::TriggerAutofix(n))
                ==> app.effects.contains(EffectOf::TriggerAutofix(n)),
{
    reveal(AppView::terminal_told);
    reveal(AppView::pane_event);
    let later = app.after(AppEvent::WtEvent(e)).effects;
    assert forall|n: WtNotification| #[trigger]
        later.contains(EffectOf::TriggerAutofix(n)) implies app.effects.contains(
        EffectOf::TriggerAutofix(n),
    ) by {
        let i = choose|i: int| 0 <= i < later.len() && later[i] == EffectOf::<
            Seq<char>,
            JsonView,
            BarView,
            Seq<AliveSession>,
        >::TriggerAutofix(n);
        assert(i < app.effects.len());
        assert(app.effects[i] == later[i]);
    }
}

/// Settings that are meant for the tab of another pane change nothing.
pub proof fn law_settings_of_another_tab_change_nothing(app: AppView, e: WtEvent)
    requires
        e.method@ == "agent_config_changed"@,
        app.other_owner(e.params@),
    ensures
        app.after(AppEvent::WtEvent(e)) == app,
{
    reveal(AppView::terminal_told);
    reveal(AppView::configured);
    reveal_strlit("agent_event");
    reveal_strlit("autofix_execute");
    reveal_strlit("autofix_dismiss_suggestion");
    reveal_strlit("autofix_execute_from_detected");
    reveal_strlit("agent_prompt");
    reveal_strlit("agent_paste_text");
    reveal_strlit("agent_config_changed");
    assert("agent_config_changed"@.len() == 20);
    assert("agent_event"@.len() == 11);
    assert("autofix_execute"@.len() == 15);
    assert("autofix_dismiss_suggestion"@.len() == 26);
    assert("autofix_execute_from_detected"@.len() == 29);
    assert("agent_prompt"@.len() == 12);
    assert("agent_paste_text"@.len() == 16);
}

/// Once the connection to the master is gone the pane ends, and does nothing
/// else.
pub proof fn law_lost_master_ends_the_pane(app: AppView)
    ensures
        app.after(AppEvent::MasterDisconnected).screen.should_quit,
        app.after(AppEvent::MasterDisconnected).tabs == app.tabs,
        app.after(AppEvent::MasterDisconnected).effects == app.effects,
{
}

/// An answer that ended early is told in one line of the session's tab; the turn,
/// the connection and the other tabs stay as they are.
pub proof fn law_soft_stop_adds_one_line(
    app: AppView,
    session_id: String,
    reason: SoftStopReason,
    other: Seq<char>,
)
    requires
        other != app.session_tab_key(session_id@),
    ensures
        ({
            let key = app.session_tab_key(session_id@);
            let after = app.after(AppEvent::AgentSoftStop { session_id, reason });
            &&& after.tab(key).messages == app.tab(key).messages.push(
                ChatMessageView::System(stop_phrase(reason)),
            )
            &&& after.tab(key).turn == app.tab(key).turn
            &&& after.tab(other) == app.tab(other)
            &&& after.agent == app.agent
            &&& after.screen == app.screen
            &&& after.effects == app.effects
        }),
{
}

} // verus!
