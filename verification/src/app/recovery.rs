//! Failures of the agent, setting it up and signing in.

use vstd::prelude::*;
use vstd::string::*;

use crate::app::effect::{choice_view, AgentChoice, EffectOf};
use crate::app::event::{AgentFailure, AgentProfile, AgentStatus};
use crate::app::state::{
    AgentSource, AgentView, App, AppMode, AppView, AuthState, AvailableAgent, CheckStatus,
    ConnectionState, PreflightResult, ScreenView, SetupFlow, SetupOption, SetupReason, SetupState,
};
use crate::json::{entry, event, event_view, no_members, opt_text, put, Json, JsonView};
use crate::phrases::{Phrase, PhraseOf};
use crate::tab::{ConfigPicker, ConfigPickerView, TabSession, TabView, TurnState};
use crate::tab_actions::{next_generation, Removal};
use crate::text::{all_white, is_blank, is_empty_text, opt_view, same};
use crate::transcript::{ChatMessage, ChatMessageView, NoticeKind};

verus! {

// ---------------------------------------------------------------------------
// Failures
// ---------------------------------------------------------------------------

/// The agent of that id, or the one that is used where none is named.
pub open spec fn chosen_agent(id: Seq<char>) -> AgentChoice<Seq<char>> {
    if id.len() > 0 {
        AgentChoice::Named(id)
    } else {
        AgentChoice::Copilot
    }
}

fn choose_agent(id: &String) -> (r: AgentChoice<String>)
    ensures
        choice_view(r) == chosen_agent(id@),
{
    if is_empty_text(id.as_str()) {
        AgentChoice::Copilot
    } else {
        AgentChoice::Named(id.clone())
    }
}

impl TabView {
    /// The tab without its errors.
    pub open spec fn errors_gone(self) -> TabView {
        TabView { messages: Removal::Errors.leaves(self.messages), ..self }
    }

    /// The tab after a failure: the turn is over, and the failure is told,
    /// unless it was just told.
    pub open spec fn agent_failed(self, message: Seq<char>) -> TabView {
        let s = TabView { activity_frame: 0, timing_note: None, ..self }.activity_failed().idle();
        if s.messages.len() > 0 && s.messages.last() == ChatMessageView::Error(message) {
            s
        } else {
            s.saying(ChatMessageView::Error(message))
        }
    }
}

impl TabSession {
    fn fail_agent(&mut self, message: String)
        ensures
            final(self)@ == old(self)@.agent_failed(message@),
    {
        self.activity_frame = 0;
        self.timing_note = None;
        self.fail_activity();
        self.turn = TurnState::Idle;
        let n: usize = self.messages.len();
        proof {
            assert(self@.messages.len() == n);
        }
        let told = if n > 0 {
            proof {
                assert(self@.messages.last() == self.messages@[n - 1]@);
            }
            match &self.messages[n - 1] {
                ChatMessage::Error(last) => same(last.as_str(), message.as_str()),
                _ => false,
            }
        } else {
            false
        };
        if !told {
            self.say(ChatMessage::Error(message));
        }
    }
}

/// The event that asks the terminal for a fresh agent.
pub open spec fn restart_event(tab_id: Option<Seq<char>>) -> JsonView {
    event_view(
        "restart_agent_stack"@,
        JsonView::Object(
            seq![
                entry("reason"@, JsonView::Text("auth_recovery"@)),
                entry("tab_id"@, opt_text(tab_id)),
            ],
        ),
    )
}

fn restart_request(tab_id: &Option<String>) -> (r: Json)
    ensures
        r@ == restart_event(opt_view(*tab_id)),
{
    let mut m = no_members();
    put(&mut m, "reason", Json::of_text("auth_recovery"));
    put(&mut m, "tab_id", Json::of_opt_text(tab_id));
    let params = Json::of_members(m);
    proof {
        let want = restart_event(opt_view(*tab_id))->Object_0[2].value;
        assert(params@->Object_0 =~= want->Object_0);
    }
    event("restart_agent_stack", params)
}

impl AppView {
    /// The pane on its way to the sign-in screen.
    pub open spec fn sign_in_asked(self, agent: AgentChoice<Seq<char>>) -> AppView {
        AppView {
            screen: ScreenView { mode: AppMode::Setup, ..self.screen },
            agent: AgentView { state: ConnectionState::Disconnected, ..self.agent },
            flow: SetupFlow { auth: None, ..self.flow },
            ..self
        }.asking(EffectOf::PrepareSignIn { agent, check_agent: self.agent.source is Host })
    }

    /// The pane after a failure of the agent.
    #[verifier::opaque]
    pub open spec fn agent_failed(
        self,
        session_id: Option<Seq<char>>,
        failure: AgentFailure,
        message: String,
    ) -> AppView {
        if failure == AgentFailure::Cancelled {
            self
        } else if failure is AuthRequired && !self.flow.preflight_setup_active {
            let s = self.sign_in_asked(chosen_agent(self.agent.current_id));
            s.with_current(s.current_tab().activity_failed().idle().errors_gone())
        } else {
            let s = if failure.keeps_connection() {
                self
            } else {
                AppView {
                    agent: AgentView { state: ConnectionState::Failed(message), ..self.agent },
                    ..self
                }.status_published()
            };
            s.with_tab(
                s.failing_tab(session_id),
                s.tab(s.failing_tab(session_id)).agent_failed(message@),
            )
        }
    }

    /// The tab that a failure is told in: that of its session, or the one in
    /// front.
    pub open spec fn failing_tab(self, session_id: Option<Seq<char>>) -> Seq<char> {
        match session_id {
            Some(id) => self.session_tab_key(id),
            None => self.active_key(),
        }
    }

    /// Whether a failure is told: not one that the user asked for, nor one that
    /// leads to the sign-in screen.
    pub open spec fn tells(self, failure: AgentFailure) -> bool {
        !(failure is Cancelled) && !(failure is AuthRequired && !self.flow.preflight_setup_active)
    }

    /// The pane that reconnects: no screen of setting up or signing in is left,
    /// and the timers of earlier recoveries are out of date.
    pub open spec fn reconnecting(self) -> AppView {
        AppView {
            screen: ScreenView { mode: AppMode::Chat, ..self.screen },
            agent: AgentView {
                state: ConnectionState::Connecting(PhraseOf::Reconnecting),
                ..self.agent
            },
            flow: SetupFlow {
                auth_recovery_generation: next_generation(self.flow.auth_recovery_generation),
                setup: None,
                auth: None,
                ..self.flow
            },
            ..self
        }
    }

    /// The pane once it reconnects after a sign-in.
    #[verifier::opaque]
    pub open spec fn recovering(self, tab_id: Option<Seq<char>>, agent_id: Seq<char>) -> AppView {
        let s = self.reconnecting();
        s.with_current(s.current_tab().errors_gone()).asking(
            EffectOf::Send(restart_event(tab_id)),
        ).asking(
            EffectOf::StartAuthRecoveryTimer {
                agent: chosen_agent(agent_id),
                generation: next_generation(self.flow.auth_recovery_generation),
            },
        )
    }

    /// The pane once the time for a recovery is up: only the recovery that is
    /// still under way leads back to the sign-in screen.
    #[verifier::opaque]
    pub open spec fn recovery_timed_out(self, agent_id: Seq<char>, generation: u64) -> AppView {
        if generation == self.flow.auth_recovery_generation && self.screen.mode != AppMode::Setup
            && self.agent.state is Connecting {
            self.sign_in_asked(chosen_agent(agent_id))
        } else {
            self
        }
    }
}

impl App {
    fn ask_sign_in(&mut self, agent: AgentChoice<String>)
        ensures
            final(self)@ == old(self)@.sign_in_asked(choice_view(agent)),
    {
        let check_agent = self.agent.source.is_host();
        self.screen.mode = AppMode::Setup;
        self.agent.state = ConnectionState::Disconnected;
        self.flow.auth = None;
        self.ask(EffectOf::PrepareSignIn { agent, check_agent });
    }

    /// The agent failed.
    pub fn on_agent_error(
        &mut self,
        session_id: Option<String>,
        failure: AgentFailure,
        message: String,
    )
        ensures
            final(self)@ == old(self)@.agent_failed(opt_view(session_id), failure, message),
    {
        proof {
            reveal(AppView::agent_failed);
        }
        if failure.is_cancelled() {
            return;
        }
        if failure.is_auth() && !self.flow.preflight_setup_active {
            let agent = choose_agent(&self.agent.current_id);
            self.ask_sign_in(agent);
            let tab = self.current_tab_mut();
            tab.fail_activity();
            tab.turn = TurnState::Idle;
            tab.remove_from_conversation(Removal::Errors);
            return;
        }
        if !failure.session_survives() {
            self.agent.state = ConnectionState::Failed(message.clone());
            self.publish_agent_status();
        }
        let key = match &session_id {
            Some(id) => self.tab_for_session(id.as_str()),
            None => self.active_tab_key(),
        };
        let tab = self.tab_mut(key.as_str());
        tab.fail_agent(message);
    }

    /// The process that holds the agent is gone.
    pub fn on_master_disconnected(&mut self)
        ensures
            final(self)@ == (AppView {
                screen: ScreenView { should_quit: true, ..old(self)@.screen },
                ..old(self)@
            }),
    {
        self.screen.should_quit = true;
    }

    /// The agent has to be started anew after a sign-in.
    pub fn on_post_login_recovery(&mut self, tab_id: Option<String>, agent_id: String)
        ensures
            final(self)@ == old(self)@.recovering(opt_view(tab_id), agent_id@),
    {
        proof {
            reveal(AppView::recovering);
        }
        let agent = choose_agent(&agent_id);
        self.reconnect();
        let generation = self.flow.auth_recovery_generation;
        let tab = self.current_tab_mut();
        tab.remove_from_conversation(Removal::Errors);
        self.ask(EffectOf::Send(restart_request(&tab_id)));
        self.ask(EffectOf::StartAuthRecoveryTimer { agent, generation });
    }

    fn reconnect(&mut self)
        ensures
            final(self)@ == old(self)@.reconnecting(),
    {
        self.flow.auth_recovery_generation = self.flow.auth_recovery_generation.wrapping_add(1);
        self.screen.mode = AppMode::Chat;
        self.flow.setup = None;
        self.flow.auth = None;
        self.agent.state = ConnectionState::Connecting(Phrase::Reconnecting);
    }

    /// The time for a recovery is up.
    pub fn on_auth_recovery_timed_out(&mut self, agent_id: String, generation: u64)
        ensures
            final(self)@ == old(self)@.recovery_timed_out(agent_id@, generation),
    {
        proof {
            reveal(AppView::recovery_timed_out);
        }
        let connecting = match &self.agent.state {
            ConnectionState::Connecting(_) => true,
            _ => false,
        };
        if generation == self.flow.auth_recovery_generation && self.screen.mode != AppMode::Setup
            && connecting {
            let agent = choose_agent(&agent_id);
            self.ask_sign_in(agent);
        }
    }
}

// ---------------------------------------------------------------------------
// The set-up screen
// ---------------------------------------------------------------------------

/// The set-up screen that asks to sign in.
pub open spec fn sign_in_setup(profile: AgentProfile, options: Vec<SetupOption>) -> SetupState {
    SetupState {
        reason: SetupReason::AgentError,
        selected_index: 0,
        preflight: PreflightResult {
            agent_id: profile.id,
            display_name: profile.display_name,
            cli_status: CheckStatus::Passed,
            cli_path: None,
            auth_status: CheckStatus::Failed(PhraseOf::AuthenticationFailed),
            install_hint: profile.install_hint,
            install_url: None,
            auth_hint: profile.auth_hint,
        },
        install_in_progress: false,
        install_error: None,
        options,
        title: PhraseOf::SignInTitle,
        subtitle: if profile.id@ == "copilot"@ {
            PhraseOf::CopilotAuth { agent: profile.display_name }
        } else {
            PhraseOf::AgentAuth { agent: profile.display_name }
        },
    }
}

/// The set-up screen for an agent that is missing.
pub open spec fn missing_setup(
    result: PreflightResult,
    can_auto_install: bool,
    options: Vec<SetupOption>,
) -> SetupState {
    SetupState {
        reason: SetupReason::AgentMissing,
        selected_index: 0,
        preflight: result,
        install_in_progress: false,
        install_error: None,
        options,
        title: PhraseOf::AgentMissingTitle,
        subtitle: if can_auto_install {
            PhraseOf::CopilotMissing { agent: result.display_name }
        } else {
            PhraseOf::AgentMissing { agent: result.display_name }
        },
    }
}

/// The set-up screen for an agent that was just installed.
pub open spec fn installed_setup(
    agent_id: String,
    status: AgentStatus,
    profile: AgentProfile,
    options: Vec<SetupOption>,
) -> SetupState {
    SetupState {
        reason: SetupReason::AgentError,
        selected_index: 0,
        preflight: PreflightResult {
            agent_id,
            display_name: status.display_name,
            cli_status: CheckStatus::Passed,
            cli_path: status.cli_path,
            auth_status: CheckStatus::Failed(PhraseOf::AuthenticationFailed),
            install_hint: profile.install_hint,
            install_url: None,
            auth_hint: profile.auth_hint,
        },
        install_in_progress: false,
        install_error: None,
        options,
        title: PhraseOf::SignInTitle,
        subtitle: PhraseOf::AgentAuth { agent: status.display_name },
    }
}

impl PreflightResult {
    /// Everything was found in order.
    pub open spec fn passed(self) -> bool {
        self.cli_status is Passed && self.auth_status is Passed
    }

    /// Whether everything was found in order.
    pub fn all_passed(&self) -> (r: bool)
        ensures
            r == self.passed(),
    {
        match (&self.cli_status, &self.auth_status) {
            (CheckStatus::Passed, CheckStatus::Passed) => true,
            _ => false,
        }
    }
}

impl AppView {
    /// The pane with a set-up screen.
    pub open spec fn with_setup(self, setup: SetupState) -> AppView {
        AppView { flow: SetupFlow { setup: Some(setup), ..self.flow }, ..self }
    }

    /// The pane in set-up mode.
    pub open spec fn in_setup(self) -> AppView {
        AppView { screen: ScreenView { mode: AppMode::Setup, ..self.screen }, ..self }
    }

    /// The pane after the checks before the start: a failed one leads to the
    /// set-up screen.
    #[verifier::opaque]
    pub open spec fn preflight_done(self, result: PreflightResult) -> AppView {
        if result.passed() {
            self
        } else {
            AppView {
                flow: SetupFlow { preflight_setup_active: true, ..self.flow },
                ..self.in_setup()
            }.asking(
                EffectOf::PrepareSetup {
                    agent_id: result.agent_id@,
                    check_agent: self.agent.source is Host,
                },
            )
        }
    }

    /// The agent that the set-up screen is about.
    pub open spec fn setup_agent(self) -> Option<Seq<char>> {
        match self.flow.setup {
            Some(setup) if setup.preflight.agent_id@.len() > 0 => Some(setup.preflight.agent_id@),
            _ => None,
        }
    }

    /// The pane once it is known what an installation came to.
    #[verifier::opaque]
    pub open spec fn install_checked(
        self,
        agent_id: Option<String>,
        status: Option<AgentStatus>,
        profile: AgentProfile,
        options: Vec<SetupOption>,
    ) -> AppView {
        match (agent_id, status) {
            (Some(id), Some(found)) if found.cli_found => if id@ == "copilot"@ {
                self.asking(EffectOf::ShowCopilotAuth)
            } else {
                self.in_setup().with_setup(installed_setup(id, found, profile, options))
            },
            _ => match self.flow.setup {
                Some(setup) => self.with_setup(
                    SetupState { install_in_progress: false, options, ..setup },
                ),
                None => self,
            },
        }
    }
}

impl App {
    /// What the sign-in screen needs is known.
    pub fn on_sign_in_prepared(&mut self, profile: AgentProfile, options: Vec<SetupOption>)
        ensures
            final(self)@ == old(self)@.with_setup(sign_in_setup(profile, options)),
    {
        let shown = profile.display_name.clone();
        let subtitle = if same(profile.id.as_str(), "copilot") {
            Phrase::CopilotAuth { agent: shown }
        } else {
            Phrase::AgentAuth { agent: shown }
        };
        self.flow.setup = Some(
            SetupState {
                reason: SetupReason::AgentError,
                selected_index: 0,
                preflight: PreflightResult {
                    agent_id: profile.id,
                    display_name: profile.display_name,
                    cli_status: CheckStatus::Passed,
                    cli_path: None,
                    auth_status: CheckStatus::Failed(Phrase::AuthenticationFailed),
                    install_hint: profile.install_hint,
                    install_url: None,
                    auth_hint: profile.auth_hint,
                },
                install_in_progress: false,
                install_error: None,
                options,
                title: Phrase::SignInTitle,
                subtitle,
            },
        );
    }

    /// The checks before the start are done.
    pub fn on_preflight_complete(&mut self, result: &PreflightResult)
        ensures
            final(self)@ == old(self)@.preflight_done(*result),
    {
        proof {
            reveal(AppView::preflight_done);
        }
        if !result.all_passed() {
            let check_agent = self.agent.source.is_host();
            self.screen.mode = AppMode::Setup;
            self.flow.preflight_setup_active = true;
            self.ask(EffectOf::PrepareSetup { agent_id: result.agent_id.clone(), check_agent });
        }
    }

    /// What the set-up screen needs is known.
    pub fn on_setup_prepared(
        &mut self,
        result: PreflightResult,
        can_auto_install: bool,
        options: Vec<SetupOption>,
    )
        ensures
            final(self)@ == old(self)@.with_setup(missing_setup(result, can_auto_install, options)),
    {
        let shown = result.display_name.clone();
        let subtitle = if can_auto_install {
            Phrase::CopilotMissing { agent: shown }
        } else {
            Phrase::AgentMissing { agent: shown }
        };
        self.flow.setup = Some(
            SetupState {
                reason: SetupReason::AgentMissing,
                selected_index: 0,
                preflight: result,
                install_in_progress: false,
                install_error: None,
                options,
                title: Phrase::AgentMissingTitle,
                subtitle,
            },
        );
    }

    /// An installation ended.
    pub fn on_install_complete(&mut self)
        ensures
            final(self)@ == old(self)@.asking(
                EffectOf::CheckInstall { agent_id: old(self)@.setup_agent() },
            ),
    {
        let agent_id = match &self.flow.setup {
            Some(setup) => if is_empty_text(setup.preflight.agent_id.as_str()) {
                None
            } else {
                Some(setup.preflight.agent_id.clone())
            },
            None => None,
        };
        self.ask(EffectOf::CheckInstall { agent_id });
    }

    /// It is known what an installation came to.
    pub fn on_install_checked(
        &mut self,
        agent_id: Option<String>,
        status: Option<AgentStatus>,
        profile: AgentProfile,
        options: Vec<SetupOption>,
    )
        ensures
            final(self)@ == old(self)@.install_checked(agent_id, status, profile, options),
    {
        proof {
            reveal(AppView::install_checked);
        }
        match (agent_id, status) {
            (Some(id), Some(found)) => {
                if found.cli_found {
                    if same(id.as_str(), "copilot") {
                        self.ask(EffectOf::ShowCopilotAuth);
                    } else {
                        let subtitle = Phrase::AgentAuth { agent: found.display_name.clone() };
                        self.screen.mode = AppMode::Setup;
                        self.flow.setup = Some(
                            SetupState {
                                reason: SetupReason::AgentError,
                                selected_index: 0,
                                preflight: PreflightResult {
                                    agent_id: id,
                                    display_name: found.display_name,
                                    cli_status: CheckStatus::Passed,
                                    cli_path: found.cli_path,
                                    auth_status: CheckStatus::Failed(Phrase::AuthenticationFailed),
                                    install_hint: profile.install_hint,
                                    install_url: None,
                                    auth_hint: profile.auth_hint,
                                },
                                install_in_progress: false,
                                install_error: None,
                                options,
                                title: Phrase::SignInTitle,
                                subtitle,
                            },
                        );
                    }
                    return;
                }
            },
            _ => {},
        }
        if let Some(setup) = self.flow.setup.take() {
            let mut setup = setup;
            setup.install_in_progress = false;
            setup.options = options;
            self.flow.setup = Some(setup);
        }
    }
}

// ---------------------------------------------------------------------------
// Signing in
// ---------------------------------------------------------------------------

impl AppView {
    /// The pane with the device code of a sign-in that is under way; elsewhere
    /// the code is dropped.
    #[verifier::opaque]
    pub open spec fn login_progressed(self, device_code: String, verify_url: String) -> AppView {
        match self.flow.auth {
            Some(auth) if auth.checking => AppView {
                flow: SetupFlow {
                    auth: Some(
                        AuthState {
                            status_message: PhraseOf::DeviceCodePrompt {
                                url: verify_url,
                                code: device_code,
                            },
                            ..auth
                        },
                    ),
                    ..self.flow
                },
                ..self
            }.asking(EffectOf::CopyText(device_code@)),
            _ => self,
        }
    }

    /// What is said when a sign-in failed.
    pub open spec fn login_failure(error: Option<String>) -> Phrase {
        match error {
            Some(e) if !all_white(e@) => PhraseOf::Text(e),
            _ => PhraseOf::AuthenticationFailed,
        }
    }

    /// The pane after a sign-in: one that is not, or no longer, under way is
    /// ignored.
    #[verifier::opaque]
    pub open spec fn login_completed(
        self,
        agent_id: Seq<char>,
        success: bool,
        error: Option<String>,
    ) -> AppView {
        match self.flow.auth {
            Some(auth) if auth.agent_id@ == agent_id => if success {
                let s = AppView {
                    screen: ScreenView { mode: AppMode::Chat, ..self.screen },
                    agent: AgentView {
                        state: ConnectionState::Connecting(PhraseOf::Starting),
                        ..self.agent
                    },
                    flow: SetupFlow {
                        setup: None,
                        auth: None,
                        deferred_start: true,
                        pending_acp_start: true,
                        needs_post_login_authenticate: true,
                        ..self.flow
                    },
                    ..self
                }.asking(EffectOf::UpdateDeferredAgent { agent_id });
                if self.flow.deferred_start {
                    s
                } else {
                    s.asking(EffectOf::DeferAgentStart { agent_id })
                }
            } else {
                AppView {
                    flow: SetupFlow {
                        auth: Some(
                            AuthState {
                                checking: false,
                                status_message: Self::login_failure(error),
                                ..auth
                            },
                        ),
                        ..self.flow
                    },
                    ..self
                }
            },
            _ => self,
        }
    }
}

impl App {
    /// A sign-in gave a device code.
    pub fn on_login_progress(&mut self, device_code: String, verify_url: String)
        ensures
            final(self)@ == old(self)@.login_progressed(device_code, verify_url),
    {
        proof {
            reveal(AppView::login_progressed);
        }
        if let Some(auth) = self.flow.auth.take() {
            let mut auth = auth;
            if auth.checking {
                auth.status_message = Phrase::DeviceCodePrompt {
                    url: verify_url,
                    code: device_code.clone(),
                };
                self.flow.auth = Some(auth);
                self.ask(EffectOf::CopyText(device_code));
            } else {
                self.flow.auth = Some(auth);
            }
        }
    }

    /// A sign-in is over.
    pub fn on_login_complete(&mut self, agent_id: String, success: bool, error: Option<String>)
        ensures
            final(self)@ == old(self)@.login_completed(agent_id@, success, error),
    {
        proof {
            reveal(AppView::login_completed);
        }
        let active = match &self.flow.auth {
            Some(auth) => same(auth.agent_id.as_str(), agent_id.as_str()),
            None => false,
        };
        if !active {
            return;
        }
        if success {
            self.screen.mode = AppMode::Chat;
            self.flow.setup = None;
            self.agent.state = ConnectionState::Connecting(Phrase::Starting);
            self.ask(EffectOf::UpdateDeferredAgent { agent_id: agent_id.clone() });
            if !self.flow.deferred_start {
                self.ask(EffectOf::DeferAgentStart { agent_id });
                self.flow.deferred_start = true;
            }
            self.flow.pending_acp_start = true;
            self.flow.needs_post_login_authenticate = true;
            self.flow.auth = None;
        } else if let Some(auth) = self.flow.auth.take() {
            let mut auth = auth;
            auth.checking = false;
            auth.status_message = match error {
                Some(e) => if is_blank(e.as_str()) {
                    Phrase::AuthenticationFailed
                } else {
                    Phrase::Text(e)
                },
                None => Phrase::AuthenticationFailed,
            };
            self.flow.auth = Some(auth);
        }
    }
}

// ---------------------------------------------------------------------------
// The agents of this machine
// ---------------------------------------------------------------------------

/// Where the agent in use first stands among the agents, from the `i`-th on.
pub open spec fn agent_at(
    agents: Seq<AvailableAgent>,
    id: Seq<char>,
    source: AgentSource,
    i: int,
) -> int
    decreases agents.len() - i,
{
    if i < 0 || i >= agents.len() {
        0
    } else if agents[i].id@ == id && agents[i].source.same_as(source) {
        i
    } else {
        agent_at(agents, id, source, i + 1)
    }
}

impl AppView {
    /// The pane with the agent picker open, and no other picker.
    pub open spec fn agent_picker_opened(self, selected: usize) -> AppView {
        self.with_current(
            TabView {
                agent_picker_open: true,
                agent_picker_selected: selected,
                model_picker_open: false,
                config_picker: ConfigPickerView::Closed,
                ..self.current_tab()
            },
        )
    }

    /// The pane with the agent picker closed.
    pub open spec fn agent_picker_closed(self) -> AppView {
        self.with_current(TabView { agent_picker_open: false, ..self.current_tab() })
    }

    /// The pane once the agents of this machine are known: an answer to an
    /// earlier question is ignored.
    #[verifier::opaque]
    pub open spec fn agents_discovered(
        self,
        generation: u64,
        found: Seq<AvailableAgent>,
    ) -> AppView {
        if generation != self.agent.probe_generation {
            self
        } else {
            let s = AppView { agent: AgentView { available: found, ..self.agent }, ..self };
            if found.len() == 0 {
                let closed = s.agent_picker_closed();
                if s.screen.mode == AppMode::Chat {
                    closed.with_current(
                        closed.current_tab().saying(
                            ChatMessageView::Notice {
                                kind: NoticeKind::Warning,
                                text: PhraseOf::NoAgents,
                            },
                        ).at_bottom(),
                    )
                } else {
                    closed
                }
            } else {
                s.agent_picker_opened(
                    agent_at(found, s.agent.current_id, s.agent.source, 0) as usize,
                )
            }
        }
    }
}

impl App {
    /// Opens the agent picker.
    pub fn open_agent_picker(&mut self, selected: usize)
        ensures
            final(self)@ == old(self)@.agent_picker_opened(selected),
    {
        let tab = self.current_tab_mut();
        tab.agent_picker_open = true;
        tab.agent_picker_selected = selected;
        tab.model_picker_open = false;
        tab.config_picker = ConfigPicker::Closed;
    }

    /// Closes the agent picker.
    pub fn close_agent_picker(&mut self)
        ensures
            final(self)@ == old(self)@.agent_picker_closed(),
    {
        let tab = self.current_tab_mut();
        tab.agent_picker_open = false;
    }

    /// Where the agent in use stands among the agents of this machine.
    pub fn current_agent_index(&self) -> (r: usize)
        ensures
            r == agent_at(self@.agent.available, self@.agent.current_id, self@.agent.source, 0),
    {
        let mut i: usize = 0;
        while i < self.agent.available.len()
            invariant
                i <= self.agent.available.len(),
                agent_at(self@.agent.available, self@.agent.current_id, self@.agent.source, 0)
                    == agent_at(
                    self@.agent.available,
                    self@.agent.current_id,
                    self@.agent.source,
                    i as int,
                ),
            decreases self.agent.available.len() - i,
        {
            if same(self.agent.available[i].id.as_str(), self.agent.current_id.as_str())
                && self.agent.available[i].source.matches(&self.agent.source) {
                return i;
            }
            i += 1;
        }
        0
    }

    /// The agents of this machine are known.
    pub fn on_agents_discovered(
        &mut self,
        generation: u64,
        host_agents: Vec<AvailableAgent>,
        wsl_sources: Vec<AvailableAgent>,
    )
        ensures
            final(self)@ == old(self)@.agents_discovered(generation, host_agents@ + wsl_sources@),
    {
        proof {
            reveal(AppView::agents_discovered);
        }
        if generation != self.agent.probe_generation {
            return;
        }
        let mut found = host_agents;
        let mut more = wsl_sources;
        found.append(&mut more);
        self.agent.available = found;
        if self.agent.available.len() == 0 {
            self.close_agent_picker();
            if self.screen.mode == AppMode::Chat {
                let tab = self.current_tab_mut();
                tab.say(ChatMessage::warning(Phrase::NoAgents));
                tab.scroll_to_bottom();
            }
        } else {
            let selected = self.current_agent_index();
            self.open_agent_picker(selected);
        }
    }

    /// A paste failed; one that was given up is ignored.
    pub fn on_paste_failed(&mut self, tab_id: &str, generation: u64)
        ensures
            final(self)@ == (if old(self)@.tabs.contains_key(tab_id@) && old(self)@.tab(
                tab_id@,
            ).paste_generation == generation {
                old(self)@.with_tab(
                    tab_id@,
                    TabView { paste_pending: false, ..old(self)@.tab(tab_id@) },
                )
            } else {
                old(self)@
            }),
    {
        let current = match self.tab(tab_id) {
            Some(tab) => tab.paste_generation == generation,
            None => false,
        };
        if current {
            let tab = self.tab_mut(tab_id);
            tab.paste_pending = false;
        }
    }
}

// ---------------------------------------------------------------------------
// Laws
// ---------------------------------------------------------------------------

/// A turn that the user cancelled is no failure: the pane stays as it is.
pub proof fn law_cancelled_turn_changes_nothing(
    app: AppView,
    session_id: Option<Seq<char>>,
    message: String,
)
    ensures
        app.agent_failed(session_id, AgentFailure::Cancelled, message) == app,
{
    reveal(AppView::agent_failed);
}

/// A failure that leaves the transport good leaves the connection and every other
/// tab as they are; it is told in the tab of the session, whose turn is over.
pub proof fn law_connection_outlives_failures(
    app: AppView,
    session_id: Option<Seq<char>>,
    failure: AgentFailure,
    message: String,
    other: Seq<char>,
)
    requires
        failure.keeps_connection(),
        other != app.failing_tab(session_id),
    ensures
        app.agent_failed(session_id, failure, message).agent == app.agent,
        app.agent_failed(session_id, failure, message).screen == app.screen,
        app.agent_failed(session_id, failure, message).effects == app.effects,
        app.agent_failed(session_id, failure, message).tab(other) == app.tab(other),
        app.agent_failed(session_id, failure, message).tab(app.failing_tab(session_id)).turn is Idle,
        app.agent_failed(session_id, failure, message).tab(
            app.failing_tab(session_id),
        ).messages.last() == ChatMessageView::Error(message@),
{
    reveal(AppView::agent_failed);
}

/// The same failure twice in a row is told once, and ends the turn; another one
/// that follows it is told as well.
pub proof fn law_repeated_failure_is_told_once(
    app: AppView,
    session_id: Option<Seq<char>>,
    failure: AgentFailure,
    message: String,
    next: AgentFailure,
    other: String,
)
    requires
        app.tells(failure),
        app.tells(next),
        other@ != message@,
        app.tab(app.failing_tab(session_id)).messages.len() > 0 ==> app.tab(
            app.failing_tab(session_id),
        ).messages.last() != ChatMessageView::Error(message@),
    ensures
        ({
            let key = app.failing_tab(session_id);
            let once = app.agent_failed(session_id, failure, message);
            let twice = once.agent_failed(session_id, failure, message);
            let then_other = twice.agent_failed(session_id, next, other);
            &&& once.tab(key).messages == app.tab(key).messages.push(
                ChatMessageView::Error(message@),
            )
            &&& twice.tab(key).messages == once.tab(key).messages
            &&& twice.tab(key).turn is Idle
            &&& then_other.tab(key).messages == twice.tab(key).messages.push(
                ChatMessageView::Error(other@),
            )
        }),
{
    let once = app.agent_failed(session_id, failure, message);
    let twice = once.agent_failed(session_id, failure, message);
    lemma_failure_in_its_tab(app, session_id, failure, message);
    lemma_failure_in_its_tab(once, session_id, failure, message);
    lemma_failure_in_its_tab(twice, session_id, next, other);
}

/// Where the tabs keep their sessions, every session stays bound where it was.
proof fn lemma_bound_tab_stays(app: AppView, after: AppView, session_id: Seq<char>, i: int)
    requires
        forall|k: Seq<char>| (#[trigger] after.tab(k)).session_id == app.tab(k).session_id,
        after.tab_order == app.tab_order || exists|k: Seq<char>|
            !app.tabs.contains_key(k) && after.tab_order == #[trigger] app.tab_order.push(k),
        0 <= i <= app.tab_order.len(),
    ensures
        after.tab_with_session(session_id, i) == app.tab_with_session(session_id, i),
    decreases app.tab_order.len() - i,
{
    if i < app.tab_order.len() {
        assert(after.tab_order[i] == app.tab_order[i]);
        assert(after.tab(after.tab_order[i]).session_id == app.tab(app.tab_order[i]).session_id);
        lemma_bound_tab_stays(app, after, session_id, i + 1);
    } else if after.tab_order.len() > i {
        let k = choose|k: Seq<char>|
            !app.tabs.contains_key(k) && after.tab_order == #[trigger] app.tab_order.push(k);
        assert(after.tab_order[i] == k);
        assert(after.tab(k).session_id == app.tab(k).session_id);
        assert(after.tab_with_session(session_id, i + 1) is None);
    }
}

/// A failure does not change where the failures of a session are told, and there
/// it does to the tab what a failure does.
proof fn lemma_failure_in_its_tab(
    app: AppView,
    session_id: Option<Seq<char>>,
    failure: AgentFailure,
    message: String,
)
    requires
        app.tells(failure),
    ensures
        ({
            let after = app.agent_failed(session_id, failure, message);
            let key = app.failing_tab(session_id);
            &&& after.failing_tab(session_id) == key
            &&& after.tab(key) == app.tab(key).agent_failed(message@)
            &&& after.flow == app.flow
        }),
{
    reveal(AppView::agent_failed);
    let published = AppView {
        agent: AgentView { state: ConnectionState::Failed(message), ..app.agent },
        ..app
    }.status_published();
    let s = if failure.keeps_connection() {
        app
    } else {
        published
    };
    let after = app.agent_failed(session_id, failure, message);
    assert forall|k: Seq<char>| (#[trigger] s.tab(k)).session_id == app.tab(k).session_id by {
        assert(s.tab(k) == app.tab(k));
    }
    if let Some(id) = session_id {
        lemma_bound_tab_stays(app, s, id, 0);
        let key = s.failing_tab(session_id);
        assert forall|k: Seq<char>| (#[trigger] after.tab(k)).session_id == app.tab(k).session_id by {
            if k == key {
                assert(after.tab(k) == s.tab(k).agent_failed(message@));
            } else {
                assert(after.tab(k) == s.tab(k));
            }
        }
        if !app.tabs.contains_key(key) {
            assert(after.tab_order == app.tab_order.push(key));
        }
        lemma_bound_tab_stays(app, after, id, 0);
    }
}

/// A timer that was set for an earlier recovery, or whose recovery has meanwhile
/// succeeded, does nothing.
pub proof fn law_stale_recovery_timer_does_nothing(
    app: AppView,
    agent_id: Seq<char>,
    generation: u64,
)
    requires
        generation != app.flow.auth_recovery_generation,
    ensures
        app.recovery_timed_out(agent_id, generation) == app,
{
    reveal(AppView::recovery_timed_out);
}

/// A recovery that starts makes the timers of all earlier ones out of date.
pub proof fn law_new_recovery_outdates_the_last(
    app: AppView,
    tab_id: Option<Seq<char>>,
    agent_id: Seq<char>,
)
    ensures
        app.recovering(tab_id, agent_id).flow.auth_recovery_generation
            != app.flow.auth_recovery_generation,
{
    reveal(AppView::recovering);
}

/// The end of a sign-in that is not under way changes nothing.
pub proof fn law_stale_login_changes_nothing(
    app: AppView,
    agent_id: Seq<char>,
    success: bool,
    error: Option<String>,
)
    requires
        app.flow.auth matches Some(auth) ==> auth.agent_id@ != agent_id,
    ensures
        app.login_completed(agent_id, success, error) == app,
{
    reveal(AppView::login_completed);
}

/// An answer to an earlier question for agents changes nothing.
pub proof fn law_stale_discovery_changes_nothing(
    app: AppView,
    generation: u64,
    found: Seq<AvailableAgent>,
)
    requires
        generation != app.agent.probe_generation,
    ensures
        app.agents_discovered(generation, found) == app,
{
    reveal(AppView::agents_discovered);
}

} // verus!
