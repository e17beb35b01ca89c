//! What the pane keeps of its agent, and what it makes of the agent's failures.

use vstd::prelude::*;
use vstd::string::*;

use crate::app::clock::{aged, expired, ticked_notifications};
use crate::app::connection::{attached, connected, introduced};
use crate::app::conversation::{lemma_asking_keeps_bindings, only_tab_touched};
use crate::app::dispatch::given_config;
use crate::app::effect::{
    session_event_view, AgentChoice, AliveSession, EffectView, SessionEvent, WtNotification,
};
use crate::app::event::{AgentFailure, AgentProfile, AgentStatus, AppEvent, SoftStopReason};
use crate::app::failure::{failure_of, soft_stop_of};
use crate::app::recovery::agent_at;
use crate::app::state::{
    options_view, AcpSessionConfigOption, AgentSource, AgentView, AppView, AvailableAgent,
    CatalogView, ConnectionState, ModelConfigView, PreflightResult, SetupOption,
};
use crate::models::{models_view, AcpModelInfo};
use crate::phrases::PhraseOf;
use crate::tab::TabView;
use crate::tab_actions::Removal;
use crate::text::{all_white, opt_view};
use crate::transcript::{ChatMessageView, NoticeKind};
use crate::usage::UsageSnapshot;

verus! {

// ---------------------------------------------------------------------------
// The connection
// ---------------------------------------------------------------------------

proof fn lemma_connected(
    app: AppView,
    agent: AgentView,
    session_id: Seq<char>,
    given: ModelConfigView,
    welcome_shown: bool,
)
    ensures
        ({
            let after = connected(app, agent, session_id, given, welcome_shown);
            let key = app.active_key();
            let tab = after.tabs[key];
            &&& after.agent == (AgentView {
                pending_selection: if agent.state is Connected {
                    None
                } else {
                    agent.pending_selection
                },
                ..agent
            })
            &&& after.ids.session_id == session_id
            &&& after.sessions.session_to_tab == app.sessions.session_to_tab.insert(session_id, key)
            &&& tab.session_id == Some(session_id)
            &&& tab.turn == app.current_tab().turn
            &&& app.current_tab().messages.len() > 0 ==> tab.messages == app.current_tab().messages
            &&& !app.sessions.model_configs.contains_key(session_id) ==> after.catalog.agent_models
                == given.models && after.catalog.agent_current_model_id == given.current
            &&& app.screen.mode is Setup ==> after.screen.mode is Chat && after.flow.setup is None
            &&& !(app.screen.mode is Setup) ==> after.screen.mode == app.screen.mode
                && after.flow.setup == app.flow.setup
            &&& !after.flow.preflight_setup_active
            &&& after.screen.show_welcome_hint == (app.screen.show_welcome_hint || !welcome_shown)
            &&& after.effects.len() == app.effects.len() + 2
            &&& after.effects[app.effects.len() as int] is SetTransportAvailable
            &&& after.effects.last() is Send
            &&& after.tabs == app.tabs.insert(key, tab)
        }),
{
    reveal(connected);
    reveal(CatalogView::rebuilt);
    let s1 = AppView { agent, ..app }.session_known(session_id, given);
    let s2 = s1.setup_over(welcome_shown);
    let s3 = s2.asking(EffectView::SetTransportAvailable);
    assert(s3.active_key() == app.active_key());
    assert(s3.current_tab() == app.current_tab());
    let s4 = s3.front_bound(session_id);
    assert(s4.effects == s3.effects);
    assert(s4.tabs == app.tabs.insert(app.active_key(), s4.tabs[app.active_key()]));
}

/// An agent that connected is known by what it said of itself, its session belongs
/// to the tab in front, and setting it up is over.
pub proof fn law_a_connected_agent_is_known(
    app: AppView,
    name: String,
    model: Option<String>,
    version: Option<String>,
    session_id: String,
    available_models: Vec<AcpModelInfo>,
    current_model_id: Option<String>,
    load_session_supported: bool,
    image_supported: bool,
    welcome_shown: bool,
)
    ensures
        ({
            let after = app.after(
                AppEvent::AgentConnected {
                    name,
                    model,
                    version,
                    session_id,
                    available_models,
                    current_model_id,
                    load_session_supported,
                    image_supported,
                    welcome_shown,
                },
            );
            let key = app.active_key();
            let tab = after.tabs[key];
            &&& after.agent.state is Connected
            &&& after.agent.name == name@
            &&& after.agent.model == opt_view(model)
            &&& after.agent.version == opt_view(version)
            &&& after.agent.supports_load_session == load_session_supported
            &&& after.agent.supports_image == image_supported
            &&& after.agent.pending_selection is None
            &&& after.ids.session_id == session_id@
            &&& after.sessions.session_to_tab.contains_key(session_id@)
            &&& after.sessions.session_to_tab[session_id@] == key
            &&& after.tabs.contains_key(key)
            &&& tab.session_id == Some(session_id@)
            &&& tab.turn == app.current_tab().turn
            &&& app.current_tab().messages.len() > 0 ==> tab.messages == app.current_tab().messages
            &&& !app.sessions.model_configs.contains_key(session_id@) ==> after.catalog.agent_models
                == models_view(available_models@) && after.catalog.agent_current_model_id
                == opt_view(current_model_id)
            &&& app.screen.mode is Setup ==> after.screen.mode is Chat && after.flow.setup is None
            &&& !(app.screen.mode is Setup) ==> after.screen.mode == app.screen.mode
                && after.flow.setup == app.flow.setup
            &&& !after.flow.preflight_setup_active
            &&& after.screen.show_welcome_hint == (app.screen.show_welcome_hint || !welcome_shown)
            &&& after.effects.len() == app.effects.len() + 2
            &&& after.effects[app.effects.len() as int] is SetTransportAvailable
            &&& after.effects.last() is Send
            &&& only_tab_touched(app, after, key)
        }),
{
    lemma_connected(
        app,
        introduced(
            app.agent,
            name@,
            opt_view(model),
            opt_view(version),
            load_session_supported,
            image_supported,
        ),
        session_id@,
        given_config(available_models, current_model_id),
        welcome_shown,
    );
}

/// A session that is attached to a tab is that tab's, and no session that the tab
/// had before is. The tab in front takes the session's models.
#[verifier::rlimit(40)]
pub proof fn law_an_attached_session_is_the_tabs(
    app: AppView,
    tab_id: String,
    session_id: String,
    available_models: Vec<AcpModelInfo>,
    current_model_id: Option<String>,
)
    ensures
        ({
            let after = app.after(
                AppEvent::SessionAttached { tab_id, session_id, available_models, current_model_id },
            );
            let tab = after.tabs[tab_id@];
            let before = app.tab(tab_id@);
            let fresh = !app.sessions.model_configs.contains_key(session_id@);
            &&& after.tabs.contains_key(tab_id@)
            &&& tab.session_id == Some(session_id@)
            &&& after.sessions.session_to_tab[session_id@] == tab_id@
            &&& forall|known: Seq<char>|
                #![trigger after.sessions.session_to_tab.contains_key(known)]
                known != session_id@ && app.sessions.session_to_tab.contains_key(known)
                    ==> after.sessions.session_to_tab.contains_key(known) == (
                app.sessions.session_to_tab[known] != tab_id@)
            &&& fresh && app.active_key() == tab_id@ ==> after.catalog.agent_models
                == models_view(available_models@) && after.catalog.agent_current_model_id
                == opt_view(current_model_id)
            &&& app.active_key() != tab_id@ ==> after.catalog == app.catalog
            &&& before.loading_session && before.loading_target_session_id == Some(session_id@)
                ==> !tab.loading_session && tab.loading_target_session_id is None
                && tab.replay_user_buffer.len() == 0 && tab.replay_agent_buffer.len() == 0
                && before.messages.is_prefix_of(tab.messages)
            &&& before.loading_target_session_id != Some(session_id@) ==> tab.messages
                == before.messages && tab.loading_session == before.loading_session
            &&& after.effects.last() is Send
            &&& only_tab_touched(app, after, tab_id@)
        }),
{
    reveal(attached);
    reveal(CatalogView::rebuilt);
}

/// The model that a tab was given holds for the session that it is attached to, and
/// else the one that was set for all; a session that is only loaded keeps its own.
#[verifier::rlimit(40)]
pub proof fn law_an_attached_session_gets_the_model(
    app: AppView,
    tab_id: String,
    session_id: String,
    available_models: Vec<AcpModelInfo>,
    current_model_id: Option<String>,
)
    ensures
        ({
            let asked = app.after(
                AppEvent::SessionAttached { tab_id, session_id, available_models, current_model_id },
            ).effects;
            let before = app.tab(tab_id@);
            let model = if before.model_override is Some {
                before.model_override
            } else {
                app.catalog.global_model
            };
            let loads = before.loading_target_session_id == Some(session_id@);
            &&& !loads && model is Some ==> asked.len() == app.effects.len() + 2
                && asked[app.effects.len() as int] == (EffectView::SetSessionModel {
                session_id: session_id@,
                model: model->0,
                pane_override: false,
            })
            &&& !loads && model is None ==> asked.len() == app.effects.len() + 1
            &&& loads && before.loading_session ==> asked.len() == app.effects.len() + 2
                && asked[app.effects.len() as int] == (EffectView::PackReplay {
                tab_id: tab_id@,
            })
        }),
{
    reveal(attached);
    reveal(CatalogView::rebuilt);
}

/// How far a connection has come is shown and told.
pub proof fn law_a_connection_shows_how_far_it_is(app: AppView, stage: String)
    ensures
        ({
            let after = app.after(AppEvent::ConnectionStage(stage));
            &&& after.agent.state == ConnectionState::Connecting(PhraseOf::Text(stage))
            &&& after.effects.len() == app.effects.len() + 1
            &&& after.effects.last() is Send
            &&& after.tabs == app.tabs
            &&& after.agent.name == app.agent.name
            &&& after.agent.pending_selection == app.agent.pending_selection
        }),
{
}

/// Models of the cloud are the catalog's, for an agent of the host alone.
pub proof fn law_cloud_models_are_for_the_host(app: AppView, models: Vec<AcpModelInfo>)
    ensures
        ({
            let after = app.after(AppEvent::CloudModelsAvailable(models));
            &&& app.agent.source is Host ==> after.catalog.cloud_models == models_view(models@)
                && after.catalog.agent_models == app.catalog.agent_models && after.effects.last()
                is Send
            &&& !(app.agent.source is Host) ==> after == app
        }),
{
    reveal(AppView::cloud_models_known);
    reveal(CatalogView::rebuilt);
}

/// Of the user's own models the chosen one is in use, and else the agent's.
pub proof fn law_the_chosen_model_is_in_use(c: CatalogView)
    ensures
        c.custom_selection is Some ==> c.rebuilt().current_model_id == c.custom_selection,
        c.custom_selection is None ==> c.rebuilt().current_model_id == c.agent_current_model_id,
        c.rebuilt().agent_models == c.agent_models,
        c.rebuilt().cloud_models == c.cloud_models,
        c.rebuilt().custom_models == c.custom_models,
{
    reveal(CatalogView::rebuilt);
}

// ---------------------------------------------------------------------------
// Sessions
// ---------------------------------------------------------------------------

/// What a session used is kept by its tab: what was reported is what is known, and
/// what was not reported stays.
pub proof fn law_usage_is_kept_by_its_tab(app: AppView, session_id: String, snapshot: UsageSnapshot)
    ensures
        ({
            let key = app.session_tab_key(session_id@);
            let before = app.session_tab(session_id@).usage;
            let reported = app.after(AppEvent::UsageReported { session_id, snapshot });
            let cleared = app.after(AppEvent::UsageCleared { session_id });
            let usage = reported.tabs[key].usage;
            &&& usage is Some
            &&& snapshot.context is Some ==> usage->0.context == snapshot.context
                && !reported.tabs[key].usage_staleness.context
            &&& snapshot.cost is Some ==> usage->0.cost == snapshot.cost
                && !reported.tabs[key].usage_staleness.cost
            &&& snapshot.context is None && before is Some ==> usage->0.context == before->0.context
            &&& snapshot.cost is None && before is Some ==> usage->0.cost == before->0.cost
            &&& cleared.tabs[key].usage is None
            &&& !cleared.tabs[key].usage_staleness.context && !cleared.tabs[key].usage_staleness.cost
            &&& cleared.tabs[key].messages == app.session_tab(session_id@).messages
            &&& only_tab_touched(app, reported, key)
            &&& only_tab_touched(app, cleared, key)
        }),
{
    reveal(AppView::usage_reported);
    reveal(AppView::usage_cleared);
}

/// A session's models are kept for it, and are the catalog's where its tab is in
/// front.
pub proof fn law_models_are_kept_by_session(app: AppView, event: AppEvent)
    requires
        event is ModelConfigUpdated,
    ensures
        match event {
            AppEvent::ModelConfigUpdated { session_id, available_models, current_model_id } => {
                let after = app.after(event);
                let kept = after.sessions.model_configs[session_id@];
                let front = app.current_tab().session_id == Some(session_id@);
                &&& after.sessions.model_configs.contains_key(session_id@)
                &&& kept.models == models_view(available_models@)
                &&& kept.current == opt_view(current_model_id)
                &&& front ==> after.catalog.agent_models == kept.models
                    && after.catalog.agent_current_model_id == kept.current
                    && after.effects.last() is Send
                &&& !front ==> after.catalog == app.catalog && after.effects == app.effects
                &&& after.tabs == app.tabs
            },
            _ => true,
        },
{
    reveal(AppView::model_config_updated);
    reveal(CatalogView::rebuilt);
}

/// A model that was set for a tab is the tab's own from then on and told by its
/// name; one that could not be set is told with the reason, and nothing changes.
#[verifier::rlimit(40)]
pub proof fn law_a_model_is_set_for_its_tab(
    app: AppView,
    session_id: String,
    model: String,
    message: String,
    key: Seq<char>,
)
    requires
        app.sessions.session_to_tab.contains_key(session_id@),
        app.sessions.session_to_tab[session_id@] == key,
    ensures
        ({
            let set = app.after(
                AppEvent::ModelSetCompleted { session_id, model, pane_override: true },
            );
            let quiet = app.after(
                AppEvent::ModelSetCompleted { session_id, model, pane_override: false },
            );
            let failed = app.after(
                AppEvent::ModelSetFailed { session_id, model, pane_override: true, message },
            );
            let hushed = app.after(
                AppEvent::ModelSetFailed { session_id, model, pane_override: false, message },
            );
            let before = app.tab(key);
            &&& set.tabs[key].model_override == Some(model@)
            &&& set.tabs[key].messages.len() == before.messages.len() + 1
            &&& set.tabs[key].messages.last() is Notice
            &&& set.tabs[key].messages.last()->Notice_kind is Success
            &&& set.tabs[key].messages.last()->text is ModelSet
            &&& quiet.tabs == app.tabs
            &&& app.sessions.model_configs.contains_key(session_id@)
                ==> set.sessions.model_configs[session_id@].current == Some(model@)
                && quiet.sessions.model_configs[session_id@].current == Some(model@)
            &&& app.current_tab().session_id == Some(session_id@)
                ==> quiet.catalog.agent_current_model_id == Some(model@)
            &&& failed.tabs[key].messages.last() is Notice
            &&& failed.tabs[key].messages.last()->Notice_kind is Error
            &&& failed.tabs[key].messages.last()->text is ConfigUpdateFailed
            &&& failed.tabs[key].messages.last()->text->error == message@
            &&& failed.tabs[key].model_override == before.model_override
            &&& failed.catalog == app.catalog
            &&& hushed == app
        }),
{
    reveal(AppView::model_set);
    reveal(AppView::model_set_failed);
    reveal(CatalogView::rebuilt);
}

// ---------------------------------------------------------------------------
// Failures
// ---------------------------------------------------------------------------

/// The agent's error codes mean what the protocol says.
pub proof fn law_error_codes_mean_what_they_say(code: i32)
    ensures
        failure_of(code) is AuthRequired <==> code == -32000,
        failure_of(code) is ResourceGone <==> code == -32002,
        failure_of(code) is Cancelled <==> code == -32800,
        failure_of(code) is Protocol <==> code != -32000 && code != -32002 && code != -32800,
{
}

/// An answer ended early for one of three reasons, and for no other.
pub proof fn law_early_ends_have_three_reasons(reason: Seq<char>)
    ensures
        soft_stop_of("max_tokens"@) == Some(SoftStopReason::MaxTokens),
        soft_stop_of("max_turn_requests"@) == Some(SoftStopReason::MaxTurnRequests),
        soft_stop_of("refusal"@) == Some(SoftStopReason::Refusal),
        soft_stop_of(reason) is Some ==> reason == "max_tokens"@ || reason == "max_turn_requests"@
            || reason == "refusal"@,
{
    reveal_strlit("max_tokens");
    reveal_strlit("max_turn_requests");
    reveal_strlit("refusal");
    assert("max_tokens"@.len() == 10);
    assert("max_turn_requests"@.len() == 17);
    assert("refusal"@.len() == 7);
}

/// An agent that wants its user to sign in leads there: the pane goes to its setup,
/// asks for what that needs, and the turn is over without an error left behind.
pub proof fn law_an_agent_that_wants_a_sign_in_gets_one(
    app: AppView,
    session_id: Option<String>,
    message: String,
)
    requires
        !app.flow.preflight_setup_active,
    ensures
        ({
            let after = app.after(
                AppEvent::AgentError { session_id, failure: AgentFailure::AuthRequired, message },
            );
            let tab = after.tabs[app.active_key()];
            let asked = after.effects.last();
            &&& after.screen.mode is Setup
            &&& after.agent.state is Disconnected
            &&& after.flow.auth is None
            &&& after.effects.len() == app.effects.len() + 1
            &&& asked is PrepareSignIn
            &&& asked->PrepareSignIn_check_agent == (app.agent.source is Host)
            &&& app.agent.current_id.len() > 0 ==> asked->PrepareSignIn_agent == AgentChoice::Named(
                app.agent.current_id,
            )
            &&& app.agent.current_id.len() == 0 ==> asked->PrepareSignIn_agent is Copilot
            &&& tab.turn is Idle
            &&& forall|i: int| 0 <= i < tab.messages.len() ==> !((#[trigger] tab.messages[i]) is Error)
        }),
{
    reveal(AppView::agent_failed);
    let before = app.current_tab().messages;
    let p = |m: ChatMessageView| !(m is Error);
    assert(Removal::Errors.leaves(before) =~= before.filter(p)) by {
        assert((|m: ChatMessageView| !Removal::Errors.takes(m)) =~= p);
    }
    before.filter_lemma(p);
}

/// A failure is told in the tab of its session, and ends that tab's turn. It costs
/// the connection unless the agent is still there.
#[verifier::rlimit(40)]
pub proof fn law_a_failure_is_told_in_its_tab(
    app: AppView,
    session_id: Option<String>,
    failure: AgentFailure,
    message: String,
)
    requires
        failure is HandshakeFailed || failure is Unresponsive || failure is ResourceGone
            || failure is Protocol,
    ensures
        ({
            let after = app.after(AppEvent::AgentError { session_id, failure, message });
            let key = if session_id is Some {
                app.session_tab_key(session_id->0@)
            } else {
                app.active_key()
            };
            let before = app.tab(key);
            let tab = after.tabs[key];
            &&& tab.turn is Idle
            &&& tab.messages.len() > 0 && tab.messages.last() == ChatMessageView::Error(message@)
            &&& tab.messages == before.messages || tab.messages == before.messages.push(
                ChatMessageView::Error(message@),
            )
            &&& failure is HandshakeFailed ==> after.agent.state == ConnectionState::Failed(message)
                && after.effects.last() is Send
            &&& !(failure is HandshakeFailed) ==> after.agent == app.agent && after.effects
                == app.effects
            &&& only_tab_touched(app, after, key)
        }),
{
    reveal(AppView::agent_failed);
    let s = AppView {
        agent: AgentView {
            state: ConnectionState::Failed(message),
            ..app.agent
        },
        ..app
    }.status_published();
    if session_id is Some {
        lemma_asking_keeps_bindings(app, s, session_id->0@, 0);
    }
}

/// After a sign-in the agent is started anew: the terminal is told, a timer runs
/// that outdates the last, and the pane waits in its chat.
pub proof fn law_after_a_sign_in_the_agent_is_started_anew(
    app: AppView,
    tab_id: Option<String>,
    agent_id: String,
)
    ensures
        ({
            let after = app.after(AppEvent::PostLoginAuthRecovery { tab_id, agent_id });
            let asked = after.effects.last();
            &&& after.screen.mode is Chat
            &&& after.agent.state == ConnectionState::Connecting(PhraseOf::Reconnecting)
            &&& after.flow.setup is None && after.flow.auth is None
            &&& after.effects.len() == app.effects.len() + 2
            &&& after.effects[app.effects.len() as int] is Send
            &&& asked is StartAuthRecoveryTimer
            &&& asked->StartAuthRecoveryTimer_generation == after.flow.auth_recovery_generation
            &&& after.flow.auth_recovery_generation != app.flow.auth_recovery_generation
            &&& agent_id@.len() > 0 ==> asked->StartAuthRecoveryTimer_agent == AgentChoice::Named(
                agent_id@,
            )
        }),
{
    reveal(AppView::recovering);
}

/// An agent that has not come back when its timer runs out is asked to sign in
/// again; one that has come back is left alone.
pub proof fn law_a_recovery_that_fails_asks_again(app: AppView, agent_id: String, generation: u64)
    ensures
        ({
            let after = app.after(AppEvent::AuthRecoveryTimedOut { agent_id, generation });
            let waits = generation == app.flow.auth_recovery_generation && !(app.screen.mode
                is Setup) && app.agent.state is Connecting;
            &&& waits ==> after.screen.mode is Setup && after.effects.last() is PrepareSignIn
            &&& waits && agent_id@.len() > 0 ==> after.effects.last()->PrepareSignIn_agent
                == AgentChoice::Named(agent_id@)
            &&& !waits ==> after == app
        }),
{
    reveal(AppView::recovery_timed_out);
}

/// A check that failed leads to the setup, and one that passed changes nothing.
pub proof fn law_a_failed_check_leads_to_the_setup(app: AppView, result: PreflightResult)
    ensures
        ({
            let after = app.after(AppEvent::PreflightComplete(result));
            let passed = result.cli_status is Passed && result.auth_status is Passed;
            &&& passed ==> after == app
            &&& !passed ==> after.screen.mode is Setup && after.flow.preflight_setup_active
                && after.effects == app.effects.push(
                EffectView::PrepareSetup {
                    agent_id: result.agent_id@,
                    check_agent: app.agent.source is Host,
                },
            )
        }),
{
    reveal(AppView::preflight_done);
}

/// What the setup needs is shown as it was found: a sign-in for an agent that is
/// there, an installation for one that is missing.
#[verifier::rlimit(40)]
pub proof fn law_a_setup_shows_what_is_wrong(
    app: AppView,
    profile: AgentProfile,
    options: Vec<SetupOption>,
    result: PreflightResult,
    can_auto_install: bool,
)
    ensures
        ({
            let signs_in = app.after(AppEvent::SignInPrepared { profile, options }).flow.setup;
            let installs = app.after(
                AppEvent::SetupPrepared { result, can_auto_install, options },
            ).flow.setup;
            &&& signs_in is Some && installs is Some
            &&& signs_in->0.reason is AgentError
            &&& signs_in->0.preflight.agent_id == profile.id
            &&& signs_in->0.preflight.display_name == profile.display_name
            &&& signs_in->0.preflight.cli_status is Passed
            &&& signs_in->0.preflight.auth_status is Failed
            &&& signs_in->0.preflight.install_hint == profile.install_hint
            &&& signs_in->0.preflight.auth_hint == profile.auth_hint
            &&& signs_in->0.options == options
            &&& signs_in->0.title is SignInTitle
            &&& profile.id@ == "copilot"@ ==> signs_in->0.subtitle is CopilotAuth
            &&& profile.id@ != "copilot"@ ==> signs_in->0.subtitle is AgentAuth
            &&& installs->0.reason is AgentMissing
            &&& installs->0.preflight == result
            &&& installs->0.options == options
            &&& installs->0.title is AgentMissingTitle
            &&& can_auto_install ==> installs->0.subtitle is CopilotMissing
            &&& !can_auto_install ==> installs->0.subtitle is AgentMissing
        }),
{
}

/// An agent that was installed is signed in next; one that was not found leaves the
/// setup where it was, no longer installing.
pub proof fn law_an_installed_agent_is_signed_in(
    app: AppView,
    agent_id: String,
    status: AgentStatus,
    profile: AgentProfile,
    options: Vec<SetupOption>,
)
    ensures
        ({
            let after = app.after(
                AppEvent::InstallChecked {
                    agent_id: Some(agent_id),
                    status: Some(status),
                    profile,
                    options,
                },
            );
            let setup = after.flow.setup;
            &&& status.cli_found && agent_id@ == "copilot"@ ==> after.effects == app.effects.push(
                EffectView::ShowCopilotAuth,
            ) && after.flow == app.flow
            &&& status.cli_found && agent_id@ != "copilot"@ ==> after.screen.mode is Setup && setup
                is Some && setup->0.preflight.agent_id == agent_id && setup->0.preflight.cli_path
                == status.cli_path && setup->0.preflight.display_name == status.display_name
                && setup->0.preflight.cli_status is Passed && setup->0.title is SignInTitle
            &&& !status.cli_found && app.flow.setup is Some ==> setup is Some
                && !setup->0.install_in_progress && setup->0.options == options
                && setup->0.preflight == app.flow.setup->0.preflight && after.screen == app.screen
            &&& !status.cli_found && app.flow.setup is None ==> after == app
        }),
{
    reveal(AppView::install_checked);
}

/// A device code is shown with its address and copied, while somebody waits for it.
pub proof fn law_a_device_code_is_shown_and_copied(
    app: AppView,
    device_code: String,
    verify_url: String,
)
    ensures
        ({
            let after = app.after(AppEvent::LoginProgress { device_code, verify_url });
            let waits = app.flow.auth is Some && app.flow.auth->0.checking;
            &&& waits ==> after.flow.auth is Some && after.flow.auth->0.status_message == (
            PhraseOf::DeviceCodePrompt { url: verify_url, code: device_code })
                && after.flow.auth->0.checking && after.effects == app.effects.push(
                EffectView::CopyText(device_code@),
            )
            &&& !waits ==> after == app
        }),
{
    reveal(AppView::login_progressed);
}

/// A sign-in that went well starts the agent; one that did not says why and can be
/// tried again.
#[verifier::rlimit(40)]
pub proof fn law_a_sign_in_starts_the_agent_or_says_why(
    app: AppView,
    agent_id: String,
    success: bool,
    error: Option<String>,
)
    requires
        app.flow.auth is Some,
        app.flow.auth->0.agent_id@ == agent_id@,
    ensures
        ({
            let after = app.after(AppEvent::LoginComplete { agent_id, success, error });
            &&& success ==> {
                &&& after.screen.mode is Chat
                &&& after.agent.state == ConnectionState::Connecting(PhraseOf::Starting)
                &&& after.flow.auth is None && after.flow.setup is None
                &&& after.flow.pending_acp_start && after.flow.deferred_start
                &&& after.flow.needs_post_login_authenticate
                &&& after.effects[app.effects.len() as int] == (EffectView::UpdateDeferredAgent {
                    agent_id: agent_id@,
                })
                &&& app.flow.deferred_start ==> after.effects.len() == app.effects.len() + 1
                &&& !app.flow.deferred_start ==> after.effects.len() == app.effects.len() + 2
                    && after.effects.last() == (EffectView::DeferAgentStart { agent_id: agent_id@ })
            }
            &&& !success ==> {
                &&& after.screen == app.screen && after.agent == app.agent
                &&& after.effects == app.effects
                &&& after.flow.auth is Some && !after.flow.auth->0.checking
                &&& error is Some && !all_white(error->0@) ==> after.flow.auth->0.status_message
                    == PhraseOf::Text(error->0)
                &&& error is None || all_white(error->0@) ==> after.flow.auth->0.status_message
                    is AuthenticationFailed
            }
        }),
{
    reveal(AppView::login_completed);
}

/// Agents that were found can be picked, with the one in use highlighted; where none
/// was, that is said.
#[verifier::rlimit(40)]
pub proof fn law_found_agents_can_be_picked(
    app: AppView,
    host_agents: Vec<AvailableAgent>,
    wsl_sources: Vec<AvailableAgent>,
)
    ensures
        ({
            let generation = app.agent.probe_generation;
            let after = app.after(
                AppEvent::AgentSourcesDiscovered { generation, host_agents, wsl_sources },
            );
            let found = host_agents@ + wsl_sources@;
            let tab = after.tabs[app.active_key()];
            &&& after.agent.available == found
            &&& found.len() > 0 ==> tab.agent_picker_open && !tab.model_picker_open
                && tab.messages == app.current_tab().messages
            &&& found.len() == 0 ==> !tab.agent_picker_open
            &&& found.len() == 0 && app.screen.mode is Chat ==> tab.messages
                == app.current_tab().messages.push(
                ChatMessageView::Notice { kind: NoticeKind::Warning, text: PhraseOf::NoAgents },
            )
            &&& found.len() == 0 && !(app.screen.mode is Chat) ==> tab.messages
                == app.current_tab().messages
        }),
{
    reveal(AppView::agents_discovered);
    let found = host_agents@ + wsl_sources@;
    let s = AppView { agent: AgentView { available: found, ..app.agent }, ..app };
    assert(s.current_tab() == app.current_tab());
    let closed = s.agent_picker_closed();
    assert(closed.current_tab().messages == app.current_tab().messages);
    assert(!closed.current_tab().agent_picker_open);
}

// ---------------------------------------------------------------------------
// The clock and the screen
// ---------------------------------------------------------------------------

/// The pane is as large as it was last told, and has the focus that it was last
/// told.
pub proof fn law_the_screen_is_as_it_was_told(app: AppView, cols: u16, rows: u16, focused: bool)
    ensures
        ({
            let resized = app.after(AppEvent::Resize(cols, rows));
            let turned = app.after(AppEvent::FocusChanged(focused));
            &&& resized.screen.terminal_cols == cols
            &&& resized.screen.terminal_rows == rows
            &&& resized.screen.pane_focused == app.screen.pane_focused
            &&& resized.tabs == app.tabs
            &&& turned.screen.pane_focused == focused
            &&& turned.screen.terminal_cols == app.screen.terminal_cols
            &&& turned.screen.terminal_rows == app.screen.terminal_rows
        }),
{
}

/// A copied selection is let go of, and said to be copied for two seconds.
pub proof fn law_a_copy_is_said_for_two_seconds(app: AppView, now_ms: u64)
    ensures
        ({
            let after = app.after(AppEvent::SelectionCopied { now_ms });
            let hint = after.screen.transient_hint;
            &&& after.pointer.text_selection.selected_text is None
            &&& after.screen.close_pane_armed_at is None
            &&& hint is Some && hint->0.phrase is SelectionCopied
            &&& now_ms + 2000 <= u64::MAX ==> hint->0.until_ms == now_ms + 2000
            &&& now_ms + 2000 > u64::MAX ==> hint->0.until_ms == u64::MAX
            &&& app.after(AppEvent::SelectionCopyFailed).screen.transient_hint is None
        }),
{
    reveal(AppView::selection_copied);
}

proof fn lemma_left(v: Seq<WtNotification>, i: int)
    requires
        0 <= i < v.len(),
    ensures
        ({
            let left = ticked_notifications(v);
            let older = aged(v[i]);
            expired(older) || left.contains(older)
        }),
{
    let all = v.map_values(|n: WtNotification| aged(n));
    let p = |n: WtNotification| !expired(n);
    assert(all[i] == aged(v[i]));
    if !expired(all[i]) {
        all.filter_lemma(p);
        assert(p(all[i]));
        assert(all.filter(p).contains(all[i]));
    }
}

/// A notification grows older by one with every tick, and goes when it is as old as
/// it may be.
pub proof fn law_notifications_age_and_go(app: AppView, i: int)
    requires
        0 <= i < app.screen.wt_notifications.len(),
    ensures
        ({
            let n = app.screen.wt_notifications[i];
            let left = app.after(AppEvent::Tick).screen.wt_notifications;
            let older = WtNotification { age_ticks: (n.age_ticks + 1) as u32, ..n };
            &&& n.age_ticks < u32::MAX && (n.dismiss_at is None || n.age_ticks + 1
                < n.dismiss_at->0) ==> left.contains(older)
            &&& forall|k: int|
                0 <= k < left.len() ==> (#[trigger] left[k]).dismiss_at is None || left[k].age_ticks
                    < left[k].dismiss_at->0
        }),
{
    reveal(AppView::ticked);
    let v = app.screen.wt_notifications;
    lemma_left(v, i);
    let all = v.map_values(|n: WtNotification| aged(n));
    all.filter_lemma(|n: WtNotification| !expired(n));
}

/// The banner goes when everything that is left was acknowledged, and does not come
/// back by itself.
pub proof fn law_the_banner_goes_when_all_is_acknowledged(app: AppView)
    ensures
        ({
            let after = app.after(AppEvent::Tick).screen;
            let left = after.wt_notifications;
            &&& !app.screen.show_notification_banner ==> !after.show_notification_banner
            &&& (forall|k: int| 0 <= k < left.len() ==> (#[trigger] left[k]).acknowledged)
                ==> !after.show_notification_banner
            &&& app.screen.show_notification_banner && (exists|k: int|
                0 <= k < left.len() && !(#[trigger] left[k]).acknowledged)
                ==> after.show_notification_banner
        }),
{
    reveal(AppView::ticked);
}

// ---------------------------------------------------------------------------
// What is handed on
// ---------------------------------------------------------------------------

/// What is said of tabs, prompts and proposals is handed on as it came, and changes
/// nothing in the pane.
pub proof fn law_tabs_and_prompts_are_handed_on(
    app: AppView,
    tab_id: Option<String>,
    from: String,
    to: String,
    prompt_id: u64,
    text: String,
    generation: u64,
    proposal_id: String,
    session_id: String,
)
    ensures
        ({
            let after0 = app.after(AppEvent::RevealTick);
            let after1 = app.after(AppEvent::TabRenamed { old_tab_id: from, new_tab_id: to, new_window_id: tab_id });
            let after2 = app.after(AppEvent::PromptTargetResolved { tab_id, prompt_id, pane_id: to });
            let after3 = app.after(AppEvent::AgentPasteTextReady { tab_id: to, generation, text });
            let after4 = app.after(AppEvent::DirectTerminalActionProposalInvalidate { proposal_id, session_id });
            &&& after0.effects == app.effects.push(EffectView::AdvanceReveal)
            &&& after0.tabs == app.tabs
            &&& after1.effects == app.effects.push(EffectView::RenameTab { old_tab_id: from@, new_tab_id: to@, new_window_id: opt_view(tab_id) })
            &&& after1.tabs == app.tabs
            &&& after2.effects == app.effects.push(EffectView::ApplyPromptTarget { tab_id: opt_view(tab_id), prompt_id, pane_id: to@ })
            &&& after2.tabs == app.tabs
            &&& after3.effects == app.effects.push(EffectView::InsertPasteText { tab_id: to@, generation, text: text@ })
            &&& after3.tabs == app.tabs
            &&& after4.effects == app.effects.push(EffectView::InvalidateProposal { proposal_id: proposal_id@, session_id: session_id@ })
            &&& after4.tabs == app.tabs
        }),
{
}

/// What happened to sessions is recorded and passed on as it came, in that order.
pub proof fn law_sessions_are_handed_on(
    app: AppView,
    e: SessionEvent<String>,
    items: Vec<AliveSession>,
    info: AliveSession,
    session_id: String,
)
    ensures
        ({
            let after0 = app.after(AppEvent::AgentSessionEvent(e));
            let after1 = app.after(AppEvent::AliveSnapshotLoaded(items));
            let after2 = app.after(AppEvent::AliveSessionAdded(info));
            let after3 = app.after(AppEvent::AliveSessionRemoved(session_id));
            let after4 = app.after(AppEvent::SessionsChanged);
            &&& after0.effects == app.effects.push(EffectView::ApplySessionEvent(session_event_view(e))).push(EffectView::PublishSessionHook(session_event_view(e)))
            &&& after0.tabs == app.tabs
            &&& after1.effects == app.effects.push(EffectView::PostAliveJoin(items@)).push(EffectView::LoadAliveSnapshot(items@))
            &&& after1.tabs == app.tabs
            &&& after2.effects == app.effects.push(EffectView::JoinAliveSessions(seq![info])).push(EffectView::UpsertAliveSession(info))
            &&& after2.tabs == app.tabs
            &&& after3.effects == app.effects.push(EffectView::EndSession { session_id: session_id@ }).push(EffectView::RemoveAliveSession { session_id: session_id@ })
            &&& after3.tabs == app.tabs
            &&& after4.effects == app.effects.push(EffectView::RefetchAgents)
            &&& after4.tabs == app.tabs
        }),
{
}

/// Text that was being pasted stops being waited for when it fails, unless another
/// paste was begun since.
pub proof fn law_a_failed_paste_is_not_waited_for(app: AppView, tab_id: String, generation: u64)
    requires
        app.tabs.contains_key(tab_id@),
    ensures
        ({
            let after = app.after(AppEvent::AgentPasteTextFailed { tab_id, generation });
            let ours = app.tabs[tab_id@].paste_generation == generation;
            &&& ours ==> !after.tabs[tab_id@].paste_pending
            &&& !ours ==> after == app
            &&& after.tabs[tab_id@].input == app.tabs[tab_id@].input
        }),
{
}

/// How long a turn took is noted in its tab.
pub proof fn law_timing_is_noted_in_its_tab(app: AppView, session_id: String, note: String)
    ensures
        ({
            let key = app.session_tab_key(session_id@);
            let after = app.after(AppEvent::TimingMetric { session_id, note });
            &&& after.tabs[key].timing_note == Some(note@)
            &&& after.tabs[key].messages == app.session_tab(session_id@).messages
            &&& only_tab_touched(app, after, key)
        }),
{
}

// ---------------------------------------------------------------------------
// Laws
// ---------------------------------------------------------------------------

/// A turn that runs shows that it does, one step further with every tick and round
/// after eighteen; one that rests stands still.
pub proof fn law_a_tick_moves_what_runs(app: AppView, key: Seq<char>)
    requires
        app.tabs.contains_key(key),
        app.tabs[key].activity_frame < usize::MAX,
    ensures
        ({
            let after = app.after(AppEvent::Tick);
            let before = app.tabs[key];
            let runs = before.turn is Submitted || before.turn is Streaming;
            &&& runs ==> after.tabs[key].activity_frame == (before.activity_frame + 1) % 18
            &&& !runs ==> after.tabs[key] == before
            &&& after.tabs[key].messages == before.messages
            &&& app.agent.state is Connecting && app.screen.activity_frame < u64::MAX
                ==> after.screen.activity_frame == app.screen.activity_frame + 1
            &&& app.screen.mode is Chat && !(app.agent.state is Connecting)
                && !app.settings.agents_snapshot_pending ==> after.screen.activity_frame
                == app.screen.activity_frame
            &&& after.effects == app.effects
        }),
{
    reveal(AppView::ticked);
}

/// What was noted for debugging is kept in its order, five hundred of it.
pub proof fn law_debug_notes_are_kept_in_order(app: AppView, message: String)
    ensures
        ({
            let before = app.screen.debug_messages;
            let after = app.after(AppEvent::DebugPipeMessage(message)).screen.debug_messages;
            &&& before.len() < 500 ==> after == before.push(message)
            &&& before.len() == 500 ==> after == before.skip(1).push(message)
            &&& after.last() == message
        }),
{
    reveal(AppView::debug_noted);
    let before = app.screen.debug_messages;
    if before.len() == 500 {
        assert(before.push(message).skip(1) =~= before.skip(1).push(message));
    }
}

proof fn lemma_agent_at(agents: Seq<AvailableAgent>, id: Seq<char>, source: AgentSource, i: int, from: int)
    requires
        0 <= from <= i < agents.len(),
        agents[i].id@ == id,
        agents[i].source.same_as(source),
        forall|k: int|
            from <= k < i ==> (#[trigger] agents[k]).id@ != id || !agents[k].source.same_as(source),
    ensures
        agent_at(agents, id, source, from) == i,
    decreases i - from,
{
    if from < i {
        lemma_agent_at(agents, id, source, i, from + 1);
    }
}

/// The agent in use is the one that is highlighted in the list.
pub proof fn law_the_agent_in_use_is_highlighted(agents: Seq<AvailableAgent>, id: Seq<char>, source: AgentSource, i: int)
    requires
        0 <= i < agents.len(),
        agents[i].id@ == id,
        agents[i].source.same_as(source),
        forall|k: int|
            0 <= k < i ==> (#[trigger] agents[k]).id@ != id || !agents[k].source.same_as(source),
    ensures
        agent_at(agents, id, source, 0) == i,
        AgentSource::Host.same_as(AgentSource::Host),
        source is Wsl ==> !source.same_as(AgentSource::Host) && source.same_as(source),
{
    lemma_agent_at(agents, id, source, i, 0);
}

/// What a tab used goes with its session: another session starts from nothing, the
/// same one goes on.
pub proof fn law_usage_goes_with_the_session(tab: TabView, session_id: Seq<char>)
    ensures
        tab.bound_to(session_id).session_id == Some(session_id),
        tab.session_id == Some(session_id) ==> tab.bound_to(session_id).usage == tab.usage,
        tab.session_id != Some(session_id) ==> tab.bound_to(session_id).usage is None,
        tab.bound_to(session_id).messages == tab.messages,
{
}

/// An option that is the model in another guise sets the tab's model, and says so as
/// a model.
pub proof fn law_an_option_can_be_the_model(
    app: AppView,
    session_id: String,
    config_id: String,
    value: String,
    key: Seq<char>,
)
    requires
        app.sessions.session_to_tab.contains_key(session_id@),
        app.sessions.session_to_tab[session_id@] == key,
    ensures
        ({
            let after = app.after(
                AppEvent::SessionConfigSetCompleted {
                    session_id,
                    config_id,
                    value,
                    model_compat: true,
                },
            );
            let told = after.tabs[key].messages.last();
            &&& after.tabs[key].model_override == Some(value@)
            &&& told is Notice && told->Notice_kind is Success && told->text is ModelSet
            &&& app.sessions.model_configs.contains_key(session_id@)
                ==> after.sessions.model_configs[session_id@].current == Some(value@)
        }),
{
    reveal(AppView::option_set);
    reveal(CatalogView::rebuilt);
}

/// The options of a session are kept as it gave them.
pub proof fn law_options_are_kept_by_session(
    app: AppView,
    session_id: String,
    options: Vec<AcpSessionConfigOption>,
)
    ensures
        ({
            let after = app.after(AppEvent::SessionConfigUpdated { session_id, options });
            &&& after.sessions.config_options.contains_key(session_id@)
            &&& after.sessions.config_options[session_id@] == options_view(options@)
            &&& after.sessions.model_configs == app.sessions.model_configs
            &&& after.effects == app.effects
        }),
{
    reveal(AppView::options_updated);
}

} // verus!
