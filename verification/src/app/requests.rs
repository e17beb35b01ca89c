//! What becomes of the agent's requests: none is lost.

use vstd::prelude::*;

use crate::app::connection::{attached, connected, introduced};
use crate::app::conversation::{notice, responder_of, stop_phrase, without_request};
use crate::app::dispatch::given_config;
use crate::app::effect::{EffectView, KeyEvent, WtNotification};
use crate::app::event::{
    AgentFailure, AgentProfile, AgentStatus, AppEvent, MouseEvent, Parsed, WtEvent,
};
use crate::app::state::{
    options_view, AgentView, AppView, AvailableAgent, ConfigOptionView, ModelConfigView,
    PreflightResult, SetupOption,
};
use crate::app::terminal::{marks_prompt, marks_success};
use crate::commands::CommandKind;
use crate::json::JsonView;
use crate::models::{models_view, AcpModelInfo, CustomModelCatalogEntry, ModelView};
use crate::phrases::PhraseOf;
use crate::tab::{TabView, UserInputView};
use crate::tab_actions::{TerminalOutput, ToolCallPatch};
use crate::text::opt_view;
use crate::transcript::{ChatMessageView, NoticeKind};
use crate::usage::UsageSnapshot;

verus! {

/// Whether the requests that wait in one pane are those that wait in another.
#[verifier::opaque]
pub open spec fn same_requests(a: AppView, b: AppView) -> bool {
    forall|key: Seq<char>|
        (#[trigger] b.tab(key)).permission == a.tab(key).permission && b.tab(key).user_input
            == a.tab(key).user_input
}

/// Whether an event is about a request of the agent.
pub open spec fn is_request(event: AppEvent) -> bool {
    event is PermissionRequest || event is UserInputRequest || event is CancelUserInputRequest
}

proof fn lemma_key_pressed(app: AppView, key: KeyEvent)
    ensures
        same_requests(app, app.key_pressed(key)),
{
    reveal(same_requests);
    reveal(AppView::key_pressed);
}

proof fn lemma_mouse_moved(app: AppView, m: MouseEvent)
    ensures
        same_requests(app, app.mouse_moved(m)),
{
    reveal(same_requests);
    reveal(AppView::mouse_moved);
}

proof fn lemma_ticked(app: AppView)
    ensures
        same_requests(app, app.ticked()),
{
    reveal(same_requests);
    reveal(AppView::ticked);
}

proof fn lemma_selection_copied(app: AppView, now_ms: u64)
    ensures
        same_requests(app, app.selection_copied(now_ms)),
{
    reveal(same_requests);
    reveal(AppView::selection_copied);
}

proof fn lemma_cloud_models_known(app: AppView, models: Seq<ModelView>)
    ensures
        same_requests(app, app.cloud_models_known(models)),
{
    reveal(same_requests);
    reveal(AppView::cloud_models_known);
}

proof fn lemma_usage_reported(app: AppView, session_id: Seq<char>, snapshot: UsageSnapshot)
    ensures
        same_requests(app, app.usage_reported(session_id, snapshot)),
{
    reveal(same_requests);
    reveal(AppView::usage_reported);
}

proof fn lemma_usage_cleared(app: AppView, session_id: Seq<char>)
    ensures
        same_requests(app, app.usage_cleared(session_id)),
{
    reveal(same_requests);
    reveal(AppView::usage_cleared);
}

proof fn lemma_model_config_updated(app: AppView, session_id: Seq<char>, config: ModelConfigView)
    ensures
        same_requests(app, app.model_config_updated(session_id, config)),
{
    reveal(same_requests);
    reveal(AppView::model_config_updated);
}

proof fn lemma_model_set(app: AppView, session_id: Seq<char>, model: Seq<char>, pane_override: bool)
    ensures
        same_requests(app, app.model_set(session_id, model, pane_override)),
{
    reveal(same_requests);
    reveal(AppView::model_set);
}

proof fn lemma_model_set_failed(
    app: AppView,
    session_id: Seq<char>,
    model: Seq<char>,
    pane_override: bool,
    message: Seq<char>,
)
    ensures
        same_requests(app, app.model_set_failed(session_id, model, pane_override, message)),
{
    reveal(same_requests);
    reveal(AppView::model_set_failed);
}

proof fn lemma_options_updated(app: AppView, session_id: Seq<char>, options: Seq<ConfigOptionView>)
    ensures
        same_requests(app, app.options_updated(session_id, options)),
{
    reveal(same_requests);
    reveal(AppView::options_updated);
}

proof fn lemma_option_set(
    app: AppView,
    session_id: Seq<char>,
    config_id: Seq<char>,
    value: Seq<char>,
    model_compat: bool,
)
    ensures
        same_requests(app, app.option_set(session_id, config_id, value, model_compat)),
{
    reveal(same_requests);
    reveal(AppView::option_set);
}

proof fn lemma_option_set_failed(
    app: AppView,
    session_id: Seq<char>,
    config_id: Seq<char>,
    message: Seq<char>,
)
    ensures
        same_requests(app, app.option_set_failed(session_id, config_id, message)),
{
    reveal(same_requests);
    reveal(AppView::option_set_failed);
}

proof fn lemma_tab_failed(app: AppView, key: Seq<char>, message: Seq<char>)
    ensures
        same_requests(app, app.tab_failed(key, message)),
{
    reveal(same_requests);
    reveal(AppView::tab_failed);
}

proof fn lemma_agent_failed(
    app: AppView,
    session_id: Option<Seq<char>>,
    failure: AgentFailure,
    message: String,
)
    ensures
        same_requests(app, app.agent_failed(session_id, failure, message)),
{
    reveal(same_requests);
    reveal(AppView::agent_failed);
}

proof fn lemma_agent_said(app: AppView, session_id: Seq<char>, text: Seq<char>)
    ensures
        same_requests(app, app.agent_said(session_id, text)),
{
    reveal(same_requests);
    reveal(AppView::agent_said);
}

proof fn lemma_user_replayed(app: AppView, session_id: Seq<char>, text: Seq<char>)
    ensures
        same_requests(app, app.user_replayed(session_id, text)),
{
    reveal(same_requests);
    reveal(AppView::user_replayed);
}

proof fn lemma_answer_ended(app: AppView, session_id: Seq<char>)
    ensures
        same_requests(app, app.answer_ended(session_id)),
{
    reveal(same_requests);
    reveal(AppView::answer_ended);
}

proof fn lemma_card_added(app: AppView, session_id: Seq<char>, m: ChatMessageView)
    ensures
        same_requests(app, app.card_added(session_id, m)),
{
    reveal(same_requests);
    reveal(AppView::card_added);
}

proof fn lemma_card_patched(app: AppView, session_id: Seq<char>, patch: ToolCallPatch)
    ensures
        same_requests(app, app.card_patched(session_id, patch)),
{
    reveal(same_requests);
    reveal(AppView::card_patched);
}

proof fn lemma_terminal_updated(app: AppView, session_id: Seq<char>, news: TerminalOutput)
    ensures
        same_requests(app, app.terminal_updated(session_id, news)),
{
    reveal(same_requests);
    reveal(AppView::terminal_updated);
}

proof fn lemma_card_hidden(app: AppView, session_id: Seq<char>, id: Seq<char>)
    ensures
        same_requests(app, app.card_hidden(session_id, id)),
{
    reveal(same_requests);
    reveal(AppView::card_hidden);
}

proof fn lemma_debug_noted(app: AppView, message: String)
    ensures
        same_requests(app, app.debug_noted(message)),
{
    reveal(same_requests);
    reveal(AppView::debug_noted);
}

proof fn lemma_install_checked(
    app: AppView,
    agent_id: Option<String>,
    status: Option<AgentStatus>,
    profile: AgentProfile,
    options: Vec<SetupOption>,
)
    ensures
        same_requests(app, app.install_checked(agent_id, status, profile, options)),
{
    reveal(same_requests);
    reveal(AppView::install_checked);
}

proof fn lemma_login_progressed(app: AppView, device_code: String, verify_url: String)
    ensures
        same_requests(app, app.login_progressed(device_code, verify_url)),
{
    reveal(same_requests);
    reveal(AppView::login_progressed);
}

proof fn lemma_login_completed(
    app: AppView,
    agent_id: Seq<char>,
    success: bool,
    error: Option<String>,
)
    ensures
        same_requests(app, app.login_completed(agent_id, success, error)),
{
    reveal(same_requests);
    reveal(AppView::login_completed);
}

proof fn lemma_recovering(app: AppView, tab_id: Option<Seq<char>>, agent_id: Seq<char>)
    ensures
        same_requests(app, app.recovering(tab_id, agent_id)),
{
    reveal(same_requests);
    reveal(AppView::recovering);
}

proof fn lemma_recovery_timed_out(app: AppView, agent_id: Seq<char>, generation: u64)
    ensures
        same_requests(app, app.recovery_timed_out(agent_id, generation)),
{
    reveal(same_requests);
    reveal(AppView::recovery_timed_out);
}

proof fn lemma_agents_discovered(app: AppView, generation: u64, found: Seq<AvailableAgent>)
    ensures
        same_requests(app, app.agents_discovered(generation, found)),
{
    reveal(same_requests);
    reveal(AppView::agents_discovered);
}

proof fn lemma_preflight_done(app: AppView, result: PreflightResult)
    ensures
        same_requests(app, app.preflight_done(result)),
{
    reveal(same_requests);
    reveal(AppView::preflight_done);
}

proof fn lemma_hook_reported(app: AppView, e: WtEvent)
    ensures
        same_requests(app, app.hook_reported(e)),
{
    reveal(same_requests);
    reveal(AppView::hook_reported);
}

proof fn lemma_tab_changed(app: AppView, params: JsonView)
    ensures
        same_requests(app, app.tab_changed(params)),
{
    reveal(same_requests);
    reveal(AppView::tab_changed);
}

proof fn lemma_tab_closed(app: AppView, params: JsonView)
    ensures
        same_requests(app, app.tab_closed(params)),
{
    reveal(same_requests);
    reveal(AppView::tab_closed);
}

proof fn lemma_tab_renamed(app: AppView, params: JsonView)
    ensures
        same_requests(app, app.tab_renamed(params)),
{
    reveal(same_requests);
    reveal(AppView::tab_renamed);
}

proof fn lemma_tab_reset(app: AppView, params: JsonView)
    ensures
        same_requests(app, app.tab_reset(params)),
{
    reveal(same_requests);
    reveal(AppView::tab_reset);
}

proof fn lemma_session_load_asked(app: AppView, params: JsonView)
    ensures
        same_requests(app, app.session_load_asked(params)),
{
    reveal(same_requests);
    reveal(AppView::session_load_asked);
}

proof fn lemma_state_set(app: AppView, params: JsonView)
    ensures
        same_requests(app, app.state_set(params)),
{
    reveal(same_requests);
    reveal(AppView::state_set);
}

proof fn lemma_configured(
    app: AppView,
    params: JsonView,
    cloud: Parsed<Vec<AcpModelInfo>>,
    custom: Parsed<Vec<CustomModelCatalogEntry>>,
)
    ensures
        same_requests(app, app.configured(params, cloud, custom)),
{
    reveal(same_requests);
    reveal(AppView::configured);
}

proof fn lemma_suggestion_dismissed(app: AppView, key: Seq<char>)
    ensures
        same_requests(app, app.suggestion_dismissed(key)),
{
    reveal(same_requests);
}

proof fn lemma_fix_dropped(app: AppView, key: Seq<char>)
    ensures
        same_requests(app, app.fix_dropped(key)),
{
    reveal(same_requests);
}

proof fn lemma_turn_cancelled(app: AppView, session_id: Seq<char>)
    ensures
        same_requests(app, app.turn_cancelled(session_id)),
{
    reveal(same_requests);
    lemma_fix_dropped(app, app.session_tab_key(session_id));
}

proof fn lemma_fix_outlived(app: AppView, key: Seq<char>, pane_id: Seq<char>)
    ensures
        same_requests(app, app.fix_outlived(key, pane_id)),
{
    reveal(same_requests);
    let s = app.fix_timed(key, pane_id);
    assert(same_requests(app, s));
    lemma_fix_dropped(s, key);
    if let Some(session_id) = s.tab(key).session_id {
        lemma_turn_cancelled(s, session_id);
    }
}

proof fn lemma_detection_dismissed(app: AppView, key: Seq<char>, pane_id: Seq<char>)
    ensures
        same_requests(app, app.detection_dismissed(key, pane_id)),
{
    reveal(same_requests);
}

proof fn lemma_echo_seen(app: AppView, tab_id: Option<Seq<char>>, pane_id: Seq<char>)
    ensures
        same_requests(app, app.echo_seen(tab_id, pane_id)),
{
    reveal(same_requests);
}

proof fn lemma_shell_marked(
    app: AppView,
    tab_id: Option<Seq<char>>,
    pane_id: Seq<char>,
    seq: Seq<char>,
)
    ensures
        same_requests(app, app.shell_marked(tab_id, pane_id, seq)),
{
    reveal(same_requests);
    reveal(AppView::shell_marked);
    let prompt = marks_prompt(seq);
    let moved_on = marks_success(seq) || (prompt && !app.is_echo(tab_id, pane_id));
    lemma_echo_seen(app, tab_id, pane_id);
    let s0 = if prompt {
        app.echo_seen(tab_id, pane_id)
    } else {
        app
    };
    let s1 = if moved_on && s0.is_armed(tab_id, pane_id) {
        lemma_fix_outlived(s0, tab_id->0, pane_id);
        s0.fix_outlived(tab_id->0, pane_id)
    } else {
        s0
    };
    if let Some(key) = tab_id {
        lemma_suggestion_dismissed(s1, key);
        let s2 = if marks_success(seq) || prompt {
            s1.suggestion_dismissed(key)
        } else {
            s1
        };
        lemma_detection_dismissed(s2, key, pane_id);
    }
}

proof fn lemma_notified(app: AppView, n: WtNotification)
    ensures
        same_requests(app, app.notified(n)),
{
    reveal(same_requests);
    reveal(AppView::notified);
}

proof fn lemma_pane_event(app: AppView, e: WtEvent)
    ensures
        same_requests(app, app.pane_event(e)),
{
    reveal(same_requests);
    reveal(AppView::pane_event);
    let s0 = if e.method@ == "connection_state"@ {
        app.connection_changed(e.pane_id@, e.params@)
    } else {
        app
    };
    let s1 = if e.method@ == "vt_sequence"@ {
        s0.shell_returned(e.pane_id@, e.params@.text_or_empty("sequence"@), e.pane_origin)
    } else {
        s0
    };
    let s2 = s1.failure_counted(e.notification, e.method@, e.pane_id@);
    lemma_shell_marked(
        s2,
        opt_view(e.tab_id),
        e.pane_id@,
        e.params@.text_or_empty("sequence"@),
    );
    lemma_notified(s2.event_surfaced(e), e.notification);
}

proof fn lemma_terminal_told(app: AppView, e: WtEvent)
    ensures
        same_requests(app, app.terminal_told(e)),
{
    reveal(same_requests);
    reveal(AppView::terminal_told);
    lemma_hook_reported(app, e);
    lemma_configured(app, e.params@, e.cloud_models, e.custom_models);
    lemma_tab_changed(app, e.params@);
    lemma_tab_closed(app, e.params@);
    lemma_tab_renamed(app, e.params@);
    lemma_tab_reset(app, e.params@);
    lemma_session_load_asked(app, e.params@);
    lemma_state_set(app, e.params@);
    lemma_pane_event(app, e);
}

proof fn lemma_connected(
    app: AppView,
    agent: AgentView,
    session_id: Seq<char>,
    given: ModelConfigView,
    welcome_shown: bool,
)
    ensures
        same_requests(app, connected(app, agent, session_id, given, welcome_shown)),
{
    reveal(same_requests);
    reveal(connected);
}

proof fn lemma_attached(
    app: AppView,
    tab_id: Seq<char>,
    session_id: Seq<char>,
    given: ModelConfigView,
)
    ensures
        same_requests(app, attached(app, tab_id, session_id, given)),
{
    reveal(same_requests);
    reveal(attached);
}

proof fn lemma_turn_stopped(app: AppView)
    ensures
        same_requests(app, app.turn_stopped()),
{
    reveal(same_requests);
    reveal(AppView::turn_stopped);
}

proof fn lemma_session_begun(app: AppView)
    ensures
        same_requests(app, app.session_begun()),
{
    reveal(same_requests);
    reveal(AppView::session_begun);
}

proof fn lemma_stack_restarted(app: AppView)
    ensures
        same_requests(app, app.stack_restarted()),
{
    reveal(same_requests);
    reveal(AppView::stack_restarted);
}

proof fn lemma_fix_asked(app: AppView, hint: String)
    ensures
        same_requests(app, app.fix_asked(hint)),
{
    reveal(same_requests);
    reveal(AppView::fix_asked);
}

proof fn lemma_model_asked(app: AppView, rest: Seq<char>)
    ensures
        same_requests(app, app.model_asked(rest)),
{
    reveal(same_requests);
    reveal(AppView::model_asked);
}

proof fn lemma_options_asked(app: AppView)
    ensures
        same_requests(app, app.options_asked()),
{
    reveal(same_requests);
    reveal(AppView::options_asked);
}

proof fn lemma_move_asked(app: AppView, rest: Seq<char>)
    ensures
        same_requests(app, app.move_asked(rest)),
{
    reveal(same_requests);
    reveal(AppView::move_asked);
}

proof fn lemma_agent_asked(app: AppView, rest: Seq<char>)
    ensures
        same_requests(app, app.agent_asked(rest)),
{
    reveal(same_requests);
    reveal(AppView::agent_asked);
}

proof fn lemma_same_tabs(app: AppView, after: AppView)
    requires
        after.tabs == app.tabs,
    ensures
        same_requests(app, after),
{
    reveal(same_requests);
}

proof fn lemma_with_tab(app: AppView, key: Seq<char>, tab: TabView)
    requires
        tab.permission == app.tab(key).permission,
        tab.user_input == app.tab(key).user_input,
    ensures
        same_requests(app, app.with_tab(key, tab)),
{
    reveal(same_requests);
}

proof fn lemma_noticed(app: AppView, key: Seq<char>, m: ChatMessageView)
    ensures
        same_requests(app, app.noticed(key, m)),
{
    reveal(same_requests);
}

proof fn lemma_informed(app: AppView, message: String)
    ensures
        same_requests(app, app.after(AppEvent::ExecutionInfo(message))),
{
    reveal(same_requests);
}

// ---------------------------------------------------------------------------
// Laws
// ---------------------------------------------------------------------------

/// No event but a request of the agent itself, or one taken back, changes what
/// requests wait.
pub proof fn law_other_events_keep_the_requests(app: AppView, event: AppEvent)
    requires
        !is_request(event),
    ensures
        same_requests(app, app.after(event)),
{
    match event {
        AppEvent::Key(key) => lemma_key_pressed(app, key),
        AppEvent::Mouse(m) => lemma_mouse_moved(app, m),
        AppEvent::Tick => lemma_ticked(app),
        AppEvent::SelectionCopied { now_ms } => lemma_selection_copied(app, now_ms),
        AppEvent::CloudModelsAvailable(models) => lemma_cloud_models_known(
            app,
            models_view(models@),
        ),
        AppEvent::AgentConnected {
            name,
            model,
            version,
            session_id,
            available_models,
            current_model_id,
            load_session_supported,
            image_supported,
            welcome_shown,
        } => lemma_connected(
            app,
            introduced(
                app.agent,
                name@,
                opt_view(model),
                opt_view(version),
                load_session_supported,
                image_supported,
            ),
            session_id@,
            given_config(available_models, current_model_id),
            welcome_shown,
        ),
        AppEvent::SessionAttached {
            tab_id,
            session_id,
            available_models,
            current_model_id,
        } => lemma_attached(
            app,
            tab_id@,
            session_id@,
            given_config(available_models, current_model_id),
        ),
        AppEvent::UsageReported { session_id, snapshot } => lemma_usage_reported(
            app,
            session_id@,
            snapshot,
        ),
        AppEvent::UsageCleared { session_id } => lemma_usage_cleared(app, session_id@),
        AppEvent::ModelConfigUpdated { session_id, available_models, current_model_id } =>
            lemma_model_config_updated(
            app,
            session_id@,
            given_config(available_models, current_model_id),
        ),
        AppEvent::ModelSetCompleted { session_id, model, pane_override } => lemma_model_set(
            app,
            session_id@,
            model@,
            pane_override,
        ),
        AppEvent::ModelSetFailed { session_id, model, pane_override, message } =>
            lemma_model_set_failed(
            app,
            session_id@,
            model@,
            pane_override,
            message@,
        ),
        AppEvent::SessionConfigUpdated { session_id, options } => lemma_options_updated(
            app,
            session_id@,
            options_view(options@),
        ),
        AppEvent::SessionConfigSetCompleted {
            session_id,
            config_id,
            value,
            model_compat,
        } => lemma_option_set(
            app,
            session_id@,
            config_id@,
            value@,
            model_compat,
        ),
        AppEvent::SessionConfigSetFailed { session_id, config_id, message } =>
            lemma_option_set_failed(
            app,
            session_id@,
            config_id@,
            message@,
        ),
        AppEvent::TabError { tab_id, message } => lemma_tab_failed(app, tab_id@, message@),
        AppEvent::AgentError { session_id, failure, message } => lemma_agent_failed(
            app,
            opt_view(session_id),
            failure,
            message,
        ),
        AppEvent::AgentMessageChunk { session_id, text } => lemma_agent_said(
            app,
            session_id@,
            text@,
        ),
        AppEvent::UserMessageReplayChunk { session_id, text } => lemma_user_replayed(
            app,
            session_id@,
            text@,
        ),
        AppEvent::AgentMessageEnd { session_id } => lemma_answer_ended(app, session_id@),
        AppEvent::ToolCall { session_id, card } => lemma_card_added(
            app,
            session_id@,
            ChatMessageView::ToolCall(card@),
        ),
        AppEvent::ToolCallUpdate { session_id, patch } => lemma_card_patched(
            app,
            session_id@,
            patch,
        ),
        AppEvent::ToolTerminalOutput { session_id, news } => lemma_terminal_updated(
            app,
            session_id@,
            news,
        ),
        AppEvent::HideToolCall { session_id, id } => lemma_card_hidden(app, session_id@, id@),
        AppEvent::Plan { session_id, entries } => lemma_card_added(
            app,
            session_id@,
            ChatMessageView::Plan(entries@),
        ),
        AppEvent::DebugPipeMessage(message) => lemma_debug_noted(app, message),
        AppEvent::WtEvent(e) => lemma_terminal_told(app, e),
        AppEvent::InstallChecked { agent_id, status, profile, options } => lemma_install_checked(
            app,
            agent_id,
            status,
            profile,
            options,
        ),
        AppEvent::LoginProgress { device_code, verify_url } => lemma_login_progressed(
            app,
            device_code,
            verify_url,
        ),
        AppEvent::LoginComplete { agent_id, success, error } => lemma_login_completed(
            app,
            agent_id@,
            success,
            error,
        ),
        AppEvent::PostLoginAuthRecovery { tab_id, agent_id } => lemma_recovering(
            app,
            opt_view(tab_id),
            agent_id@,
        ),
        AppEvent::AuthRecoveryTimedOut { agent_id, generation } => lemma_recovery_timed_out(
            app,
            agent_id@,
            generation,
        ),
        AppEvent::AgentSourcesDiscovered { generation, host_agents, wsl_sources } =>
            lemma_agents_discovered(
            app,
            generation,
            host_agents@ + wsl_sources@,
        ),
        AppEvent::PreflightComplete(result) => lemma_preflight_done(app, result),
        AppEvent::TabSystemMessage { tab_id, message } => lemma_noticed(
            app,
            tab_id@,
            notice(NoticeKind::Info, PhraseOf::Text(message@)),
        ),
        AppEvent::AgentPasteTextFailed { tab_id, generation } => {
            lemma_with_tab(app, tab_id@, TabView { paste_pending: false, ..app.tab(tab_id@) });
            lemma_same_tabs(app, app);
        },
        AppEvent::AgentSoftStop { session_id, reason } => lemma_noticed(
            app,
            app.session_tab_key(session_id@),
            ChatMessageView::System(stop_phrase(reason)),
        ),
        AppEvent::AgentBusy { tab_id } => lemma_noticed(
            app,
            tab_id@,
            notice(NoticeKind::Warning, PhraseOf::AgentBusy),
        ),
        AppEvent::ExecutionInfo(message) => lemma_informed(app, message),
        AppEvent::TimingMetric { session_id, note } => lemma_with_tab(
            app,
            app.session_tab_key(session_id@),
            TabView { timing_note: Some(note@), ..app.session_tab(session_id@) },
        ),
        AppEvent::SystemMessage(message) => lemma_noticed(
            app,
            app.active_key(),
            notice(NoticeKind::Error, PhraseOf::Text(message@)),
        ),
        _ => lemma_same_tabs(app, app.after(event)),
    }
}

/// No command of the user changes what requests wait.
pub proof fn law_commands_keep_the_requests(app: AppView, kind: CommandKind, rest: String)
    ensures
        same_requests(app, app.commanded(kind, rest)),
{
    match kind {
        CommandKind::Help => lemma_same_tabs(app, app.commanded(kind, rest)),
        CommandKind::Clear => lemma_with_tab(
            app,
            app.active_key(),
            app.current_tab().history_cleared(),
        ),
        CommandKind::New => lemma_session_begun(app),
        CommandKind::Stop => lemma_turn_stopped(app),
        CommandKind::Sessions => {
            reveal(same_requests);
        },
        CommandKind::Restart => lemma_stack_restarted(app),
        CommandKind::Fix => lemma_fix_asked(app, rest),
        CommandKind::Model => lemma_model_asked(app, rest@),
        CommandKind::Config => lemma_options_asked(app),
        CommandKind::Move => lemma_move_asked(app, rest@),
        CommandKind::Agent => lemma_agent_asked(app, rest@),
    }
}

/// Whether a tab keeps a request that waits for its answer by a ticket.
pub open spec fn awaits(tab: TabView, ticket: u64) -> bool {
    ||| exists|i: int|
        0 <= i < tab.permission.len() && (#[trigger] tab.permission[i]).responder == Some(ticket)
    ||| exists|i: int|
        0 <= i < tab.user_input.len() && (#[trigger] tab.user_input[i]).responder == Some(ticket)
}

/// Whether an event brings a request that is to be answered by a ticket, for the
/// tab of a key.
pub open spec fn brings(app: AppView, event: AppEvent, key: Seq<char>, ticket: u64) -> bool {
    match event {
        AppEvent::PermissionRequest { session_id, responder, .. } => responder == ticket
            && app.session_tab_key(session_id@) == key,
        AppEvent::UserInputRequest { session_id, responder, .. } => responder == ticket
            && app.session_tab_key(session_id@) == key,
        _ => false,
    }
}

/// The agent's requests are never lost: one that waits in a tab, or comes for it,
/// waits there after any event, or the event has it denied.
pub proof fn law_every_request_waits_or_is_denied(
    app: AppView,
    event: AppEvent,
    key: Seq<char>,
    ticket: u64,
)
    requires
        awaits(app.tab(key), ticket) || brings(app, event, key, ticket),
    ensures
        awaits(app.after(event).tab(key), ticket) || (app.after(event).effects.len()
            > app.effects.len() && app.after(event).effects.last() == EffectView::DenyRequest {
            responder: ticket,
        }),
{
    let before = app.tab(key);
    let after = app.after(event).tab(key);
    if !is_request(event) {
        law_other_events_keep_the_requests(app, event);
        reveal(same_requests);
        assert(after.permission == before.permission && after.user_input == before.user_input);
    } else {
        reveal(AppView::permission_asked);
        reveal(AppView::user_asked);
        reveal(AppView::question_cancelled);
        match event {
            AppEvent::CancelUserInputRequest { request_id, session_id } => {
                if app.session_tab_key(session_id@) == key {
                    lemma_cancelled_or_kept(before.user_input, request_id@, ticket);
                }
            },
            _ => {
                if brings(app, event, key, ticket) && app.tab(key).can_be_asked() {
                    if event is PermissionRequest {
                        assert(after.permission.last().responder == Some(ticket));
                    } else {
                        assert(after.user_input.last().responder == Some(ticket));
                    }
                }
                lemma_growing_keeps(before, after, ticket);
            },
        }
    }
}

proof fn lemma_growing_keeps(before: TabView, after: TabView, ticket: u64)
    requires
        before.permission.is_prefix_of(after.permission),
        before.user_input.is_prefix_of(after.user_input),
    ensures
        awaits(before, ticket) ==> awaits(after, ticket),
{
    if awaits(before, ticket) {
        if exists|i: int|
            0 <= i < before.permission.len() && (#[trigger] before.permission[i]).responder == Some(
                ticket,
            ) {
            let i = choose|i: int|
                0 <= i < before.permission.len() && (#[trigger] before.permission[i]).responder
                    == Some(ticket);
            assert(after.permission[i] == before.permission[i]);
        } else {
            let i = choose|i: int|
                0 <= i < before.user_input.len() && (#[trigger] before.user_input[i]).responder
                    == Some(ticket);
            assert(after.user_input[i] == before.user_input[i]);
        }
    }
}

/// Taking a question back leaves every other question waiting.
proof fn lemma_cancelled_or_kept(v: Seq<UserInputView>, id: Seq<char>, ticket: u64)
    ensures
        forall|i: int|
            0 <= i < v.len() && (#[trigger] v[i]).responder == Some(ticket) ==> responder_of(v, id)
                == Some(ticket) || exists|j: int|
                0 <= j < without_request(v, id).len() && (#[trigger] without_request(
                    v,
                    id,
                )[j]).responder == Some(ticket),
    decreases v.len(),
{
    if v.len() > 0 {
        let rest = v.skip(1);
        lemma_cancelled_or_kept(rest, id, ticket);
        let left = without_request(v, id);
        assert forall|i: int|
            0 <= i < v.len() && (#[trigger] v[i]).responder == Some(ticket) implies responder_of(
            v,
            id,
        ) == Some(ticket) || exists|j: int|
            0 <= j < left.len() && (#[trigger] left[j]).responder == Some(ticket) by {
            if v[0].request_id == id {
                if i > 0 {
                    assert(left[i - 1] == v[i]);
                }
            } else if i == 0 {
                assert(left[0] == v[0]);
            } else {
                assert(rest[i - 1] == v[i]);
                if responder_of(rest, id) != Some(ticket) {
                    let less = without_request(rest, id);
                    let j = choose|j: int|
                        0 <= j < less.len() && (#[trigger] less[j]).responder == Some(ticket);
                    assert(left[j + 1] == less[j]);
                }
            }
        }
    }
}

} // verus!
