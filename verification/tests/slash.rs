//! The commands that are typed behind a slash: what an input means, and what a
//! command does to the pane.

use wta::app::effect::{EffectOf, KeyCode, KeyEvent, KeyModifiers};
use wta::app::event::AppEvent;
use wta::app::popup::{agent_command_on_enter, PopupCandidates};
use wta::app::slash::build_switch_agent_event;
use wta::app::state::{
    AcpSessionConfigOption, AcpSessionConfigValue, AgentSource, App, AvailableAgent,
    ConnectionState,
};
use wta::commands::{
    classify, lookup, CommandKind, ParseOutcome, ParsedCommand, MOVE_POSITION_COUNT,
};
use wta::hooks::CliKind;
use wta::models::{AcpModelInfo, CustomModelCatalogEntry};
use wta::phrases::Phrase;
use wta::tab::{PanePosition, PaneView, TabSession};
use wta::transcript::{ChatMessage, NoticeKind};

/// Dispatch a zero-arg slash command by name through the real
/// `handle_slash_command` path, the way the Enter handler does.
fn run_slash(app: &mut App, name: &str) {
    let spec = lookup(name).expect("name is a registered command");
    app.handle_slash_command(ParsedCommand {
        kind: spec.kind,
        spec,
        rest: String::new(),
    });
}

fn custom_model(selection_id: &str, model_id: &str) -> CustomModelCatalogEntry {
    CustomModelCatalogEntry {
        selection_id: selection_id.into(),
        api_contract: "openai".into(),
        model_id: model_id.into(),
    }
}

fn last_notice(app: &App) -> (NoticeKind, &Phrase) {
    match tab(app).messages.last() {
        Some(ChatMessage::Notice { kind, text }) => (*kind, text),
        _ => panic!("expected an inline notice"),
    }
}

fn test_app() -> App {
    let mut app = App::default();
    app.current_tab_mut();
    app
}

fn tab(app: &App) -> &TabSession {
    app.current_tab().expect("the tab in front is known")
}

/// The one request for an option of a session that the pane has made.
fn config_request(app: &App) -> (&str, &str, &str) {
    let mut found = Vec::new();
    for effect in &app.effects {
        if let EffectOf::SetConfigOption {
            session_id,
            config_id,
            value,
        } = effect
        {
            found.push((session_id.as_str(), config_id.as_str(), value.as_str()));
        }
    }
    assert_eq!(found.len(), 1);
    found[0]
}

// ---- classify — the pure input → intent mapping ----

#[test]
fn classify_known_command() {
    match classify("/stop") {
        ParseOutcome::Command(c) => assert_eq!(c.kind, CommandKind::Stop),
        other => panic!("expected Command, got {other:?}"),
    }
    match classify("/help me please") {
        ParseOutcome::Command(c) => {
            assert_eq!(c.kind, CommandKind::Help);
            assert_eq!(c.rest, "me please");
        }
        other => panic!("expected Command, got {other:?}"),
    }
}

#[test]
fn classify_unknown_keeps_attempted_token() {
    // Token carries its leading `/`, and trailing args are dropped from it.
    assert_eq!(
        classify("/nope"),
        ParseOutcome::Unknown("/nope".to_string())
    );
    assert_eq!(
        classify("/nope foo bar"),
        ParseOutcome::Unknown("/nope".to_string())
    );
    // Leading whitespace is trimmed before the token is taken.
    assert_eq!(
        classify("   /missing"),
        ParseOutcome::Unknown("/missing".to_string())
    );
}

#[test]
fn classify_not_a_command() {
    assert_eq!(classify("hello"), ParseOutcome::NotCommand);
    // `//literal` escape is a prompt, not an unknown-command warning.
    assert_eq!(classify("//etc/hosts"), ParseOutcome::NotCommand);
    // Bare slash / whitespace-only slash have no token to name.
    assert_eq!(classify("/"), ParseOutcome::NotCommand);
    assert_eq!(classify("/  "), ParseOutcome::NotCommand);
    // A `/` in the middle of a prompt is not an attempt.
    assert_eq!(
        classify("run cmd /flag"),
        ParseOutcome::NotCommand
    );
}

// ---- App dispatch — state effects via handle_slash_command ----

#[test]
fn slash_help_toggles_overlay() {
    let mut app = test_app();
    assert!(!app.screen.help_overlay_visible);
    run_slash(&mut app, "help");
    assert!(app.screen.help_overlay_visible);
    run_slash(&mut app, "help");
    assert!(!app.screen.help_overlay_visible);
}

#[test]
fn slash_clear_wipes_active_tab_history() {
    let mut app = test_app();
    app.current_tab_mut()
        .messages
        .push(ChatMessage::System(Phrase::Text("stale".into())));
    app.current_tab_mut().selected_completed_turn_idx = Some(0);

    run_slash(&mut app, "clear");

    assert!(tab(&app).messages.is_empty());
    assert_eq!(tab(&app).selected_completed_turn_idx, None);
}

#[test]
fn slash_stop_when_idle_notes_nothing_to_stop() {
    let mut app = test_app();
    // Fresh tab: turn is Idle, so /stop only emits the advisory message.
    assert!(!tab(&app).turn.is_in_flight());

    run_slash(&mut app, "stop");

    assert_eq!(tab(&app).messages.len(), 1);
    assert_eq!(last_notice(&app).0, NoticeKind::Info);
}

#[test]
fn slash_new_when_idle_resets_session() {
    let mut app = test_app();
    app.current_tab_mut().session_id = Some("sid-1".into());
    app.current_tab_mut()
        .messages
        .push(ChatMessage::System(Phrase::Text("stale".into())));

    run_slash(&mut app, "new");

    assert_eq!(tab(&app).session_id, None);
    assert!(tab(&app).messages.is_empty());
}

/// Dispatch a slash command with free-form args (e.g. `/model gpt-5`) through
/// the same `handle_slash_command` path the Enter handler uses.
fn run_slash_args(app: &mut App, name: &str, rest: &str) {
    let spec = lookup(name).expect("name is a registered command");
    app.handle_slash_command(ParsedCommand {
        kind: spec.kind,
        spec,
        rest: rest.to_string(),
    });
}

#[test]
fn slash_sessions_opens_agents_view() {
    let mut app = test_app();
    assert_eq!(tab(&app).current_view, PaneView::Chat);

    run_slash(&mut app, "sessions");

    assert_eq!(
        tab(&app).current_view,
        PaneView::Agents,
        "/sessions must switch the active tab to the session-management view"
    );
}

#[test]
fn slash_restart_resets_connection_and_clears_sessions() {
    let mut app = test_app();
    app.agent.state = ConnectionState::Connected;
    app.ids.session_id = "live-sid".to_string();
    app.current_tab_mut().session_id = Some("tab-sid".into());
    app.current_tab_mut()
        .messages
        .push(ChatMessage::System(Phrase::Text("stale".into())));

    run_slash(&mut app, "restart");

    assert!(
        matches!(app.agent.state, ConnectionState::Connecting(_)),
        "/restart must move the connection into Connecting while the stack respawns"
    );
    assert!(
        app.ids.session_id.is_empty(),
        "/restart must clear the process-level session id"
    );
    assert_eq!(
        tab(&app).session_id,
        None,
        "/restart must drop each tab's session so the next prompt gets a fresh one"
    );
    assert!(
        tab(&app).messages.is_empty(),
        "/restart must wipe per-tab chat history"
    );
}

#[test]
fn slash_fix_when_idle_submits_autofix_turn() {
    let mut app = test_app();
    app.agent.state = ConnectionState::Connected;
    let gen_before = tab(&app).autofix.generation;
    assert!(tab(&app).turn.is_idle());

    run_slash(&mut app, "fix");

    assert!(
        !tab(&app).turn.is_idle(),
        "/fix on an idle tab must submit an autofix turn"
    );
    assert_eq!(
        tab(&app).autofix.generation,
        gen_before.wrapping_add(1),
        "/fix must bump the autofix generation so stale responses are dropped"
    );
}

#[test]
fn slash_fix_while_busy_does_not_resubmit() {
    let mut app = test_app();
    app.agent.state = ConnectionState::Connected;
    // First /fix arms an in-flight turn.
    run_slash(&mut app, "fix");
    assert!(!tab(&app).turn.is_idle());
    let gen_after_first = tab(&app).autofix.generation;

    // Second /fix while busy must be refused (busy advisory), not resubmitted.
    run_slash(&mut app, "fix");
    assert_eq!(
        tab(&app).autofix.generation,
        gen_after_first,
        "/fix while a turn is in flight must not bump generation / resubmit"
    );
    assert_eq!(last_notice(&app).0, NoticeKind::Warning);
}

#[test]
fn slash_model_without_models_notes_none() {
    let mut app = test_app();
    assert!(app.catalog.available_models.is_empty());

    run_slash(&mut app, "model");

    assert!(
        !tab(&app).model_picker_open,
        "/model must not open the picker when no models are available"
    );
    assert_eq!(last_notice(&app).0, NoticeKind::Info);
}

fn config_option(
    id: &str,
    name: &str,
    category: &str,
    current_value: &str,
) -> AcpSessionConfigOption {
    AcpSessionConfigOption {
        id: id.into(),
        name: name.into(),
        description: Some(format!("Configure {name}")),
        category: Some(category.into()),
        current_value: current_value.into(),
        values: vec![
            AcpSessionConfigValue {
                id: "ask".into(),
                name: "Ask".into(),
                description: None,
            },
            AcpSessionConfigValue {
                id: "code".into(),
                name: "Code".into(),
                description: Some("Write code".into()),
            },
        ],
    }
}

#[test]
fn slash_config_without_options_notes_none() {
    let mut app = test_app();

    run_slash(&mut app, "config");

    assert!(!tab(&app).config_picker.is_open());
    assert_eq!(last_notice(&app).0, NoticeKind::Info);
}

#[test]
fn slash_config_opens_ordered_session_options() {
    let mut app = test_app();
    app.current_tab_mut().session_id = Some("session-1".into());
    app.handle_event(AppEvent::SessionConfigUpdated {
        session_id: "session-1".into(),
        options: vec![
            config_option("mode", "Mode", "mode", "ask"),
            config_option("reasoning", "Reasoning", "thought_level", "code"),
        ],
    });

    run_slash(&mut app, "config");

    let state = app.config_popup_state().expect("config picker state");
    assert_eq!(state.options[0].name, "Mode");
    assert_eq!(state.options[1].name, "Reasoning");
    assert!(state.value_option.is_none());
}

#[test]
fn slash_model_opens_the_standard_model_config_option() {
    let mut app = test_app();
    app.current_tab_mut().session_id = Some("session-1".into());
    app.handle_event(AppEvent::SessionConfigUpdated {
        session_id: "session-1".into(),
        options: vec![config_option("agent-model", "Model", "model", "ask")],
    });

    run_slash(&mut app, "model");

    assert!(!tab(&app).model_picker_open);
    assert!(tab(&app).config_picker.is_open());
    assert_eq!(
        tab(&app).config_picker.option_id(),
        Some("agent-model")
    );
}

#[test]
fn escape_from_slash_model_closes_the_config_picker() {
    let mut app = test_app();
    app.current_tab_mut().session_id = Some("session-1".into());
    app.handle_event(AppEvent::SessionConfigUpdated {
        session_id: "session-1".into(),
        options: vec![config_option("agent-model", "Model", "model", "ask")],
    });

    run_slash(&mut app, "model");
    app.config_picker_escape();

    assert!(!tab(&app).config_picker.is_open());
}

#[test]
fn escape_from_config_value_picker_returns_to_option_list() {
    let mut app = test_app();
    app.current_tab_mut().session_id = Some("session-1".into());
    app.handle_event(AppEvent::SessionConfigUpdated {
        session_id: "session-1".into(),
        options: vec![config_option("agent-model", "Model", "model", "ask")],
    });

    run_slash(&mut app, "config");
    app.config_picker_enter();
    app.config_picker_escape();

    assert!(tab(&app).config_picker.is_open());
    assert!(tab(&app).config_picker.option_id().is_none());
}

#[test]
fn slash_model_selection_uses_the_generic_config_request_lifecycle() {
    let mut app = test_app();
    app.current_tab_mut().session_id = Some("session-1".into());
    app.handle_event(AppEvent::SessionConfigUpdated {
        session_id: "session-1".into(),
        options: vec![config_option("agent-model", "Model", "model", "ask")],
    });

    run_slash(&mut app, "model");
    app.config_picker_down();
    app.config_picker_enter();

    assert_eq!(
        config_request(&app),
        ("session-1", "agent-model", "code")
    );
    assert!(!tab(&app).config_picker.is_open());
    assert_eq!(
        tab(&app).config_pending_id.as_deref(),
        Some("agent-model")
    );
    assert!(tab(&app).model_override.is_none());

    app.handle_event(AppEvent::SessionConfigSetCompleted {
        session_id: "session-1".into(),
        config_id: "agent-model".into(),
        value: "code".into(),
        model_compat: true,
    });

    assert!(tab(&app).config_pending_id.is_none());
    assert_eq!(tab(&app).model_override.as_deref(), Some("code"));
    assert!(
        app.config_popup_state().is_none(),
        "the /model deep link remains closed after completion"
    );
}

#[test]
fn failed_model_config_selection_keeps_the_previous_model() {
    let mut app = test_app();
    app.current_tab_mut().session_id = Some("session-1".into());
    app.handle_event(AppEvent::SessionConfigUpdated {
        session_id: "session-1".into(),
        options: vec![config_option("agent-model", "Model", "model", "ask")],
    });

    run_slash(&mut app, "model");
    app.config_picker_down();
    app.config_picker_enter();
    app.handle_event(AppEvent::SessionConfigSetFailed {
        session_id: "session-1".into(),
        config_id: "agent-model".into(),
        message: "rejected".into(),
    });

    assert!(tab(&app).config_pending_id.is_none());
    assert!(tab(&app).model_override.is_none());
    assert_eq!(last_notice(&app).0, NoticeKind::Error);
}

#[test]
fn config_picker_select_sends_session_scoped_option_request() {
    let mut app = test_app();
    app.current_tab_mut().session_id = Some("session-1".into());
    app.handle_event(AppEvent::SessionConfigUpdated {
        session_id: "session-1".into(),
        options: vec![config_option("mode", "Mode", "mode", "ask")],
    });
    run_slash(&mut app, "config");

    app.config_picker_enter();
    assert_eq!(tab(&app).config_picker.option_id(), Some("mode"));
    app.config_picker_down();
    app.config_picker_enter();

    assert_eq!(
        config_request(&app),
        ("session-1", "mode", "code")
    );
    assert_eq!(tab(&app).config_pending_id.as_deref(), Some("mode"));

    app.handle_event(AppEvent::SessionConfigUpdated {
        session_id: "session-1".into(),
        options: vec![config_option("mode", "Mode", "mode", "code")],
    });
    app.handle_event(AppEvent::SessionConfigSetCompleted {
        session_id: "session-1".into(),
        config_id: "mode".into(),
        value: "code".into(),
        model_compat: false,
    });

    assert_eq!(
        app.config_popup_state().unwrap().options[0].current_value,
        "code"
    );
    assert!(tab(&app).config_pending_id.is_none());
    assert_eq!(last_notice(&app).0, NoticeKind::Success);
    match last_notice(&app).1 {
        Phrase::OptionSet { option, value } => {
            assert_eq!(option, "Mode");
            assert_eq!(value, "Code");
        }
        _ => panic!("expected the option and its value"),
    }
}

#[test]
fn unbound_background_config_update_does_not_close_current_picker() {
    let mut app = test_app();
    app.current_tab_mut().session_id = Some("current-session".into());
    app.handle_event(AppEvent::SessionConfigUpdated {
        session_id: "current-session".into(),
        options: vec![config_option("mode", "Mode", "mode", "ask")],
    });
    run_slash(&mut app, "config");

    app.handle_event(AppEvent::SessionConfigUpdated {
        session_id: "background-session".into(),
        options: Vec::new(),
    });

    assert!(tab(&app).config_picker.is_open());
    assert_eq!(app.config_popup_state().unwrap().options[0].id, "mode");
}

#[test]
fn unbound_background_config_failure_does_not_pollute_current_tab() {
    let mut app = test_app();
    app.current_tab_mut().session_id = Some("current-session".into());
    let message_count = tab(&app).messages.len();

    app.handle_event(AppEvent::SessionConfigSetFailed {
        session_id: "closed-session".into(),
        config_id: "mode".into(),
        message: "the session is no longer active".into(),
    });

    assert_eq!(tab(&app).messages.len(), message_count);
}

#[test]
fn slash_model_bare_opens_picker_when_models_present() {
    let mut app = test_app();
    let selected = "custom:provider:local";
    app.set_custom_model_config(vec![custom_model(selected, "local")], Some(selected.into()));

    run_slash(&mut app, "model");

    assert!(
        tab(&app).model_picker_open,
        "bare /model must open the model picker when models are available"
    );
}

#[test]
fn slash_model_shows_cloud_models() {
    let mut app = test_app();
    app.set_cloud_models(vec![AcpModelInfo {
        id: "cloud".into(),
        name: "Cloud".into(),
        description: None,
    }]);

    run_slash(&mut app, "model");

    assert!(tab(&app).model_picker_open);
    assert_eq!(app.catalog.picker_models[0].id, "cloud");
}

#[test]
fn custom_provider_models_replace_agent_duplicates_and_use_byok_labels() {
    let mut app = test_app();
    app.set_custom_model_config(
        vec![
            custom_model("custom:provider-one:qwen/qwen3.5-9b", "qwen/qwen3.5-9b"),
            custom_model(
                "custom:provider-two:deepseek/deepseek-v4-flash",
                "deepseek/deepseek-v4-flash",
            ),
        ],
        Some("custom:provider-two:deepseek/deepseek-v4-flash".into()),
    );

    let merged = app.merge_custom_models(vec![
        AcpModelInfo {
            id: "intelligent-terminal/deepseek/deepseek-v4-flash".into(),
            name: "deepseek/deepseek-v4-flash".into(),
            description: None,
        },
        AcpModelInfo {
            id: "native".into(),
            name: "Native".into(),
            description: None,
        },
    ]);

    assert_eq!(merged.len(), 3);
    assert!(merged.iter().any(|model| model.id == "native"));
    assert!(merged.iter().any(|model| {
        model.id == "custom:provider-one:qwen/qwen3.5-9b" && model.name == "qwen/qwen3.5-9b (BYOK)"
    }));
    assert!(merged.iter().any(|model| {
        model.id == "custom:provider-two:deepseek/deepseek-v4-flash"
            && model.name == "deepseek/deepseek-v4-flash (BYOK)"
    }));
    assert_eq!(
        app.catalog.current_model_id.as_deref(),
        Some("custom:provider-two:deepseek/deepseek-v4-flash")
    );
}

#[test]
fn custom_provider_models_normalize_metadata_and_drop_empty_entries() {
    let mut app = test_app();
    app.set_custom_model_config(
        vec![
            custom_model("  custom:provider:model  ", "  provider/model  "),
            custom_model("   ", "  ignored/model  "),
            custom_model("  custom:provider:ignored  ", "   "),
        ],
        Some("  custom:provider:model  ".into()),
    );

    assert_eq!(app.catalog.custom_models.len(), 1);
    let entry = &app.catalog.custom_models[0];
    assert_eq!(entry.selection_id, "custom:provider:model");
    assert_eq!(entry.model_id, "provider/model");
    assert_eq!(entry.api_contract, "openai");
    assert_eq!(app.catalog.available_models.len(), 1);
    assert_eq!(app.catalog.available_models[0].id, "custom:provider:model");
    assert_eq!(app.catalog.available_models[0].name, "provider/model (BYOK)");
    assert_eq!(
        app.catalog.current_model_id.as_deref(),
        Some("custom:provider:model")
    );
}

#[test]
fn helper_status_catalog_combines_cloud_agent_and_byok_models() {
    let mut app = test_app();
    app.set_cloud_models(vec![AcpModelInfo {
        id: "shared-model".into(),
        name: "Shared cloud model".into(),
        description: None,
    }]);
    app.set_custom_model_config(
        vec![custom_model(
            "custom:provider-one:shared-model",
            "shared-model",
        )],
        None,
    );
    app.handle_event(AppEvent::AgentConnected {
        name: "Test Agent".into(),
        model: None,
        version: None,
        session_id: "session-1".into(),
        available_models: vec![AcpModelInfo {
            id: "agent-only".into(),
            name: "Agent model".into(),
            description: None,
        }],
        current_model_id: Some("agent-only".into()),
        load_session_supported: false,
        image_supported: false,
        welcome_shown: true,
    });

    assert_eq!(app.catalog.available_models.len(), 3);
    assert!(app
        .catalog
        .available_models
        .iter()
        .any(|model| model.id == "shared-model"));
    assert!(app
        .catalog
        .available_models
        .iter()
        .any(|model| model.id == "agent-only"));
    assert!(app
        .catalog
        .available_models
        .iter()
        .any(|model| model.id == "custom:provider-one:shared-model"
            && model.name == "shared-model (BYOK)"));
    assert_eq!(app.catalog.picker_models.len(), 2);
    assert!(app
        .catalog
        .picker_models
        .iter()
        .all(|model| !model.id.starts_with("custom:")));
}

#[test]
fn private_cloud_catalog_survives_bare_agent_model_response() {
    let mut app = test_app();
    app.set_custom_model_config(vec![custom_model("custom:provider:byok", "byok")], None);
    app.handle_event(AppEvent::CloudModelsAvailable(vec![AcpModelInfo {
        id: "cloud-native".into(),
        name: "Cloud Native".into(),
        description: None,
    }]));
    app.handle_event(AppEvent::AgentConnected {
        name: "Test Agent".into(),
        model: None,
        version: None,
        session_id: "session-1".into(),
        available_models: Vec::new(),
        current_model_id: None,
        load_session_supported: false,
        image_supported: false,
        welcome_shown: true,
    });

    assert_eq!(app.catalog.cloud_models.len(), 1);
    assert_eq!(app.catalog.cloud_models[0].id, "cloud-native");
    assert!(
        app.catalog.agent_models.is_empty(),
        "private cloud metadata must not be reclassified as an ACP selector"
    );
    assert!(app
        .catalog
        .available_models
        .iter()
        .any(|model| model.id == "cloud-native"));
    assert!(app
        .catalog
        .available_models
        .iter()
        .any(|model| model.id == "custom:provider:byok"));
}

#[test]
fn agent_and_model_pickers_are_mutually_exclusive() {
    let mut app = test_app();
    let selected = "custom:provider:local";
    app.set_custom_model_config(vec![custom_model(selected, "local")], Some(selected.into()));

    app.open_model_picker();
    assert!(tab(&app).model_picker_open);
    assert!(!tab(&app).agent_picker_open);

    app.open_agent_picker(0);
    assert!(tab(&app).agent_picker_open);
    assert!(!tab(&app).model_picker_open);

    app.open_model_picker();
    assert!(tab(&app).model_picker_open);
    assert!(!tab(&app).agent_picker_open);
}

#[test]
fn slash_model_direct_current_byok_is_a_noop() {
    let mut app = test_app();
    let selected = "custom:provider:smart";
    app.set_custom_model_config(vec![custom_model(selected, "smart")], Some(selected.into()));

    run_slash_args(&mut app, "model", selected);

    assert_eq!(
        tab(&app).model_override.as_deref(),
        None,
        "confirming the current BYOK row must not create a pane override"
    );
    assert!(
        !tab(&app).model_picker_open,
        "confirming the current BYOK model must not leave the picker open"
    );
}

#[test]
fn slash_model_only_shows_cloud_choices_while_cloud_is_active() {
    let mut app = test_app();
    app.set_cloud_models(vec![AcpModelInfo {
        id: "cloud".into(),
        name: "Cloud".into(),
        description: None,
    }]);
    app.set_custom_model_config(vec![custom_model("custom:provider:local", "local")], None);
    app.catalog.current_model_id = Some("cloud".into());

    app.open_model_picker();
    let state = app.model_popup_state().expect("picker state");
    assert_eq!(state.models.len(), 1);
    assert_eq!(state.models[0].id, "cloud");
    assert_eq!(state.disabled, vec![false]);

    app.close_model_picker();
    run_slash_args(&mut app, "model", "custom:provider:local");
    assert_eq!(tab(&app).model_override, None);
    assert!(!tab(&app).model_picker_open);
    assert_eq!(last_notice(&app).0, NoticeKind::Error);
}

#[test]
fn slash_model_only_shows_selected_byok_while_byok_is_active() {
    let mut app = test_app();
    let selected = "custom:provider:local";
    app.set_cloud_models(vec![AcpModelInfo {
        id: "cloud".into(),
        name: "Cloud".into(),
        description: None,
    }]);
    app.set_custom_model_config(
        vec![
            custom_model(selected, "local"),
            custom_model("custom:provider:other", "other"),
        ],
        Some(selected.into()),
    );

    app.open_model_picker();
    let state = app.model_popup_state().expect("picker state");
    assert_eq!(state.models.len(), 1);
    assert_eq!(state.models[0].id, selected);
    assert_eq!(state.disabled, vec![false]);

    app.close_model_picker();
    run_slash_args(&mut app, "model", "custom:provider:other");
    assert_eq!(tab(&app).model_override, None);
    assert!(!tab(&app).model_picker_open);
    assert_eq!(last_notice(&app).0, NoticeKind::Error);

    run_slash_args(&mut app, "model", "cloud");
    assert_eq!(tab(&app).model_override, None);
    assert!(!tab(&app).model_picker_open);
    assert_eq!(last_notice(&app).0, NoticeKind::Error);
}

#[test]
fn slash_move_changes_only_the_active_tab() {
    let mut app = test_app();
    app.tab_mut("other-tab");

    run_slash_args(&mut app, "move", "l");

    assert_eq!(
        tab(&app).agent_pane_position,
        Some(PanePosition::Left),
        "/move l must normalize to the canonical left position"
    );
    assert_eq!(
        app.tab("other-tab").unwrap().agent_pane_position,
        None,
        "/move must not alter another tab's pane position"
    );
}

#[test]
fn slash_move_down_uses_bottom_pane_position() {
    let mut app = test_app();

    run_slash_args(&mut app, "move", "down");

    assert_eq!(
        tab(&app).agent_pane_position,
        Some(PanePosition::Bottom),
        "/move down must map to the Terminal pane position named bottom"
    );
}

#[test]
fn slash_move_invalid_argument_reopens_position_completion() {
    let mut app = test_app();

    run_slash_args(&mut app, "move", "sideways");

    assert_eq!(tab(&app).input, "/move ");
    assert_eq!(
        tab(&app).move_position_candidates().len(),
        MOVE_POSITION_COUNT
    );
    assert!(app.command_popup_state().is_some());
}

#[test]
fn move_position_popup_completes_alias_and_dispatches() {
    let mut app = test_app();
    type_input(&mut app, "/move r");

    assert_eq!(tab(&app).move_position_candidates().len(), 1);
    assert_eq!(
        tab(&app).selected_move_position().unwrap().name,
        "right"
    );
    assert!(app.try_handle_slash_on_enter());
    assert_eq!(tab(&app).agent_pane_position, Some(PanePosition::Right));
    assert!(tab(&app).input.is_empty());
}

#[test]
fn explicit_empty_agent_allowlist_is_fail_closed() {
    let mut app = test_app();
    app.set_allowed_agent_ids(vec![String::new()]);
    assert!(app.agent.available.is_empty());
}

#[test]
fn switch_agent_event_is_scoped_to_window_and_tab() {
    let agent = format!("{:?}", CliKind::Claude).to_lowercase();
    let payload = build_switch_agent_event(
        "42",
        "{tab-guid}",
        &agent,
        &AgentSource::Wsl {
            distro: "Ubuntu".to_string(),
        },
    );
    assert_eq!(payload.text_member("method").as_deref(), Some("switch_agent"));
    let params = payload.get("params").expect("params");
    assert_eq!(params.text_member("window_id").as_deref(), Some("42"));
    assert_eq!(params.text_member("tab_id").as_deref(), Some("{tab-guid}"));
    assert_eq!(params.text_member("agent_id").as_deref(), Some(agent.as_str()));
    assert_eq!(params.text_member("agent_source").as_deref(), Some("wsl"));
    assert_eq!(params.text_member("wsl_distro").as_deref(), Some("Ubuntu"));
}

fn seed_completion_agents(app: &mut App) {
    app.agent.available = vec![
        AvailableAgent {
            id: "copilot".into(),
            display_name: "GitHub Copilot".into(),
            source: AgentSource::Host,
        },
        AvailableAgent {
            id: "codex".into(),
            display_name: "Codex".into(),
            source: AgentSource::Host,
        },
        AvailableAgent {
            id: "gemini".into(),
            display_name: "Gemini".into(),
            source: AgentSource::Host,
        },
    ];
}

#[test]
fn agent_argument_completion_uses_available_agents_in_registry_order() {
    let mut app = test_app();
    seed_completion_agents(&mut app);
    type_input(&mut app, "/AGENT CO");

    let state = app.command_popup_state().expect("agent candidates");
    let PopupCandidates::Agents(candidates) = state.candidates else {
        panic!("expected agent candidates");
    };
    assert_eq!(
        candidates
            .iter()
            .map(|agent| agent.id.as_str())
            .collect::<Vec<_>>(),
        vec!["copilot", "codex"]
    );
    assert_eq!(app.command_ghost_suffix().as_deref(), Some("pilot"));
}

#[test]
fn agent_trailing_space_opens_completion_with_all_agents() {
    let mut app = test_app();
    seed_completion_agents(&mut app);
    type_input(&mut app, "/agent ");

    let state = app.command_popup_state().expect("all agent candidates");
    let PopupCandidates::Agents(candidates) = state.candidates else {
        panic!("expected agent candidates");
    };
    assert_eq!(
        candidates
            .iter()
            .map(|agent| agent.id.as_str())
            .collect::<Vec<_>>(),
        vec!["copilot", "codex", "gemini"]
    );

    let highlighted = app.selected_agent_command_candidate();
    assert_eq!(highlighted.as_ref().map(|agent| agent.id.as_str()), Some("copilot"));
    let command =
        agent_command_on_enter(&tab(&app).input, highlighted.as_ref()).expect("agent command");
    assert_eq!(command.kind, CommandKind::Agent);
    assert_eq!(
        command.rest, "copilot",
        "Enter must dispatch the highlighted agent once the completion list is visible"
    );
}

#[test]
fn agent_argument_arrow_changes_ghost_but_tab_does_not_complete() {
    let mut app = test_app();
    seed_completion_agents(&mut app);
    type_input(&mut app, "/agent co");

    app.handle_popup_key(plain(KeyCode::Down));
    assert_eq!(app.command_ghost_suffix().as_deref(), Some("dex"));

    app.handle_popup_key(plain(KeyCode::Other(9)));
    assert_eq!(tab(&app).input, "/agent co");
    assert_eq!(app.command_ghost_suffix().as_deref(), Some("dex"));
}

#[test]
fn agent_ghost_requires_cursor_at_end() {
    let mut app = test_app();
    seed_completion_agents(&mut app);
    type_input(&mut app, "/agent co");
    app.current_tab_mut().move_cursor_left();

    assert_eq!(app.command_ghost_suffix(), None);
}

#[test]
fn agent_argument_enter_dispatches_highlighted_agent() {
    let mut app = test_app();
    seed_completion_agents(&mut app);
    type_input(&mut app, "/agent co");

    let highlighted = app.selected_agent_command_candidate();
    let command =
        agent_command_on_enter(&tab(&app).input, highlighted.as_ref()).expect("agent command");
    assert_eq!(command.kind, CommandKind::Agent);
    assert_eq!(command.rest, "copilot");
}

#[test]
fn unknown_agent_prefix_does_not_open_completion() {
    let mut app = test_app();
    seed_completion_agents(&mut app);
    type_input(&mut app, "/agent zzz");

    assert!(app.command_popup_state().is_none());
    assert_eq!(app.command_ghost_suffix(), None);
}

fn plain(code: KeyCode) -> KeyEvent {
    KeyEvent {
        code,
        modifiers: KeyModifiers {
            control: false,
            alt: false,
            shift: false,
        },
    }
}

/// Type `text` char-by-char through the real input path so the command popup
/// candidates refresh exactly as they do live.
fn type_input(app: &mut App, text: &str) {
    for ch in text.chars() {
        app.current_tab_mut().insert_input_char(ch);
    }
}

#[test]
fn connected_popup_visible_for_any_prefix() {
    let mut app = test_app();
    type_input(&mut app, "/ne");

    assert!(
        app.command_popup_visible(),
        "a matching command prefix must keep the popup visible"
    );
}

#[test]
fn connected_popup_matches_command_name_substrings() {
    let mut app = test_app();
    type_input(&mut app, "/lear");

    assert!(
        app.command_popup_visible(),
        "typing a substring of /clear must show the command popup"
    );
}
