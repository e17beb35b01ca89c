//! What happens to the pane, event by event.

use wta::app::effect::{
    EffectOf, KeyCode, KeyEvent, KeyModifiers, WtEventSeverity, WtNotification,
};
use wta::app::event::{
    AgentFailure, AppEvent, MouseEvent, MouseEventKind, Parsed, SoftStopReason, WtEvent,
};
use wta::app::failure::{classify_acp_error, classify_stop_reason};
use wta::app::state::{
    App, AppMode, AvailableAgent, AgentSource, CompletedTurnHitKind, CompletedTurnHitRegion,
    ConnectionState, Rect, TextSelection,
};
use wta::json::{no_members, put, Json};
use wta::keyed::Keyed;
use wta::phrases::Phrase;
use wta::tab::{SubmittedPrompt, TabSession, TurnState, UserInputRequest};
use wta::tab_actions::ToolCallPatch;
use wta::transcript::{ChatMessage, CompletedTurn, NoticeKind, ToolCallKind, ToolCard};

const NONE: KeyModifiers = KeyModifiers {
    control: false,
    alt: false,
    shift: false,
};

fn pane() -> App {
    let mut app = App::default();
    app.ids.tab_id = Some("tab".to_string());
    app.ids.pane_id = Some("pane".to_string());
    app.ids.window_id = Some("1".to_string());
    app.current_tab_mut().session_id = Some("session".to_string());
    app
}

fn tab(app: &App) -> &TabSession {
    app.current_tab().expect("the tab in front")
}

fn working(app: &mut App) {
    app.current_tab_mut().turn = TurnState::Streaming(SubmittedPrompt {
        id: 3,
        text: "hi".to_string(),
    });
}

fn object(members: Vec<(&str, Json)>) -> Json {
    let mut v = no_members();
    for (key, value) in members {
        put(&mut v, key, value);
    }
    Json::of_members(v)
}

fn notification(tab_id: Option<&str>) -> WtNotification {
    WtNotification {
        severity: WtEventSeverity::Actionable,
        summary: "failed".to_string(),
        pane_id: "other".to_string(),
        tab_id: tab_id.map(str::to_string),
        acknowledged: false,
        age_ticks: 0,
        dismiss_at: None,
    }
}

fn terminal_event(method: &str, pane_id: &str, tab_id: Option<&str>, params: Json) -> AppEvent {
    AppEvent::WtEvent(WtEvent {
        method: method.to_string(),
        pane_id: pane_id.to_string(),
        tab_id: tab_id.map(str::to_string),
        params,
        notification: notification(tab_id),
        pane_origin: None,
        cloud_models: Parsed::Absent,
        custom_models: Parsed::Absent,
    })
}

fn card(id: &str) -> ToolCard {
    ToolCard {
        id: id.to_string(),
        title: "Read".to_string(),
        status: "Pending".to_string(),
        kind: ToolCallKind::Read,
        location: Some("a.rs".to_string()),
        location_is_command: false,
        cwd: None,
        output: None,
        exit_code: None,
        content: Vec::new(),
        locations: Vec::new(),
    }
}

fn patch(id: &str) -> ToolCallPatch {
    ToolCallPatch {
        id: id.to_string(),
        title: None,
        status: Some("Completed".to_string()),
        kind: None,
        location: None,
        location_is_command: false,
        cwd: None,
        output: None,
        exit_code: None,
        content: None,
        locations: None,
    }
}

fn mouse(kind: MouseEventKind, column: u16, row: u16, clicks: Option<usize>) -> AppEvent {
    AppEvent::Mouse(MouseEvent {
        kind,
        column,
        row,
        modifiers: NONE,
        selection: TextSelection {
            selected_text: None,
            click_count: clicks,
        },
    })
}

#[test]
fn late_words_of_the_agent_are_dropped() {
    let mut app = pane();
    app.handle_event(AppEvent::AgentMessageChunk {
        session_id: "session".to_string(),
        text: "late".to_string(),
    });
    assert!(app.effects.is_empty());
    working(&mut app);
    app.handle_event(AppEvent::AgentMessageChunk {
        session_id: "session".to_string(),
        text: "now".to_string(),
    });
    assert!(app
        .effects
        .iter()
        .any(|e| matches!(e, EffectOf::ObserveChunk { text, .. } if text == "now")));
}

#[test]
fn an_error_of_a_tab_stays_in_that_tab() {
    let mut app = pane();
    app.handle_event(AppEvent::TabError {
        tab_id: "other".to_string(),
        message: "broken".to_string(),
    });
    assert!(tab(&app).messages.is_empty());
    assert_eq!(app.tab("other").unwrap().messages.len(), 1);
}

#[test]
fn an_answer_that_ended_early_says_why() {
    for reason in [
        SoftStopReason::MaxTokens,
        SoftStopReason::MaxTurnRequests,
        SoftStopReason::Refusal,
    ] {
        let mut app = pane();
        app.handle_event(AppEvent::AgentSoftStop {
            session_id: "session".to_string(),
            reason,
        });
        match (reason, tab(&app).messages.last()) {
            (
                SoftStopReason::MaxTokens,
                Some(ChatMessage::System(Phrase::StoppedMaxTokens)),
            ) => {}
            (
                SoftStopReason::MaxTurnRequests,
                Some(ChatMessage::System(Phrase::StoppedMaxTurnRequests)),
            ) => {}
            (
                SoftStopReason::Refusal,
                Some(ChatMessage::System(Phrase::StoppedRefusal)),
            ) => {}
            _ => panic!("expected the reason {reason:?}"),
        }
    }
}

#[test]
fn an_answer_that_ended_early_leaves_turn_and_connection() {
    let mut app = pane();
    app.agent.state = ConnectionState::Connected;
    working(&mut app);
    app.tab_mut("other");
    app.handle_event(AppEvent::AgentSoftStop {
        session_id: "session".to_string(),
        reason: SoftStopReason::Refusal,
    });
    assert_eq!(tab(&app).messages.len(), 1);
    assert!(tab(&app).turn.is_in_flight());
    assert!(matches!(app.agent.state, ConnectionState::Connected));
    assert!(app.tab("other").unwrap().messages.is_empty());
    assert!(app.effects.is_empty());
}

#[test]
fn a_failure_behind_a_good_transport_keeps_the_connection() {
    for failure in [
        AgentFailure::Protocol,
        AgentFailure::ResourceGone,
        AgentFailure::Unresponsive,
    ] {
        let mut app = pane();
        app.agent.state = ConnectionState::Connected;
        working(&mut app);
        app.handle_event(AppEvent::AgentError {
            session_id: Some("session".to_string()),
            failure,
            message: "no".to_string(),
        });
        assert!(matches!(app.agent.state, ConnectionState::Connected), "{failure:?}");
        assert!(tab(&app).turn.is_idle());
        assert!(matches!(tab(&app).messages.last(), Some(ChatMessage::Error(m)) if m == "no"));
    }
}

#[test]
fn errors_are_told_apart_by_their_codes() {
    assert_eq!(classify_acp_error(-32000), AgentFailure::AuthRequired);
    assert_eq!(classify_acp_error(-32002), AgentFailure::ResourceGone);
    assert_eq!(classify_acp_error(-32800), AgentFailure::Cancelled);
    for code in [-32600, -32601, -32602, -32603, -32700, 7] {
        assert_eq!(classify_acp_error(code), AgentFailure::Protocol);
    }
    assert!(classify_acp_error(-32800).is_cancelled());
    assert!(classify_acp_error(-32000).is_auth());
    assert!(!AgentFailure::HandshakeFailed.session_survives());
}

#[test]
fn only_some_ends_are_early() {
    assert_eq!(classify_stop_reason("max_tokens"), Some(SoftStopReason::MaxTokens));
    assert_eq!(
        classify_stop_reason("max_turn_requests"),
        Some(SoftStopReason::MaxTurnRequests)
    );
    assert_eq!(classify_stop_reason("refusal"), Some(SoftStopReason::Refusal));
    assert_eq!(classify_stop_reason("end_turn"), None);
    assert_eq!(classify_stop_reason("cancelled"), None);
}

#[test]
fn another_failure_is_told_as_well() {
    let mut app = pane();
    for message in ["no", "no", "never"] {
        app.handle_event(AppEvent::AgentError {
            session_id: Some("session".to_string()),
            failure: AgentFailure::Protocol,
            message: message.to_string(),
        });
    }
    let told: Vec<&str> = tab(&app)
        .messages
        .iter()
        .map(|m| match m {
            ChatMessage::Error(text) => text.as_str(),
            _ => panic!("expected errors"),
        })
        .collect();
    assert_eq!(told, ["no", "never"]);
}

#[test]
fn a_cancelled_turn_is_no_failure() {
    let mut app = pane();
    app.agent.state = ConnectionState::Connected;
    app.handle_event(AppEvent::AgentError {
        session_id: Some("session".to_string()),
        failure: AgentFailure::Cancelled,
        message: "cancelled".to_string(),
    });
    assert!(tab(&app).messages.is_empty());
    assert!(matches!(app.agent.state, ConnectionState::Connected));
}

#[test]
fn a_failure_ends_the_turn_and_is_told_once() {
    let mut app = pane();
    app.agent.state = ConnectionState::Connected;
    working(&mut app);
    for _ in 0..2 {
        app.handle_event(AppEvent::AgentError {
            session_id: Some("session".to_string()),
            failure: AgentFailure::Protocol,
            message: "no".to_string(),
        });
    }
    assert!(tab(&app).turn.is_idle());
    assert_eq!(tab(&app).messages.len(), 1);
    assert!(matches!(app.agent.state, ConnectionState::Connected));
    app.handle_event(AppEvent::AgentError {
        session_id: Some("session".to_string()),
        failure: AgentFailure::HandshakeFailed,
        message: "gone".to_string(),
    });
    assert!(matches!(app.agent.state, ConnectionState::Failed(_)));
}

#[test]
fn a_failed_sign_in_leads_to_the_set_up_screen() {
    let mut app = pane();
    app.handle_event(AppEvent::AgentError {
        session_id: None,
        failure: AgentFailure::AuthRequired,
        message: "sign in".to_string(),
    });
    assert_eq!(app.screen.mode, AppMode::Setup);
    assert!(app
        .effects
        .iter()
        .any(|e| matches!(e, EffectOf::PrepareSignIn { .. })));
}

#[test]
fn a_stale_recovery_timer_does_nothing() {
    let mut app = pane();
    app.handle_event(AppEvent::PostLoginAuthRecovery {
        tab_id: None,
        agent_id: "copilot".to_string(),
    });
    let generation = app.flow.auth_recovery_generation;
    app.handle_event(AppEvent::AuthRecoveryTimedOut {
        agent_id: "copilot".to_string(),
        generation: generation.wrapping_sub(1),
    });
    assert_eq!(app.screen.mode, AppMode::Chat);
    app.handle_event(AppEvent::AuthRecoveryTimedOut {
        agent_id: "copilot".to_string(),
        generation,
    });
    assert_eq!(app.screen.mode, AppMode::Setup);
}

#[test]
fn a_lost_master_ends_the_pane() {
    let mut app = pane();
    app.handle_event(AppEvent::MasterDisconnected);
    assert!(app.screen.should_quit);
}

#[test]
fn a_tool_call_is_patched_by_its_id_and_keeps_its_place() {
    let mut app = pane();
    working(&mut app);
    for id in ["a", "b"] {
        app.handle_event(AppEvent::ToolCall {
            session_id: "session".to_string(),
            card: card(id),
        });
    }
    app.handle_event(AppEvent::ToolCallUpdate {
        session_id: "session".to_string(),
        patch: patch("b"),
    });
    let statuses: Vec<(&str, &str, Option<&str>)> = tab(&app)
        .messages
        .iter()
        .map(|m| match m {
            ChatMessage::ToolCall(c) => {
                (c.id.as_str(), c.status.as_str(), c.location.as_deref())
            }
            _ => panic!("expected cards"),
        })
        .collect();
    assert_eq!(
        statuses,
        [("a", "Pending", Some("a.rs")), ("b", "Completed", Some("a.rs"))]
    );
    app.handle_event(AppEvent::HideToolCall {
        session_id: "session".to_string(),
        id: "a".to_string(),
    });
    assert_eq!(tab(&app).messages.len(), 1);
}

#[test]
fn questions_wait_in_their_order_and_can_be_taken_back() {
    let mut app = pane();
    working(&mut app);
    for (i, id) in ["first", "second"].iter().enumerate() {
        app.handle_event(AppEvent::UserInputRequest {
            request_id: id.to_string(),
            session_id: "session".to_string(),
            request: UserInputRequest {
                question: "?".to_string(),
                choices: vec![],
                allow_freeform: true,
            },
            responder: i as u64,
        });
    }
    assert_eq!(tab(&app).user_input.len(), 2);
    assert_eq!(tab(&app).user_input[0].request_id, "first");
    app.handle_event(AppEvent::CancelUserInputRequest {
        request_id: "first".to_string(),
        session_id: "session".to_string(),
    });
    assert_eq!(tab(&app).user_input.len(), 1);
    assert_eq!(tab(&app).user_input[0].request_id, "second");
}

#[test]
fn permissions_wait_in_their_order() {
    let mut app = pane();
    working(&mut app);
    for id in ["one", "two"] {
        app.handle_event(AppEvent::PermissionRequest {
            session_id: "session".to_string(),
            tool_call_id: id.to_string(),
            description: "?".to_string(),
            title: "?".to_string(),
            kind_label: None,
            target: None,
            target_is_command: false,
            options: vec![],
            responder: 1,
        });
    }
    let ids: Vec<&str> = tab(&app)
        .permission
        .iter()
        .map(|p| p.tool_call_id.as_str())
        .collect();
    assert_eq!(ids, ["one", "two"]);
}

fn permission(responder: u64) -> AppEvent {
    AppEvent::PermissionRequest {
        session_id: "session".to_string(),
        tool_call_id: "call".to_string(),
        description: "?".to_string(),
        title: "?".to_string(),
        kind_label: None,
        target: None,
        target_is_command: false,
        options: vec![],
        responder,
    }
}

fn question(id: &str, responder: u64) -> AppEvent {
    AppEvent::UserInputRequest {
        request_id: id.to_string(),
        session_id: "session".to_string(),
        request: UserInputRequest {
            question: "?".to_string(),
            choices: vec![],
            allow_freeform: true,
        },
        responder,
    }
}

fn denied(app: &App) -> Vec<u64> {
    app.effects
        .iter()
        .filter_map(|effect| match effect {
            EffectOf::DenyRequest { responder } => Some(*responder),
            _ => None,
        })
        .collect()
}

#[test]
fn requests_without_a_turn_are_denied_at_once() {
    let mut app = pane();
    app.handle_event(permission(4));
    app.handle_event(question("q", 5));
    assert_eq!(denied(&app), [4, 5]);
    assert_eq!(app.effects.len(), 2, "nothing else is asked for");
    assert!(tab(&app).permission.is_empty());
    assert!(tab(&app).user_input.is_empty());
}

#[test]
fn requests_of_a_turn_are_not_denied() {
    let mut app = pane();
    working(&mut app);
    app.handle_event(permission(4));
    app.handle_event(question("q", 5));
    assert!(app.effects.is_empty());
    let prompt = SubmittedPrompt { id: 3, text: "hi".to_string() };
    app.current_tab_mut().turn = TurnState::Surfaced(prompt);
    app.handle_event(permission(6));
    assert!(app.effects.is_empty(), "a surfaced turn still owns its requests");
    app.current_tab_mut().turn = TurnState::Idle;
    app.current_tab_mut().loading_session = true;
    app.handle_event(permission(7));
    assert!(app.effects.is_empty(), "so does a session that is loading");
    assert_eq!(tab(&app).permission.len(), 3);
}

#[test]
fn a_question_that_is_taken_back_is_denied() {
    let mut app = pane();
    working(&mut app);
    app.handle_event(question("first", 1));
    app.handle_event(question("second", 2));
    let cancel = |id: &str| AppEvent::CancelUserInputRequest {
        request_id: id.to_string(),
        session_id: "session".to_string(),
    };
    app.handle_event(cancel("second"));
    assert_eq!(denied(&app), [2]);
    app.handle_event(cancel("second"));
    assert_eq!(denied(&app), [2], "there is no such question any more");
    assert_eq!(tab(&app).user_input.len(), 1);
}

#[test]
fn requests_outlive_other_events() {
    let mut app = pane();
    working(&mut app);
    app.handle_event(permission(4));
    app.handle_event(question("q", 5));
    app.handle_event(AppEvent::AgentError {
        session_id: Some("session".to_string()),
        failure: AgentFailure::Protocol,
        message: "failed".to_string(),
    });
    app.handle_event(AppEvent::Tick);
    app.handle_event(AppEvent::TabError {
        tab_id: "tab".to_string(),
        message: "failed".to_string(),
    });
    assert_eq!(tab(&app).permission.len(), 1);
    assert_eq!(tab(&app).user_input.len(), 1);
    assert!(denied(&app).is_empty());
}

#[test]
fn a_commit_is_answered_as_it_came_out() {
    let mut app = pane();
    for committed in [true, false] {
        app.effects.clear();
        app.handle_event(AppEvent::ProposalCommitted {
            proposal_id: "p".to_string(),
            ticket: 9,
            committed,
        });
        assert!(matches!(
            app.effects.last(),
            Some(EffectOf::AnswerCommit { ticket: 9, committed: c }) if *c == committed
        ));
        assert_eq!(app.effects.len(), if committed { 1 } else { 2 });
    }
}

#[test]
fn the_prompt_of_a_turn_is_its_own() {
    let prompt = SubmittedPrompt { id: 3, text: "hi".to_string() };
    let turn = TurnState::Surfaced(prompt);
    assert!(turn.prompt().is_some_and(|p| p.id == 3 && p.text == "hi"));
    assert!(TurnState::Idle.prompt().is_none());
}

#[test]
fn a_tab_keeps_one_session() {
    let mut app = pane();
    for session in ["s1", "s2"] {
        app.handle_event(AppEvent::SessionAttached {
            tab_id: "tab".to_string(),
            session_id: session.to_string(),
            available_models: vec![],
            current_model_id: None,
        });
    }
    assert_eq!(tab(&app).session_id.as_deref(), Some("s2"));
    assert_eq!(app.bound_tab_for_session("s2").as_deref(), Some("tab"));
    assert_eq!(app.bound_tab_for_session("s1"), None);
}

#[test]
fn ticks_move_only_the_marks_of_tabs_at_work() {
    let mut app = pane();
    app.tab_mut("idle");
    working(&mut app);
    app.handle_event(AppEvent::Tick);
    assert_eq!(tab(&app).activity_frame, 1);
    assert_eq!(app.tab("idle").unwrap().activity_frame, 0);
    for _ in 0..17 {
        app.handle_event(AppEvent::Tick);
    }
    assert_eq!(tab(&app).activity_frame, 0, "the mark comes round");
}

#[test]
fn notifications_go_when_their_time_is_up() {
    let mut app = pane();
    let mut short = notification(None);
    short.dismiss_at = Some(2);
    app.queue_notification(short);
    app.queue_notification(notification(None));
    app.handle_event(AppEvent::Tick);
    assert_eq!(app.screen.wt_notifications.len(), 2);
    app.handle_event(AppEvent::Tick);
    assert_eq!(app.screen.wt_notifications.len(), 1);
}

#[test]
fn the_hint_that_something_was_copied_lasts_two_seconds() {
    let mut app = pane();
    app.handle_event(AppEvent::SelectionCopied { now_ms: 500 });
    let hint = app.screen.transient_hint.as_ref().expect("a hint");
    assert_eq!(hint.until_ms, 2500);
    app.handle_event(AppEvent::SelectionCopyFailed);
    assert!(app.screen.transient_hint.is_none());
}

#[test]
fn a_key_copies_what_is_selected_and_else_goes_on() {
    let key = |code, control| {
        AppEvent::Key(KeyEvent {
            code,
            modifiers: KeyModifiers { control, alt: false, shift: false },
        })
    };
    let mut app = pane();
    app.pointer.text_selection.selected_text = Some("word".to_string());
    app.handle_event(key(KeyCode::Char('c'), true));
    assert!(matches!(&app.effects[..], [EffectOf::CopySelection(text)] if text == "word"));
    app.handle_event(key(KeyCode::Char('x'), false));
    assert!(matches!(app.effects.last(), Some(EffectOf::HandleKey(_))));
    assert!(app.pointer.text_selection.selected_text.is_none());
}

#[test]
fn a_double_click_undoes_what_its_first_click_did() {
    let mut app = pane();
    app.current_tab_mut().completed_turns.push(CompletedTurn {
        prompt: "p".to_string(),
        details: Vec::new(),
        expanded: false,
        trailing_marker: None,
    });
    app.pointer.completed_turn_hits = vec![CompletedTurnHitRegion {
        start_column: 0,
        end_column: 5,
        row: 2,
        turn_index: 0,
        kind: CompletedTurnHitKind::UserInput,
    }];
    app.handle_event(mouse(MouseEventKind::LeftDown, 1, 2, Some(1)));
    app.handle_event(mouse(MouseEventKind::LeftUp, 1, 2, Some(1)));
    assert!(tab(&app).completed_turns[0].expanded);
    assert_eq!(tab(&app).selected_completed_turn_idx, Some(0));
    app.handle_event(mouse(MouseEventKind::LeftDown, 1, 2, Some(2)));
    assert!(!tab(&app).completed_turns[0].expanded);
    assert_eq!(tab(&app).selected_completed_turn_idx, None);
}

#[test]
fn a_double_click_elsewhere_undoes_nothing() {
    let mut app = pane();
    app.current_tab_mut().completed_turns.push(CompletedTurn {
        prompt: "p".to_string(),
        details: Vec::new(),
        expanded: false,
        trailing_marker: None,
    });
    app.pointer.completed_turn_hits = vec![CompletedTurnHitRegion {
        start_column: 0,
        end_column: 5,
        row: 2,
        turn_index: 0,
        kind: CompletedTurnHitKind::UserInput,
    }];
    app.handle_event(mouse(MouseEventKind::LeftDown, 1, 2, Some(1)));
    app.handle_event(mouse(MouseEventKind::LeftUp, 1, 2, Some(1)));
    app.handle_event(mouse(MouseEventKind::LeftDown, 3, 2, Some(2)));
    assert!(tab(&app).completed_turns[0].expanded);
    assert_eq!(tab(&app).selected_completed_turn_idx, Some(0));
    assert!(app.pointer.last_completed_turn_click.is_none());
}

#[test]
fn a_right_click_asks_for_a_paste_where_the_input_is_open() {
    let mut app = pane();
    app.current_tab_mut().pane_open = true;
    app.handle_event(mouse(MouseEventKind::RightDown, 0, 0, None));
    match &app.effects[..] {
        [EffectOf::Send(event)] => {
            assert_eq!(event.text_member("method").as_deref(), Some("request_default_paste"));
        }
        _ => panic!("expected a request"),
    }
    let mut closed = pane();
    closed.handle_event(mouse(MouseEventKind::RightDown, 0, 0, None));
    assert!(closed.effects.is_empty());
}

#[test]
fn the_input_takes_clicks_only_inside_its_area() {
    let mut app = pane();
    app.pointer.input_dialog_area = Some(Rect { x: 2, y: 3, width: 4, height: 1 });
    assert!(app.input_dialog_at(2, 3));
    assert!(app.input_dialog_at(5, 3));
    assert!(!app.input_dialog_at(6, 3));
    assert!(!app.input_dialog_at(2, 4));
}

#[test]
fn events_of_the_pane_itself_are_no_news() {
    let mut app = pane();
    app.handle_event(terminal_event("vt_sequence", "pane", Some("tab"), object(vec![])));
    assert!(app.effects.is_empty());
    assert!(app.screen.wt_notifications.is_empty());
}

#[test]
fn notifications_of_other_tabs_are_not_shown() {
    let mut app = pane();
    app.ids.owner_tab_id = Some("tab".to_string());
    app.handle_event(terminal_event("command_failed", "other", Some("elsewhere"), object(vec![])));
    assert!(app.screen.wt_notifications.is_empty());
    assert!(!app.screen.show_notification_banner);
    app.handle_event(terminal_event("command_failed", "other", Some("tab"), object(vec![])));
    assert_eq!(app.screen.wt_notifications.len(), 1);
}

#[test]
fn a_tab_of_another_window_is_only_passed_on() {
    let closed = |window: &str| {
        let mut app = pane();
        app.handle_event(terminal_event(
            "tab_closed",
            "other",
            None,
            object(vec![
                ("tab_id", Json::of_text("t")),
                ("window_id", Json::of_text(window)),
            ]),
        ));
        app.effects
    };
    assert!(matches!(&closed("1")[..], [EffectOf::DropTab { .. }]));
    assert!(matches!(&closed("2")[..], [EffectOf::RequestTabClose { .. }]));
}

#[test]
fn agents_that_are_found_can_be_picked() {
    let agent = |id: &str| AvailableAgent {
        id: id.to_string(),
        display_name: id.to_string(),
        source: AgentSource::Host,
    };
    let mut app = pane();
    app.agent.current_id = "codex".to_string();
    app.handle_event(AppEvent::AgentSourcesDiscovered {
        generation: 1,
        host_agents: vec![agent("copilot")],
        wsl_sources: vec![],
    });
    assert!(!tab(&app).agent_picker_open, "an earlier answer is ignored");
    app.handle_event(AppEvent::AgentSourcesDiscovered {
        generation: 0,
        host_agents: vec![agent("copilot")],
        wsl_sources: vec![agent("codex")],
    });
    assert!(tab(&app).agent_picker_open);
    assert_eq!(tab(&app).agent_picker_selected, 1);
}

#[test]
fn no_agents_is_worth_a_warning() {
    let mut app = pane();
    app.handle_event(AppEvent::AgentSourcesDiscovered {
        generation: 0,
        host_agents: vec![],
        wsl_sources: vec![],
    });
    assert!(matches!(
        tab(&app).messages.last(),
        Some(ChatMessage::Notice { kind: NoticeKind::Warning, text: Phrase::NoAgents })
    ));
}

#[test]
fn the_state_of_a_tab_is_told_with_its_bar() {
    let mut app = pane();
    app.project_active_tab_state();
    assert!(matches!(
        &app.effects[..],
        [EffectOf::Send(_), EffectOf::SendBar { .. }]
    ));
    app.effects.clear();
    app.project_tab_state("unknown");
    assert!(app.effects.is_empty());
}

#[test]
fn activities_are_told_when_they_change() {
    let mut app = pane();
    app.project_changed_activity_states();
    let told = app.effects.len();
    app.project_changed_activity_states();
    assert_eq!(app.effects.len(), told, "nothing has changed");
    working(&mut app);
    app.project_changed_activity_states();
    assert_eq!(app.effects.len(), told + 1, "one tab has changed");
    assert_eq!(app.last_projected_activity.count(), app.tabs.count());
    app.tabs.remove("tab");
    app.project_changed_activity_states();
    assert_eq!(app.last_projected_activity.count(), 0);
    assert_eq!(app.effects.len(), told + 1);
}

#[test]
fn an_event_of_the_hooks_is_shown_as_text_when_asked_for() {
    let params = || {
        object(vec![
            ("event", Json::of_text("tool \"a\"")),
            ("n", Json::of_number(2)),
        ])
    };
    let mut app = pane();
    app.handle_event(terminal_event("agent_event", "other", None, params()));
    assert!(tab(&app).messages.is_empty());
    app.settings.log_agent_events = true;
    app.handle_event(terminal_event("agent_event", "other", None, params()));
    assert!(matches!(
        &tab(&app).messages[..],
        [ChatMessage::AgentEvent(text)] if text == r#"{"event":"tool \"a\"","n":2}"#
    ));
    assert!(matches!(
        app.effects.last(),
        Some(EffectOf::RouteAgentEvent { pane_id, .. }) if pane_id == "other"
    ));
}

#[test]
fn a_map_keeps_the_order_of_its_keys() {
    let mut map: Keyed<u32> = Keyed::new();
    map.insert("b".to_string(), 1);
    map.insert("a".to_string(), 2);
    map.insert("b".to_string(), 3);
    assert_eq!(map.count(), 2);
    assert_eq!(map.key(0), "b");
    assert_eq!(map.get("b"), Some(&3));
    map.remove("b");
    assert_eq!(map.get("b"), None);
    assert_eq!(map.get("a"), Some(&2));
}
