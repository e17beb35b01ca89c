//! What the terminal is told of a tab.

use wta::app::projection::build_agent_state_changed_event;
use wta::json::Json;
use wta::tab::{
    AgentActivityOutcome, SubmittedPrompt, TabSession, TurnState, UserInputRequest, UserInputState,
};

fn prompt(id: u64) -> SubmittedPrompt {
    SubmittedPrompt {
        id,
        text: "test".into(),
    }
}

fn params(event: &Json) -> &Json {
    event.get("params").expect("params")
}

fn activity(event: &Json) -> &Json {
    params(event).get("activity").expect("activity")
}

#[test]
fn activity_projection_tracks_turn_waiting_and_outcome() {
    let pane = Some("PANE-1".to_string());
    let mut tab = TabSession {
        turn: TurnState::Submitted(prompt(42)),
        activity_operation_id: 42,
        activity_summary: Some("Inspect the repository".into()),
        ..Default::default()
    };

    let working = build_agent_state_changed_event("TAB-1", &pane, &tab);
    assert_eq!(params(&working).text_member("pane_id").as_deref(), Some("PANE-1"));
    assert_eq!(activity(&working).text_member("phase").as_deref(), Some("working"));
    assert_eq!(activity(&working).whole_member("operation_id"), Some(42));
    assert_eq!(
        activity(&working).text_member("summary").as_deref(),
        Some("Inspect the repository")
    );

    tab.user_input.push_back(UserInputState {
        request_id: "request".into(),
        request: UserInputRequest {
            question: "Choose".into(),
            choices: vec![],
            allow_freeform: true,
        },
        selected: 0,
        input: String::new(),
        responder: None,
    });
    let waiting = build_agent_state_changed_event("TAB-1", &pane, &tab);
    assert_eq!(activity(&waiting).text_member("phase").as_deref(), Some("waiting"));

    tab.user_input.clear();
    tab.turn = TurnState::Idle;
    tab.activity_outcome = Some(AgentActivityOutcome::Succeeded);
    let completed = build_agent_state_changed_event("TAB-1", &pane, &tab);
    assert_eq!(activity(&completed).text_member("phase").as_deref(), Some("idle"));
    assert_eq!(activity(&completed).text_member("outcome").as_deref(), Some("succeeded"));
}
