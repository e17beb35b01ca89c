//! What the conversation looks like.

use std::borrow::Cow;

use wta::app::state::{App, Rect};
use wta::chat::command::{command_display_lines, MAX_COMMAND_STATEMENTS};
use wta::chat::hits::CompletedTurnAction;
use wta::chat::line::{Line, Span, Style};
use wta::chat::message::{build_message_lines, ChatLabels};
use wta::chat::output::{
    tool_detail_lines, MAX_TOOL_DETAIL_LINES, MAX_TOOL_DETAIL_OUTPUT_LINES,
};
use wta::chat::status::{breathing_dot, ACTIVITY_CYCLE_FRAMES};
use wta::chat::turn::build_completed_turn_lines;
use wta::chat::view::{
    build_pending_stream_lines, estimated_block_height, permission_tool_call_id, should_show_turn_activity, user_visible_stream_text,
};
use wta::chat::wrap::{
    collapse_newlines_for_preview, push_dot_prefixed_lines, push_prompt_prefixed_lines,
    rendered_lines_height, truncate_render_text, MAX_RENDER_LINE_CHARS,
};
use wta::phrases::{Phrase, Phrases, TemplatePart};
use wta::tab::{PermissionState, SubmittedPrompt, TabSession, TurnState};
use wta::transcript::{
    ChatMessage, CompletedTurn, NoticeKind, PlanEntry, PlanEntryStatus, ToolCallContent, ToolCallKind, ToolCallLocation,
    ToolCallOutput, ToolCard,
};

fn words(text: &str) -> Vec<TemplatePart> {
    vec![TemplatePart::Words(text.to_string())]
}

fn labels() -> ChatLabels {
    ChatLabels {
        plan_header: "Plan".into(),
        plan_marker_completed: "[x]".into(),
        plan_marker_in_progress: "[-]".into(),
        plan_marker_pending: "[ ]".into(),
        welcome_disclaimer: "Answers may be wrong.".into(),
        welcome_title: "Welcome".into(),
        phrases: Phrases {
            model_set: words("model set"),
            config_update_failed: words("config update failed"),
            selection_copied: words("selection copied"),
            nothing_to_stop: words("nothing to stop"),
            no_models: words("no models"),
            no_options: words("no options"),
            restarting: words("restarting"),
            model_unavailable: words("model unavailable"),
            unknown_command: words("unknown command"),
            unknown_agent: words("unknown agent"),
            agent_busy: words("agent busy"),
            no_agents: words("no agents"),
            stopped_max_tokens: words("stopped max tokens"),
            stopped_max_turn_requests: words("stopped max turn requests"),
            stopped_refusal: words("stopped refusal"),
            reconnecting: words("reconnecting"),
            starting: words("starting"),
            authentication_failed: words("authentication failed"),
            device_code_prompt: words("device code prompt"),
            sign_in_title: words("sign in title"),
            agent_missing_title: words("agent missing title"),
            copilot_auth: words("copilot auth"),
            agent_auth: words("agent auth"),
            copilot_missing: words("copilot missing"),
            agent_missing: words("agent missing"),
        },
    }
}

fn message_height(msg: &ChatMessage, wrap_width: usize) -> usize {
    rendered_lines_height(
        &build_message_lines(msg, false, false, None, 0, wrap_width, &labels()),
        wrap_width,
    )
}

fn turn_height(turn: &CompletedTurn, wrap_width: usize) -> usize {
    rendered_lines_height(
        &build_completed_turn_lines(turn, false, false, wrap_width, &labels()),
        wrap_width,
    )
}

fn line_text(line: &Line) -> String {
    line.text()
}

#[test]
fn notices_render_distinct_markers_and_hanging_indents() {
    let cases = [
        (NoticeKind::Success, "✓"),
        (NoticeKind::Info, "i"),
        (NoticeKind::Warning, "!"),
        (NoticeKind::Error, "×"),
    ];

    for (kind, marker) in cases {
        let message = ChatMessage::Notice {
            kind,
            text: Phrase::Text("A notice that wraps onto another line".into()),
        };
        let lines = build_message_lines(&message, false, false, None, 0, 20, &labels());
        assert!(line_text(&lines[0]).starts_with(&format!("{marker} ")));
        assert!(
            line_text(&lines[1]).starts_with("  "),
            "continuation rows must align with the notice body"
        );
        assert!(line_text(lines.last().expect("trailing row")).is_empty());
    }
}

#[test]
fn notice_prefix_skips_leading_blank_lines() {
    let message = ChatMessage::info(Phrase::Text("\n\nNotice text".into()));
    let lines = build_message_lines(&message, false, false, None, 0, 20, &labels());

    assert_eq!(line_text(&lines[0]), "i Notice text");
    assert_eq!(lines.len(), message_height(&message, 20));
}

#[test]
fn a_system_line_is_said_in_the_language_of_the_user() {
    let message = ChatMessage::System(Phrase::NoModels);
    let lines = build_message_lines(&message, false, false, None, 0, 20, &labels());
    assert_eq!(line_text(&lines[0]), "no models");
    let message = ChatMessage::System(Phrase::Text("a\nb".into()));
    let lines = build_message_lines(&message, false, false, None, 0, 20, &labels());
    let texts: Vec<String> = lines.iter().map(line_text).collect();
    assert_eq!(texts, ["a", "b", ""]);
}

#[test]
fn message_height_uses_terminal_display_width_for_cjk() {
    let message = ChatMessage::Agent("你好".into());
    let lines = build_message_lines(&message, false, false, None, 0, 4, &labels());

    assert_eq!(lines.len(), 3, "two CJK glyphs wrap into two body rows");
    assert_eq!(message_height(&message, 4), lines.len());
}

#[test]
fn rendered_height_accounts_for_word_wrap_gaps() {
    let lines = vec![Line::of(Span::styled("aaa aaa aaa aaa".into(), Style::Plain))];

    assert_eq!(rendered_lines_height(&lines, 5), 4);
}

#[test]
fn expanded_turn_height_matches_rendered_detail_endings() {
    let cases = [
        (
            "agent text",
            vec![ChatMessage::Agent(
                "I checked the working tree and found one change.".into(),
            )],
        ),
        (
            "compact tool call",
            vec![ChatMessage::ToolCall(ToolCard {
                id: "tool".into(),
                title: "Read source".into(),
                status: "Completed".into(),
                kind: ToolCallKind::Read,
                location: Some(r"C:\src\main.rs".into()),
                location_is_command: false,
                cwd: None,
                output: None,
                exit_code: None,
                content: Vec::new(),
                locations: Vec::new(),
            })],
        ),
        (
            "command tool call",
            vec![ChatMessage::ToolCall(ToolCard {
                id: "tool".into(),
                title: "Run tests".into(),
                status: "Completed".into(),
                kind: ToolCallKind::Execute,
                location: Some("cargo test --workspace".into()),
                location_is_command: true,
                cwd: None,
                output: None,
                exit_code: None,
                content: Vec::new(),
                locations: Vec::new(),
            })],
        ),
        ("disclaimer", vec![ChatMessage::Disclaimer]),
        ("empty details", Vec::new()),
    ];

    for (name, details) in cases {
        let turn = CompletedTurn {
            prompt: "What changed?".into(),
            details,
            expanded: true,
            trailing_marker: None,
        };

        assert_eq!(
            turn_height(&turn, 80),
            build_completed_turn_lines(&turn, false, true, 80, &labels()).len(),
            "{name}"
        );
    }
}

#[test]
fn expanded_completed_turn_restores_multiline_prompt() {
    let mut turn = CompletedTurn {
        prompt: ["line one", "line two"].join("\n"),
        details: Vec::new(),
        expanded: false,
        trailing_marker: None,
    };

    let collapsed = build_completed_turn_lines(&turn, false, true, 80, &labels());
    assert_eq!(line_text(&collapsed[0]), "▶ > line one line two");

    turn.expanded = true;
    let expanded = build_completed_turn_lines(&turn, true, true, 80, &labels());
    let texts: Vec<String> = expanded.iter().map(line_text).collect();
    assert_eq!(
        texts,
        vec![
            "▼ > line one".to_string(),
            "    line two".to_string(),
            String::new(),
        ]
    );
    assert_eq!(expanded[1].spans[0].style, Style::Selected);
    assert_eq!(turn_height(&turn, 80), expanded.len());
}

fn assert_tool_call(
    status: &str,
    expected_text: &str,
    expected_marker_style: Style,
    expected_detail_style: Option<Style>,
) {
    let message = ChatMessage::ToolCall(ToolCard {
        id: "tool".into(),
        title: "Run: cargo test".into(),
        status: status.into(),
        kind: ToolCallKind::Other,
        location: None,
        location_is_command: false,
        cwd: None,
        output: None,
        exit_code: None,
        content: Vec::new(),
        locations: Vec::new(),
    });
    let lines = build_message_lines(&message, false, false, None, 0, 80, &labels());
    let line = &lines[0];

    assert_eq!(line_text(line), expected_text);
    assert_eq!(line.spans[0].style, expected_marker_style);
    assert_eq!(line.spans[2].style, Style::ToolCallTitle);
    assert_eq!(line.spans.get(3).map(|span| span.style), expected_detail_style);
}

/// A `location` hint renders as a dim `(path)` suffix right after the
/// title, before the status detail — guards against the card silently
/// dropping the path/command info of the call.
#[test]
fn tool_call_renders_location_hint_between_title_and_status_detail() {
    let message = ChatMessage::ToolCall(ToolCard {
        id: "tool".into(),
        title: "Access paths outside trusted directories".into(),
        status: "Pending".into(),
        kind: ToolCallKind::Other,
        location: Some(r"C:\src\rust-app".into()),
        location_is_command: false,
        cwd: None,
        output: None,
        exit_code: None,
        content: Vec::new(),
        locations: Vec::new(),
    });
    let lines = build_message_lines(&message, false, false, None, 0, 80, &labels());
    let line = &lines[0];

    assert_eq!(
        line_text(line),
        r"● Access paths outside trusted directories (C:\src\rust-app)"
    );
    assert_eq!(
        lines.len(),
        1,
        "path-only tool calls should remain compact without a paragraph break"
    );
    assert_eq!(message_height(&message, 80), 1);
}

/// A command-kind location (`location_is_command`) must NOT be inlined
/// as a `(hint)` suffix on the title line — it gets its own
/// `CARD_CODE`-styled `$ command` line instead, since commands can be
/// long one-liners that would overflow or wrap awkwardly inline.
#[test]
fn tool_call_command_location_renders_as_separate_code_line() {
    let message = ChatMessage::ToolCall(ToolCard {
        id: "tool".into(),
        title: "Run command".into(),
        status: "Pending".into(),
        kind: ToolCallKind::Execute,
        location: Some("cargo test --workspace".into()),
        location_is_command: true,
        cwd: None,
        output: None,
        exit_code: None,
        content: Vec::new(),
        locations: Vec::new(),
    });
    let lines = build_message_lines(&message, false, false, None, 0, 80, &labels());

    assert_eq!(
        lines.len(),
        3,
        "expected a title line, command line, and paragraph break"
    );
    assert_eq!(line_text(&lines[0]), "● Run command");
    assert_eq!(line_text(&lines[1]), "    $ cargo test --workspace");
    assert_eq!(lines[1].spans[0].style, Style::CardCode);
    assert!(lines[2].spans.is_empty());

    assert_eq!(
        message_height(&message, 80),
        3,
        "the height budget must account for the extra command line"
    );
}

/// A multi-statement command (`;`-chained, the pattern agents commonly
/// emit when batching several checks into one tool call) must render
/// as one code-styled line **per statement**, not one giant crammed
/// line: `winget list ...; winget list ...` on a single wrapped line
/// cannot be read.
#[test]
fn tool_call_multi_statement_command_renders_one_line_per_statement() {
    let message = ChatMessage::ToolCall(ToolCard {
        id: "tool".into(),
        title: "Check installed PowerToys and Foundry Local packages".into(),
        status: "Completed".into(),
        kind: ToolCallKind::Execute,
        location: Some(
            "winget list --name PowerToys 2>$null; winget list --name Foundry 2>$null".into(),
        ),
        location_is_command: true,
        cwd: None,
        output: None,
        exit_code: None,
        content: Vec::new(),
        locations: Vec::new(),
    });
    let lines = build_message_lines(&message, false, false, None, 0, 80, &labels());

    assert_eq!(
        lines.len(),
        4,
        "expected a title line, one line per statement, and a paragraph break"
    );
    assert_eq!(
        line_text(&lines[1]),
        "    $ winget list --name PowerToys 2>$null"
    );
    assert_eq!(
        line_text(&lines[2]),
        "    $ winget list --name Foundry 2>$null"
    );

    assert_eq!(
        message_height(&message, 80),
        4,
        "the height budget must count one row per split statement"
    );
}

#[test]
fn execute_tool_call_renders_cwd_reported_output_tail_and_exit_code() {
    let cwd = "C:\\repo";
    let message = ChatMessage::ToolCall(ToolCard {
        id: "tool".into(),
        title: "bash".into(),
        status: "Completed".into(),
        kind: ToolCallKind::Execute,
        location: Some("cargo test".into()),
        location_is_command: true,
        cwd: Some(cwd.into()),
        output: Some(ToolCallOutput {
            text: ["line 1", "line 2", "line 3", "line 4", "line 5"].join("\n"),
            truncated: false,
        }),
        exit_code: Some(0),
        content: Vec::new(),
        locations: Vec::new(),
    });
    let lines = build_message_lines(&message, false, false, None, 0, 120, &labels());
    let rendered: Vec<String> = lines.iter().map(line_text).collect();

    assert_eq!(rendered[0], format!("✓ bash ({cwd}) · exit 0"));
    assert_eq!(rendered[1], "    $ cargo test");
    assert_eq!(rendered[2], "    │ …");
    assert_eq!(rendered[3], "    │ line 2");
    assert_eq!(rendered[6], "    │ line 5");
    assert!(rendered[7].is_empty());
    assert_eq!(lines.len(), message_height(&message, 120));
}

#[test]
fn completed_non_execute_tool_call_shows_bounded_output_preview() {
    let location = "C:\\repo\\large.txt";
    let message = ChatMessage::ToolCall(ToolCard {
        id: "tool".into(),
        title: "Read file".into(),
        status: "Completed".into(),
        kind: ToolCallKind::Read,
        location: Some(location.into()),
        location_is_command: false,
        cwd: None,
        output: Some(ToolCallOutput {
            text: ["line 1", "line 2", "line 3", "line 4"].join("\n"),
            truncated: false,
        }),
        exit_code: Some(200),
        content: Vec::new(),
        locations: Vec::new(),
    });
    let lines = build_message_lines(&message, false, false, None, 0, 120, &labels());
    let rendered: Vec<String> = lines.iter().map(line_text).collect();

    assert_eq!(rendered[1], "    │ …");
    assert_eq!(rendered[2], "    │ line 3");
    assert_eq!(rendered[3], "    │ line 4");
    assert!(!rendered.iter().any(|line| line.contains("line 1")));
    assert!(!rendered[0].contains("exit 200"));
    assert!(rendered[4].is_empty());
    assert_eq!(lines.len(), message_height(&message, 120));
}

#[test]
fn expanded_tool_output_is_bounded_for_large_file_lists() {
    let output = ToolCallOutput {
        text: (0..200)
            .map(|index| format!("debug/incremental/object-{index:03}.o"))
            .collect::<Vec<_>>()
            .join("\n"),
        truncated: false,
    };
    let lines = tool_detail_lines(&vec![ToolCallContent::Text(output)], &Vec::new(), true);

    assert_eq!(lines.len(), MAX_TOOL_DETAIL_OUTPUT_LINES + 1);
    assert_eq!(lines[0], "    │ …");
    assert!(lines.last().is_some_and(|line| line.ends_with("object-199.o")));
}

#[test]
fn tool_detail_lines_strictly_caps_locations_including_ellipsis() {
    let locations: Vec<ToolCallLocation> = (0..=MAX_TOOL_DETAIL_LINES)
        .map(|index| ToolCallLocation {
            path: format!("file-{index}.rs"),
            line: None,
        })
        .collect();

    let lines = tool_detail_lines(&Vec::new(), &locations, true);

    assert_eq!(lines.len(), MAX_TOOL_DETAIL_LINES);
    assert_eq!(lines.last().map(String::as_str), Some("    …"));
}

#[test]
fn tool_call_uses_semantic_status_markers() {
    assert_tool_call(
        "Pending",
        "● Run: cargo test",
        Style::ToolCallPending,
        None,
    );
    assert_tool_call(
        "running",
        "● Run: cargo test",
        Style::ToolCallRunning,
        None,
    );
    assert_tool_call(
        "Completed",
        "✓ Run: cargo test",
        Style::ToolCallSuccess,
        None,
    );
    assert_tool_call(
        "Failed: exit code 1",
        "✗ Run: cargo test · exit code 1",
        Style::ToolCallFailure,
        Some(Style::Dim),
    );
    assert_tool_call(
        "Canceled",
        "− Run: cargo test",
        Style::ToolCallCanceled,
        None,
    );
    assert_tool_call(
        "Exited (1)",
        "✗ Run: cargo test · Exited (1)",
        Style::ToolCallFailure,
        Some(Style::Dim),
    );
    // "Exited (0)" is a success alias (distinct from the generic
    // "exited (" failure prefix matched above) and carries no detail.
    assert_tool_call(
        "Exited (0)",
        "✓ Run: cargo test",
        Style::ToolCallSuccess,
        None,
    );
    // Status matching is case-insensitive across the success paths.
    assert_tool_call(
        "COMPLETED",
        "✓ Run: cargo test",
        Style::ToolCallSuccess,
        None,
    );
    assert_tool_call(
        "eXiTeD (0)",
        "✓ Run: cargo test",
        Style::ToolCallSuccess,
        None,
    );
    // Unknown/future statuses fall back to a dim marker with the raw
    // status surfaced as dim detail text, instead of panicking or
    // silently dropping the status.
    assert_tool_call(
        "SomeFutureStatus",
        "• Run: cargo test · SomeFutureStatus",
        Style::Dim,
        Some(Style::Dim),
    );
    assert_ne!(Style::ToolCallCanceled, Style::Dim);
}

// ── user_visible_stream_text ────────────────────────────────────────────

#[test]
fn stream_text_pure_prose_passes_through() {
    assert_eq!(
        user_visible_stream_text("just talking").as_deref(),
        Some("just talking")
    );
}

#[test]
fn stream_text_json_passes_through_verbatim() {
    let text = r#"{"explanation":"why blue","command":"ls"}"#;
    assert_eq!(user_visible_stream_text(text).as_deref(), Some(text));
}

#[test]
fn stream_text_prose_then_fence_passes_through_verbatim() {
    let text = "Here is the plan.\n```json\n{\"choices\":[]}\n```";
    assert_eq!(user_visible_stream_text(text).as_deref(), Some(text));
}

#[test]
fn stream_text_blank_is_none() {
    assert_eq!(user_visible_stream_text("   \n  "), None);
}

fn streaming_tab(buf: &str, reveal_chars: usize) -> TabSession {
    let mut tab = TabSession::default();
    tab.turn = TurnState::Streaming(SubmittedPrompt {
        id: 1,
        text: "hi".into(),
    });
    if !buf.is_empty() {
        tab.messages.push(ChatMessage::Agent(buf.to_string()));
    }
    tab.reveal_chars = reveal_chars;
    tab
}

#[test]
fn thinking_activity_follows_turn_lifecycle() {
    let mut tab = streaming_tab("", 0);
    assert!(should_show_turn_activity(&tab));

    tab.turn = TurnState::Idle;
    assert!(!should_show_turn_activity(&tab));
}

#[test]
fn breathing_dot_shrinks_then_grows() {
    assert_eq!(breathing_dot(0).as_str(), "●");
    assert_eq!(breathing_dot(5).as_str(), "•");
    assert_eq!(breathing_dot(9).as_str(), "·");
    assert_eq!(breathing_dot(14).as_str(), "•");
    assert_eq!(
        breathing_dot(ACTIVITY_CYCLE_FRAMES).as_str(),
        "●"
    );
}

#[test]
fn permission_animates_only_its_matching_tool_call() {
    let matching = ChatMessage::ToolCall(ToolCard {
        id: "tool-2".into(),
        title: "Read Cargo.toml".into(),
        status: "Completed".into(),
        kind: ToolCallKind::Read,
        location: None,
        location_is_command: false,
        cwd: None,
        output: None,
        exit_code: None,
        content: Vec::new(),
        locations: Vec::new(),
    });
    let other = ChatMessage::ToolCall(ToolCard {
        id: "tool-1".into(),
        title: "Find files".into(),
        status: "Completed".into(),
        kind: ToolCallKind::Search,
        location: None,
        location_is_command: false,
        cwd: None,
        output: None,
        exit_code: None,
        content: Vec::new(),
        locations: Vec::new(),
    });

    let matching_lines =
        build_message_lines(&matching, false, false, Some("tool-2"), 9, 80, &labels());
    let other_lines = build_message_lines(&other, false, false, Some("tool-2"), 9, 80, &labels());

    assert_eq!(matching_lines[0].spans[0].text, "·");
    assert_eq!(other_lines[0].spans[0].text, "✓");
}

#[test]
fn active_tool_call_breathes_without_permission() {
    for status in ["Pending", "InProgress", "running"] {
        let message = ChatMessage::ToolCall(ToolCard {
            id: "tool".into(),
            title: "Find files".into(),
            status: status.into(),
            kind: ToolCallKind::Search,
            location: None,
            location_is_command: false,
            cwd: None,
            output: None,
            exit_code: None,
            content: Vec::new(),
            locations: Vec::new(),
        });
        let lines = build_message_lines(&message, false, false, None, 9, 80, &labels());
        assert_eq!(lines[0].spans[0].text, "·", "{status} should breathe");
    }
}

#[test]
fn permission_animation_follows_fifo_front() {
    let mut tab = streaming_tab("", 0);
    for id in ["tool-1", "tool-2"] {
        tab.permission.push_back(PermissionState {
            tool_call_id: id.into(),
            description: "Allow access?".into(),
            title: "Allow access?".into(),
            kind_label: None,
            target: None,
            target_is_command: false,
            options: Vec::new(),
            selected: 0,
            responder: None,
        });
    }

    assert_eq!(permission_tool_call_id(&tab), Some("tool-1"));
    tab.permission.pop_front();
    assert_eq!(permission_tool_call_id(&tab), Some("tool-2"));
}

// ── truncate_render_text ────────────────────────────────────────────────

#[test]
fn truncate_passes_short_text_unchanged_borrowed() {
    let s = "short";
    match truncate_render_text(s) {
        Cow::Borrowed(b) => assert_eq!(b, "short"),
        Cow::Owned(_) => panic!("short text must not allocate"),
    }
}

#[test]
fn truncate_long_text_keeps_head_tail_and_reports_omission() {
    let s: String = std::iter::repeat('x').take(5000).collect();
    let out = truncate_render_text(&s).into_owned();
    // 5000 - (3072 + 1024) = 904 omitted.
    assert!(
        out.contains("<904 chars omitted>"),
        "expected omission marker, got: {}",
        &out[..out.len().min(80)]
    );
    assert!(out.starts_with('x'));
    assert!(out.ends_with('x'));
    assert!(
        out.chars().count() < s.chars().count(),
        "truncated output must be shorter than the input"
    );
}

#[test]
fn truncate_is_char_safe_at_boundary() {
    // Multi-byte chars just below and above the limit must not panic and
    // must round-trip below the threshold.
    let under: String = std::iter::repeat('é').take(MAX_RENDER_LINE_CHARS).collect();
    assert!(matches!(truncate_render_text(&under), Cow::Borrowed(_)));
    let over: String =
        std::iter::repeat('é').take(MAX_RENDER_LINE_CHARS + 10).collect();
    let _ = truncate_render_text(&over).into_owned(); // must not panic
}

// ── push_dot_prefixed_lines ─────────────────────────────────────────────

#[test]
fn dot_prefix_skips_leading_blank_lines() {
    // Models often prefix prose with \n / \n\n; the dot must land on the
    // first content row, not burn on an empty line.
    let mut lines = Vec::new();
    push_dot_prefixed_lines(&mut lines, "\n\nHello", 40, Style::DotAgent, Style::AgentText);
    assert_eq!(lines.len(), 1, "leading blanks must be dropped");
    assert_eq!(line_text(&lines[0]), "● Hello");
}

#[test]
fn dot_prefix_preserves_paragraph_break_and_indents_continuation() {
    let mut lines = Vec::new();
    push_dot_prefixed_lines(&mut lines, "A\n\nB", 40, Style::DotAgent, Style::AgentText);
    let texts: Vec<String> = lines.iter().map(line_text).collect();
    assert_eq!(texts, vec!["● A".to_string(), String::new(), "  B".to_string()]);
}

#[test]
fn dot_prefix_wraps_long_paragraph_with_hanging_indent() {
    let mut lines = Vec::new();
    // wrap_width 12 → body_width 10; "aaaa bbbb cccc" wraps to 2 rows.
    push_dot_prefixed_lines(
        &mut lines,
        "aaaa bbbb cccc",
        12,
        Style::DotAgent,
        Style::AgentText,
    );
    assert!(lines.len() >= 2, "long paragraph must wrap");
    assert!(line_text(&lines[0]).starts_with("● "), "first row gets the dot");
    assert!(
        line_text(&lines[1]).starts_with("  "),
        "continuation rows get a 2-cell hanging indent"
    );
}

// ── push_prompt_prefixed_lines ──────────────────────────────────────────
//
// Multi-line prompts (Shift+Enter) must render as multiple ratatui Lines:
// ratatui does not split an embedded '\n' inside a single Span/Line into
// separate rows, so lines after the first would be missing from the
// transcript.

#[test]
fn prompt_prefix_renders_each_embedded_newline_as_its_own_line() {
    let mut lines = Vec::new();
    push_prompt_prefixed_lines(&mut lines, "line one\nline two", 40);
    let texts: Vec<String> = lines.iter().map(line_text).collect();
    assert_eq!(texts, vec!["> line one".to_string(), "  line two".to_string()]);
}

#[test]
fn prompt_prefix_single_line_keeps_prior_rendering() {
    let mut lines = Vec::new();
    push_prompt_prefixed_lines(&mut lines, "hello", 40);
    assert_eq!(lines.len(), 1);
    assert_eq!(line_text(&lines[0]), "> hello");
}

#[test]
fn prompt_prefix_preserves_blank_line_between_paragraphs() {
    let mut lines = Vec::new();
    push_prompt_prefixed_lines(&mut lines, "A\n\nB", 40);
    let texts: Vec<String> = lines.iter().map(line_text).collect();
    assert_eq!(texts, vec!["> A".to_string(), String::new(), "  B".to_string()]);
}

#[test]
fn prompt_prefix_keeps_marker_on_empty_prompt() {
    // Prompt submission doesn't validate non-empty input, so an empty
    // `ChatMessage::User` must still render its "> " marker instead of
    // silently disappearing from the transcript.
    let mut lines = Vec::new();
    push_prompt_prefixed_lines(&mut lines, "", 40);
    assert_eq!(lines.len(), 1);
    assert_eq!(line_text(&lines[0]), "> ");
}

#[test]
fn prompt_prefix_keeps_marker_when_text_starts_with_newline() {
    let mut lines = Vec::new();
    push_prompt_prefixed_lines(&mut lines, "\nsecond line", 40);
    let texts: Vec<String> = lines.iter().map(line_text).collect();
    assert_eq!(texts, vec!["> ".to_string(), "  second line".to_string()]);
}

// ── collapse_newlines_for_preview ────────────────────────────────────────

#[test]
fn collapse_newlines_replaces_embedded_newline_with_space() {
    assert_eq!(
        collapse_newlines_for_preview("remember,\nAnd I would like"),
        "remember, And I would like"
    );
}

#[test]
fn collapse_newlines_borrows_when_no_newline_present() {
    assert!(matches!(
        collapse_newlines_for_preview("no newline here"),
        Cow::Borrowed(_)
    ));
}

// ── what is drawn, and where ────────────────────────────────────────────────

fn turn(prompt: &str, expanded: bool) -> CompletedTurn {
    CompletedTurn {
        prompt: prompt.to_string(),
        details: vec![ChatMessage::Agent("done".to_string())],
        expanded,
        trailing_marker: None,
    }
}

fn pane_of_turns(n: usize) -> App {
    let mut app = App::default();
    let tab = app.current_tab_mut();
    for i in 0..n {
        tab.completed_turns.push(turn(&format!("prompt {i}"), false));
    }
    app
}

const AREA: Rect = Rect {
    x: 1,
    y: 2,
    width: 40,
    height: 5,
};

#[test]
fn a_collapsed_turn_is_one_row_above_a_blank_one() {
    let lines = build_completed_turn_lines(&turn("a\nb", false), false, true, 40, &labels());
    assert_eq!(lines.len(), 2);
    assert_eq!(line_text(&lines[0]), "▶ > a b");
    assert!(lines[1].spans.is_empty(), "a blank row follows");
}

#[test]
fn the_newest_rows_are_drawn_first() {
    let app = pane_of_turns(60);
    let plan = app.plan_chat(AREA, &labels());
    assert!(plan.truncated, "what is far above is left out");
    let texts: Vec<String> = plan.lines.iter().map(line_text).collect();
    assert!(texts.iter().any(|t| t.contains("prompt 59")));
    assert!(!texts.iter().any(|t| t.ends_with("prompt 0")));
    assert_eq!(plan.offset, 0);
}

#[test]
fn a_selected_turn_comes_into_sight() {
    let mut app = pane_of_turns(60);
    let tab = app.current_tab_mut();
    assert!(tab.select_completed_turn(10));
    let plan = app.plan_chat(AREA, &labels());
    assert!(plan.selection_pending);
    let place = plan
        .places
        .iter()
        .find(|p| p.turn_index == 10)
        .expect("the turn is among the rows");
    assert!(plan.offset <= place.rows_below);
    assert!(place.rows_below + place.turn_height <= plan.offset + plan.visible_height);

    let columns = vec![None; plan.places.len()];
    let (hits, _) = plan.completed_turn_hits(AREA, &columns);
    app.on_chat_drawn(&plan, hits);
    let tab = app.current_tab().unwrap();
    assert!(!tab.completed_turn_selection_visible_pending);
    assert_eq!(tab.chat_scroll.offset, plan.offset);
}

#[test]
fn clicks_stay_in_the_pane() {
    let app = pane_of_turns(20);
    let plan = app.plan_chat(AREA, &labels());
    let columns: Vec<Option<u16>> = plan
        .places
        .iter()
        .map(|place| plan.mark_screen_row(place, AREA).map(|_| AREA.x))
        .collect();
    let (hits, links) = plan.completed_turn_hits(AREA, &columns);
    assert!(!hits.is_empty());
    for hit in &hits {
        assert!(AREA.x <= hit.start_column && hit.start_column < hit.end_column);
        assert!(hit.end_column <= AREA.x + AREA.width);
        assert!(AREA.y <= hit.row && hit.row < AREA.y + AREA.height);
        assert!(hit.turn_index < 20);
    }
    assert!(links
        .iter()
        .all(|link| link.action == CompletedTurnAction::Expand));
}

#[test]
fn the_block_is_as_high_as_what_it_shows() {
    let mut app = App::default();
    app.current_tab_mut()
        .messages
        .push(ChatMessage::User("hello".to_string()));
    let rows = message_height(&ChatMessage::User("hello".to_string()), 40);
    assert_eq!(estimated_block_height(&app, 40, &labels()), rows as u16);
}

#[test]
fn an_answer_shows_only_what_was_revealed() {
    let mut tab = streaming_tab("hello world", 5);
    let lines = build_pending_stream_lines(&tab, 40);
    assert_eq!(line_text(&lines[0]), "● hello");
    tab.turn = TurnState::Idle;
    assert!(build_pending_stream_lines(&tab, 40).is_empty());
}

#[test]
fn steps_of_a_plan_are_marked() {
    let message = ChatMessage::Plan(vec![
        PlanEntry {
            content: "read".to_string(),
            status: PlanEntryStatus::Completed,
        },
        PlanEntry {
            content: "write".to_string(),
            status: PlanEntryStatus::Pending,
        },
    ]);
    let lines = build_message_lines(&message, false, false, None, 0, 40, &labels());
    let texts: Vec<String> = lines.iter().map(line_text).collect();
    assert!(texts[0].contains("Plan"));
    assert!(texts.iter().any(|t| t.contains("[x]") && t.contains("read")));
    assert!(texts.iter().any(|t| t.contains("[ ]") && t.contains("write")));
}

#[test]
fn a_command_of_one_statement_is_one_row() {
    assert_eq!(command_display_lines("cargo test"), ["    $ cargo test"]);
    assert_eq!(command_display_lines("  cargo test ;"), ["    $ cargo test"]);
    assert!(command_display_lines(" ; ").is_empty());
    assert!(command_display_lines("").is_empty());
}

#[test]
fn a_command_is_split_at_its_top_level_only() {
    assert_eq!(command_display_lines("a; b"), ["    $ a", "    $ b"]);
    assert_eq!(
        command_display_lines("echo 'a; b'; echo \"c; d\""),
        ["    $ echo 'a; b'", "    $ echo \"c; d\""]
    );
    assert_eq!(
        command_display_lines("foreach ($x in 1..3) { a; b }; (c; d)"),
        ["    $ foreach ($x in 1..3) { a; b }", "    $ (c; d)"]
    );
    assert_eq!(
        command_display_lines("echo \"`\"; a\"; b"),
        ["    $ echo \"`\"; a\"", "    $ b"]
    );
    assert_eq!(command_display_lines("echo 'a`'; b"), ["    $ echo 'a`'", "    $ b"]);
    assert_eq!(command_display_lines("a); b"), ["    $ a)", "    $ b"]);
}

#[test]
fn a_long_command_folds_its_remainder() {
    let statements: Vec<String> = (0..MAX_COMMAND_STATEMENTS + 3).map(|i| format!("s{i}")).collect();
    let rows = command_display_lines(&statements.join("; "));
    assert_eq!(rows.len(), MAX_COMMAND_STATEMENTS + 1);
    assert_eq!(rows[0], "    $ s0");
    assert_eq!(rows[MAX_COMMAND_STATEMENTS], "    +3 more");
    let rows = command_display_lines(&statements[..MAX_COMMAND_STATEMENTS].join(";"));
    assert_eq!(rows.len(), MAX_COMMAND_STATEMENTS);
    assert_eq!(rows.last().map(String::as_str), Some("    $ s5"));
}

#[test]
fn a_compact_card_says_nothing_of_its_locations() {
    let content = vec![ToolCallContent::Text(ToolCallOutput {
        text: "done".into(),
        truncated: false,
    })];
    let locations = vec![ToolCallLocation { path: "a.rs".into(), line: Some(3) }];
    assert_eq!(
        tool_detail_lines(&content, &locations, false),
        tool_detail_lines(&content, &Vec::new(), false)
    );
    assert_ne!(
        tool_detail_lines(&content, &locations, true),
        tool_detail_lines(&content, &Vec::new(), true)
    );
}

#[test]
fn the_places_of_a_plan_go_from_the_newest_turn_upwards() {
    let app = pane_of_turns(7);
    let plan = app.plan_chat(AREA, &labels());
    let turns: Vec<usize> = plan.places.iter().map(|place| place.turn_index).collect();
    let expected: Vec<usize> = (0..7).rev().take(turns.len()).collect();
    assert!(!turns.is_empty());
    assert_eq!(turns, expected);
}
