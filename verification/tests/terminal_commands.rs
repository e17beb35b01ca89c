//! The commands that talk to the terminal: what they ask and what they show.

use wta::agents::{AgentRegistry, KnownAgent};
use wta::cli::info::{connection_failed_line, info_head_lines, InfoActionOf, InfoWalk};
use wta::cli::locale::normalize_locale;
use wta::cli::output::{
    format_active_pane, format_closed_pane, format_created_pane, format_created_tab,
    format_pane_status, format_panes_human, format_tabs_human, format_windows_human, OutputLabels,
    Shown,
};
use wta::cli::request::{
    capture_params, get_first_tab_id, get_first_window_id, history_document,
    init_timeout_secs, listed_history, listens_to, named_pipe, new_tab_params, pipe_step, probed_agent, probed_distro, process_label,
    resolve_pane_id, set_env, split_pane_params, CommandGroup, HistoryRow, LaunchFlags, PipeStep,
    SESSION_LIST_TIMEOUT_SECS,
};
use wta::hooks::CliKind;
use wta::json::{no_members, put, Json};
use wta::phrases::TemplatePart;
use wta::sessions::CliSource;

fn known(kind: CliKind) -> KnownAgent {
    KnownAgent {
        id: Box::leak(format!("{kind:?}").to_lowercase().into_boxed_str()),
        name: Box::leak(format!("{kind:?}").into_boxed_str()),
    }
}

fn registry() -> AgentRegistry {
    AgentRegistry {
        claude: known(CliKind::Claude),
    }
}

fn text(s: &str) -> Json {
    Json::of_text(s)
}

fn object(members: Vec<(&str, Json)>) -> Json {
    let mut v = no_members();
    for (key, value) in members {
        put(&mut v, key, value);
    }
    Json::of_members(v)
}

fn list(key: &str, items: Vec<Json>) -> Json {
    object(vec![(key, Json::List(items))])
}

fn template(words: &str, arguments: usize) -> Vec<TemplatePart> {
    let mut parts = vec![TemplatePart::Words(words.to_string())];
    for i in 0..arguments {
        parts.push(TemplatePart::Words(" ".to_string()));
        parts.push(TemplatePart::Argument(i));
    }
    parts
}

fn labels() -> OutputLabels {
    OutputLabels {
        no_windows: template("no windows", 0),
        windows_header: template("windows", 0),
        no_tabs: template("no tabs", 0),
        tabs_header: template("tabs", 0),
        no_panes: template("no panes", 0),
        panes_header: template("panes", 0),
        active_pane: template("active", 3),
        pane_running: template("running", 1),
        pane_exited: template("exited", 2),
        created_tab: template("tab", 2),
        created_pane: template("pane", 1),
        pane_closed: template("closed", 1),
    }
}

fn lines(shown: Shown) -> Vec<String> {
    match shown {
        Shown::Lines(v) => v,
        Shown::Raw => panic!("expected lines"),
    }
}

#[test]
fn an_empty_list_is_said_to_be_empty() {
    assert_eq!(lines(format_windows_human(&list("windows", vec![]), &labels())), ["no windows"]);
    assert_eq!(lines(format_tabs_human(&list("tabs", vec![]), &labels())), ["no tabs"]);
    assert_eq!(lines(format_panes_human(&list("panes", vec![]), &labels())), ["no panes"]);
}

#[test]
fn a_list_stands_below_its_header() {
    let answer = list(
        "windows",
        vec![object(vec![("window_id", text("7"))]), object(vec![("window_id", text("8"))])],
    );
    let shown = lines(format_windows_human(&answer, &labels()));
    assert_eq!(shown.len(), 3);
    assert_eq!(shown[0], "windows");
    assert!(shown[1].contains('7'));
    assert!(shown[2].contains('8'));
}

#[test]
fn an_answer_of_another_form_is_shown_as_it_is() {
    assert!(matches!(format_tabs_human(&text("?"), &labels()), Shown::Raw));
}

#[test]
fn single_answers_are_put_into_a_line() {
    let pane = object(vec![
        ("session_id", text("P")),
        ("tab_id", text("T")),
        ("window_id", text("W")),
    ]);
    assert_eq!(format_active_pane(&pane, &labels()), "active P T W");
    assert_eq!(format_created_tab(&pane, &labels()), "tab T P");
    assert_eq!(format_created_pane(&pane, &labels()), "pane P");
    assert_eq!(format_closed_pane(&"P".to_string(), &labels()), "closed P");
}

#[test]
fn a_pane_runs_or_has_exited() {
    let running = object(vec![("state", text("running")), ("pid", Json::of_number(12))]);
    assert_eq!(format_pane_status(&running, &labels()), "running 12");
    let exited = object(vec![
        ("state", text("exited")),
        ("pid", Json::of_number(12)),
        ("exit_code", Json::of_number(3)),
    ]);
    assert_eq!(format_pane_status(&exited, &labels()), "exited 3 12");
}

#[test]
fn the_walk_finds_the_pane_of_the_process() {
    let mut walk = InfoWalk::start(42);
    let windows = list(
        "windows",
        vec![object(vec![("window_id", text("w1"))]), object(vec![("window_id", text("w2"))])],
    );
    match walk.on_windows(&Some(windows)) {
        InfoActionOf::ListTabs { window_id } => assert_eq!(window_id, "w1"),
        _ => panic!("expected the tabs of the first window"),
    }
    match walk.on_tabs(&None) {
        InfoActionOf::ListTabs { window_id } => assert_eq!(window_id, "w2"),
        _ => panic!("expected the tabs of the second window"),
    }
    let tabs = list("tabs", vec![object(vec![("tab_id", text("t1"))])]);
    match walk.on_tabs(&Some(tabs)) {
        InfoActionOf::ListPanes { tab_id } => assert_eq!(tab_id, "t1"),
        _ => panic!("expected the panes of the tab"),
    }
    let panes = list(
        "panes",
        vec![
            object(vec![("session_id", text("p0")), ("pid", Json::of_number(7))]),
            object(vec![("session_id", text("p1")), ("pid", Json::of_number(42))]),
        ],
    );
    assert!(matches!(walk.on_panes(&Some(panes)), InfoActionOf::Report));
    let place = walk.found.as_ref().expect("the pane");
    assert_eq!((place.pane_id.as_str(), place.tab_id.as_str()), ("p1", "t1"));
    assert_eq!(place.window_id, "w2");
    assert_eq!((walk.total_windows, walk.total_tabs, walk.total_panes), (2, 1, 2));
    assert!(!walk.report_lines().is_empty());
}

#[test]
fn a_terminal_that_does_not_answer_ends_the_walk() {
    let mut walk = InfoWalk::start(1);
    assert!(matches!(walk.on_windows(&None), InfoActionOf::Report));
    assert!(walk.found.is_none());
}

#[test]
fn a_locale_falls_back_within_its_language_and_else_to_english() {
    let available: Vec<String> = ["en-US", "de-DE", "zh-CN", "zh-TW"]
        .iter()
        .map(|s| s.to_string())
        .collect();
    assert_eq!(normalize_locale("de-DE", &available), "de-DE");
    assert_eq!(normalize_locale("DE-AT", &available), "de-DE");
    assert_eq!(normalize_locale("fr-FR", &available), "en-US");
    assert_eq!(normalize_locale("", &available), "en-US");
}

#[test]
fn the_process_names_its_log_by_what_it_does() {
    let flags = |master, connect_master, legacy, command| LaunchFlags {
        master,
        connect_master,
        legacy,
        command,
    };
    assert_eq!(process_label(&flags(true, true, true, None), 9), "main_master");
    assert_eq!(process_label(&flags(false, true, true, None), 9), "main_helper-9");
    assert_eq!(process_label(&flags(false, false, true, None), 9), "cli");
    assert_eq!(process_label(&flags(false, false, false, None), 9), "main");
    for (group, label) in [
        (CommandGroup::Delegate, "delegate"),
        (CommandGroup::Probe, "probe"),
        (CommandGroup::HooksInstall, "install-hooks"),
        (CommandGroup::Other, "cli"),
    ] {
        assert_eq!(process_label(&flags(false, false, false, Some(group)), 9), label);
    }
}

#[test]
fn requests_hold_only_what_was_asked_for() {
    let tab = new_tab_params(&Some("htop".to_string()), &None, &Some("top".to_string()));
    assert_eq!(tab.text_member("command").as_deref(), Some("htop"));
    assert_eq!(tab.text_member("title").as_deref(), Some("top"));
    assert!(!tab.has("cwd"));

    let split = split_pane_params("p", false, true, &Some("0.5".to_string()), &None);
    assert_eq!(split.text_member("session_id").as_deref(), Some("p"));
    assert_eq!(split.text_member("direction").as_deref(), Some("vertical"));
    assert!(split.has("size"));
    assert!(!split.has("command"));
    let split = split_pane_params("p", false, false, &None, &None);
    assert_eq!(split.text_member("direction").as_deref(), Some("automatic"));

    let capture = capture_params("p", Some(20), true);
    assert_eq!(capture.whole_member("max_lines"), Some(20));
    assert_eq!(capture.text_member("source").as_deref(), Some("last_prompt"));
    assert!(!capture_params("p", None, false).has("source"));
}

#[test]
fn a_pane_that_is_not_named_is_the_active_one() {
    let active = object(vec![("session_id", text("front"))]);
    assert_eq!(
        resolve_pane_id(&Some("named".to_string()), &active).as_deref(),
        Some("named")
    );
    assert_eq!(resolve_pane_id(&None, &active).as_deref(), Some("front"));
    assert_eq!(resolve_pane_id(&None, &Json::Null), None);
}

#[test]
fn the_first_window_and_the_first_tab_are_read() {
    let windows = list("windows", vec![object(vec![("window_id", text("w"))])]);
    assert_eq!(get_first_window_id(&windows).as_deref(), Some("w"));
    assert_eq!(get_first_window_id(&list("windows", vec![])), None);
    let tabs = list("tabs", vec![object(vec![("tab_id", text("t"))])]);
    assert_eq!(get_first_tab_id(&tabs).as_deref(), Some("t"));
}

#[test]
fn only_events_of_the_pane_are_listened_to() {
    let event = object(vec![
        ("type", text("event")),
        ("params", object(vec![("session_id", text("p"))])),
    ]);
    assert!(listens_to(&event, &None));
    assert!(listens_to(&event, &Some("p".to_string())));
    assert!(!listens_to(&event, &Some("q".to_string())));
    assert!(!listens_to(&object(vec![("type", text("answer"))]), &None));
}

#[test]
fn a_shell_is_told_where_the_terminal_listens() {
    for (shell, command) in [
        ("bash", "export WT_COM_CLSID='{id}'"),
        ("pwsh", "$env:WT_COM_CLSID = '{id}'"),
        ("cmd", "set WT_COM_CLSID={id}"),
        ("fish", "set -gx WT_COM_CLSID '{id}'"),
    ] {
        assert_eq!(set_env(shell, "{id}").expect("a known shell").command, command);
    }
    assert!(set_env("tcsh", "{id}").is_none());
}

#[test]
fn a_pipe_is_waited_for_only_so_long() {
    assert_eq!(named_pipe(&Some("  ".to_string())), None);
    assert_eq!(named_pipe(&Some("pipe".to_string())).as_deref(), Some("pipe"));
    assert!(matches!(pipe_step(0, &None), PipeStep::Wait));
    assert!(matches!(pipe_step(u32::MAX, &None), PipeStep::Fail));
    match pipe_step(0, &Some(" name \n".to_string())) {
        PipeStep::Use(name) => assert_eq!(name, "name"),
        _ => panic!("expected the name"),
    }
}

#[test]
fn the_history_of_one_agent_or_of_all() {
    assert!(matches!(probed_agent(None, &registry()), Ok(None)));
    assert!(matches!(
        probed_agent(Some("codex"), &registry()),
        Ok(Some(CliSource::Codex))
    ));
    match probed_agent(Some("nobody"), &registry()) {
        Err(name) => assert_eq!(name, "nobody"),
        Ok(_) => panic!("expected a refusal"),
    }
    assert_eq!(probed_distro(" Ubuntu ").as_deref(), Some("Ubuntu"));
    assert_eq!(probed_distro("  "), None);
}

#[test]
fn the_history_says_where_it_was_found_when_asked() {
    let rows = vec![HistoryRow {
        key: "k".to_string(),
        cli: "codex".to_string(),
        title: "t".to_string(),
        cwd: "/".to_string(),
        distro: Some("Ubuntu".to_string()),
    }];
    let row = |document: &Json| match document {
        Json::List(items) => {
            assert_eq!(items.len(), 1);
            (items[0].text_member("key"), items[0].text_member("distro"))
        }
        _ => panic!("expected a list"),
    };
    assert_eq!(
        row(&history_document(&rows, true)),
        (Some("k".to_string()), Some("Ubuntu".to_string()))
    );
    assert_eq!(row(&history_document(&rows, false)), (Some("k".to_string()), None));
}

#[test]
fn an_agent_that_may_be_fetched_has_longer_to_come_up() {
    assert_eq!(init_timeout_secs(true), 25);
    assert_eq!(init_timeout_secs(false), 10);
    assert_eq!(SESSION_LIST_TIMEOUT_SECS, 10);
}

#[test]
fn a_history_that_cannot_be_listed_is_empty() {
    assert!(listed_history(Err("Method not found".to_string())).is_empty());
    let row = HistoryRow {
        key: "key".to_string(),
        cli: "Codex".to_string(),
        title: "title".to_string(),
        cwd: "/".to_string(),
        distro: None,
    };
    assert_eq!(listed_history(Ok(vec![row])).len(), 1);
}

#[test]
fn the_report_says_first_where_it_runs() {
    assert_eq!(
        info_head_lines(&None)[2..],
        ["  Status: Not running inside Windows Terminal", "  (WT_COM_CLSID not set)"]
    );
    assert_eq!(
        info_head_lines(&Some("id".to_string())),
        [
            "Windows Terminal Protocol Info",
            "========================================",
            "  COM CLSID: id",
            "  Source: WT_COM_CLSID env var",
            "",
        ]
    );
    assert_eq!(connection_failed_line("no"), "  Connection failed: no");
}

#[test]
fn normalizing_a_locale_twice_is_normalizing_it_once() {
    let available: Vec<String> = ["en-US", "de-DE", "en-GB", "zh-TW"]
        .iter()
        .map(|s| s.to_string())
        .collect();
    for asked in ["de-AT", "en-AU", "EN-us", "zh-HK", "xx", "", "en-GB"] {
        let once = normalize_locale(asked, &available);
        assert_eq!(normalize_locale(&once, &available), once, "{asked}");
    }
}

#[test]
fn american_english_is_used_where_nothing_else_is() {
    let available = vec!["en-GB".to_string()];
    assert_eq!(normalize_locale("xx", &available), "en-US");
    assert_eq!(normalize_locale("en-US", &available), "en-GB", "of the same language");
}
