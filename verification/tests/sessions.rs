//! The table of sessions and the dates in it.

use wta::agents::{AgentRegistry, KnownAgent};
use wta::app::event::SessionOrigin;
use wta::bytes::{fits_bytes, head_within, tail_within};
use wta::calendar::{civil_from_days, format_epoch_ms_utc};
use wta::hooks::CliKind;
use wta::sessions::{
    cli_source_label, format_sessions_table, list_sessions, location_label, origin_label,
    CliSource, OriginFilter, SessionInfo, SessionLocation, SessionsOriginArg,
};

fn known(kind: CliKind) -> KnownAgent {
    KnownAgent {
        id: Box::leak(format!("{kind:?}").to_lowercase().into_boxed_str()),
        name: Box::leak(format!("{kind:?}").into_boxed_str()),
    }
}

fn registry() -> AgentRegistry {
    AgentRegistry {
        claude: known(CliKind::Claude),
    }
}

fn session(id: &str, at: Option<u64>, origin: Option<SessionOrigin>) -> SessionInfo {
    SessionInfo {
        session_id: id.to_string(),
        status: None,
        cli_source: Some(CliSource::Copilot),
        origin,
        location: SessionLocation::Host,
        pane_session_id: None,
        updated_at: None,
        last_activity_at_ms: at,
        title: Some("title".to_string()),
    }
}

fn ids(v: &[SessionInfo]) -> Vec<&str> {
    v.iter().map(|s| s.session_id.as_str()).collect()
}

#[test]
fn the_newest_sessions_come_first_and_ties_keep_their_order() {
    let all = vec![
        session("old", Some(1), None),
        session("never", None, None),
        session("new", Some(9), None),
        session("tie", Some(1), None),
    ];
    let sorted = list_sessions(all, SessionsOriginArg::All.to_filter());
    assert_eq!(ids(&sorted), ["new", "old", "tie", "never"]);
}

#[test]
fn sessions_are_shown_by_where_they_come_from() {
    let all = || {
        vec![
            session("pane", Some(3), Some(SessionOrigin::AgentPane)),
            session("shell", Some(2), Some(SessionOrigin::Unknown)),
            session("untold", Some(1), None),
        ]
    };
    assert_eq!(ids(&list_sessions(all(), OriginFilter::ShellOnly)), ["shell", "untold"]);
    assert_eq!(ids(&list_sessions(all(), OriginFilter::AgentPaneOnly)), ["pane"]);
    assert_eq!(list_sessions(all(), OriginFilter::All).len(), 3);
}

#[test]
fn the_table_has_a_head_and_a_row_for_each_session() {
    let table = format_sessions_table(
        &vec![session("abcdefghijklmnopqrstuvwxyz", Some(0), None)],
        &registry(),
    );
    let rows: Vec<&str> = table.lines().collect();
    assert_eq!(rows.len(), 2);
    assert!(rows[0].starts_with("#    SESSION"));
    assert!(rows[1].starts_with("1    abcdefghijklmnopqrstuvwx -"));
    assert!(rows[1].contains("Copilot"));
    assert!(rows[1].contains("1970-01-01 00:00"));
    assert!(rows[1].ends_with("title"));
    assert_eq!(format_sessions_table(&vec![], &registry()), "No sessions.\n");
}

#[test]
fn what_is_not_known_is_a_dash() {
    assert_eq!(cli_source_label(&None, &registry()), "-");
    assert_eq!(
        cli_source_label(&Some(CliSource::Unknown("mine".to_string())), &registry()),
        "mine"
    );
    assert_eq!(cli_source_label(&Some(CliSource::OpenCode), &registry()), "OpenCode");
    assert_eq!(origin_label(None), "-");
    assert!(location_label(&SessionLocation::Wsl { distro: "Ubuntu".to_string() })
        .contains("Ubuntu"));
}

#[test]
fn days_become_dates() {
    for (days, year, month, day) in [
        (0u64, 1970, 1, 1),
        (58, 1970, 2, 28),
        (59, 1970, 3, 1),
        (11_016, 2000, 2, 29),
        (11_017, 2000, 3, 1),
        (19_722, 2023, 12, 31),
        (19_782, 2024, 2, 29),
        (47_540, 2100, 2, 28),
        (47_541, 2100, 3, 1),
    ] {
        let date = civil_from_days(days);
        assert_eq!((date.year, date.month, date.day), (year, month, day), "{days}");
    }
}

#[test]
fn moments_are_shown_in_utc() {
    assert_eq!(format_epoch_ms_utc(0), "1970-01-01 00:00");
    assert_eq!(format_epoch_ms_utc(1_709_210_096_999), "2024-02-29 12:34");
}

#[test]
fn texts_are_cut_between_characters() {
    assert!(fits_bytes("äb", 3));
    assert!(!fits_bytes("äb", 2));
    assert_eq!(tail_within("aäb", 2), "b");
    assert_eq!(tail_within("aäb", 3), "äb");
    assert_eq!(head_within("aäb", 2), "a");
    assert_eq!(head_within("aäb", 3), "aä");
}

#[test]
fn a_later_time_is_written_later() {
    let times = [0, 59_999, 60_000, 3_600_000, 86_399_999, 86_400_000, 951_782_400_000];
    for pair in times.windows(2) {
        let (a, b) = (format_epoch_ms_utc(pair[0]), format_epoch_ms_utc(pair[1]));
        assert!(a <= b, "{a} {b}");
        assert_eq!(a == b, pair[0] / 60_000 == pair[1] / 60_000);
        assert_eq!(a.len(), 16);
    }
    assert_eq!(format_epoch_ms_utc(253_402_300_799_999), "9999-12-31 23:59");
}

#[test]
fn a_source_is_shown_by_its_name() {
    let labels = [
        (CliSource::Copilot, "Copilot"),
        (CliSource::Codex, "Codex"),
        (CliSource::Gemini, "Gemini"),
        (CliSource::OpenCode, "OpenCode"),
    ];
    for (source, label) in labels {
        assert_eq!(cli_source_label(&Some(source), &registry()), label);
    }
}
