//! Handing a prompt over to an agent of its own.

use wta::delegate::{
    active_pane_wsl_distro, cap_delegate_context, delegate_launchable_for_target,
    sanitize_windows_agent_cwd, DelegateActionOf, DelegateEvent, Delegation,
};
use wta::json::{no_members, put, Json};

#[test]
fn cap_returns_short_context_unchanged() {
    let ctx = "small output";
    assert_eq!(cap_delegate_context(ctx, 1024), ctx);
}

#[test]
fn cap_keeps_tail_and_marks_truncation() {
    let ctx: String = (0..5000u32)
        .map(|i| char::from(b'a' + (i % 26) as u8))
        .collect();
    let out = cap_delegate_context(&ctx, 1000);
    assert!(out.starts_with("…(truncated)\n"));
    // keeps the tail (most recent output)
    assert!(out.ends_with(&ctx[ctx.len() - 100..]));
    assert!(out.len() <= 1000);
}

#[test]
fn cap_is_char_boundary_safe() {
    // Each '⭐' is 3 bytes; cutting must land on a char boundary (no panic).
    let ctx: String = std::iter::repeat('⭐').take(500).collect();
    let out = cap_delegate_context(&ctx, 100);
    assert!(out.len() <= 100);
    assert!(out.ends_with('⭐'));
    assert!(out
        .chars()
        .all(|c| c == '⭐' || "…(truncated)\n".contains(c)));
}

#[test]
fn cap_omits_marker_when_limit_is_too_small() {
    assert_eq!(cap_delegate_context("prefix-tail", 4), "tail");
}

fn pane(shell: &str, cwd: &str) -> Json {
    let mut members = no_members();
    put(&mut members, "session_id", Json::of_text("pane"));
    put(&mut members, "shell", Json::of_text(shell));
    put(&mut members, "cwd", Json::of_text(cwd));
    Json::of_members(members)
}

fn answer(key: &str, value: &str) -> Json {
    let mut members = no_members();
    put(&mut members, key, Json::of_text(value));
    Json::of_members(members)
}

fn start(host_launchable: bool, prompt: &str) -> Delegation {
    let (delegation, action) = Delegation::start(
        "codex".to_string(),
        "codex.exe".to_string(),
        host_launchable,
        true,
        true,
        Some(prompt.to_string()),
        Some("C:\\".to_string()),
    );
    assert!(matches!(action, DelegateActionOf::GetActivePane));
    delegation
}

#[test]
fn a_prompt_goes_to_an_agent_on_the_host() {
    let mut d = start(true, "fix it");
    match d.advance(DelegateEvent::ActivePane(Some(pane("pwsh", "C:\\"))), "id".to_string()) {
        DelegateActionOf::ReadPane { pane_id, lines } => {
            assert_eq!((pane_id.as_str(), lines), ("pane", 30));
        }
        _ => panic!("expected to read the pane"),
    }
    let prompt = match d.advance(
        DelegateEvent::PaneOutput(Some(answer("content", "error: no such file"))),
        String::new(),
    ) {
        DelegateActionOf::BuildHostCommand { prompt, session_id } => {
            assert_eq!(session_id.as_deref(), Some("id"));
            prompt.expect("a prompt")
        }
        _ => panic!("expected to build the command"),
    };
    assert!(prompt.contains("fix it"));
    assert!(prompt.contains("error: no such file"));
    match d.advance(
        DelegateEvent::HostCommand { commandline: "codex".to_string(), home: None },
        String::new(),
    ) {
        DelegateActionOf::CreateTab { commandline, cwd } => {
            assert_eq!(commandline, "codex");
            assert_eq!(cwd.as_deref(), Some("C:\\"));
        }
        _ => panic!("expected a tab"),
    }
    match d.advance(DelegateEvent::TabCreated(answer("session_id", "new")), String::new()) {
        DelegateActionOf::Register { session_id, pane_id, runtime_id, cwd, distro } => {
            assert_eq!(session_id, "id");
            assert_eq!(pane_id, "new");
            assert_eq!(runtime_id, "codex");
            assert_eq!(cwd.as_deref(), Some("C:\\"));
            assert_eq!(distro, None);
        }
        _ => panic!("expected to register the session"),
    }
    assert!(matches!(
        d.advance(DelegateEvent::Registered, String::new()),
        DelegateActionOf::Finish
    ));
}

#[test]
fn a_distribution_with_the_agent_is_used() {
    let mut d = start(false, "  ");
    match d.advance(
        DelegateEvent::ActivePane(Some(pane("wsl:Ubuntu", "/home"))),
        String::new(),
    ) {
        DelegateActionOf::ProbeDistro { distro, agent_exe } => {
            assert_eq!((distro.as_str(), agent_exe.as_str()), ("Ubuntu", "codex.exe"));
        }
        _ => panic!("expected to look into the distribution"),
    }
    match d.advance(DelegateEvent::Probed(true), "id".to_string()) {
        DelegateActionOf::BuildHostCommand { prompt, session_id } => {
            assert_eq!(prompt, None, "a blank prompt is none");
            assert_eq!(session_id.as_deref(), Some("id"));
        }
        _ => panic!("expected to build the command"),
    }
    assert!(matches!(
        d.advance(
            DelegateEvent::HostCommand { commandline: "codex".to_string(), home: None },
            String::new(),
        ),
        DelegateActionOf::BuildWslCommand { .. }
    ));
    match d.advance(
        DelegateEvent::WslCommand { command: "'codex'".to_string(), distro: "Ubuntu".to_string() },
        String::new(),
    ) {
        DelegateActionOf::CreateTab { commandline, cwd } => {
            assert_eq!(commandline, "wsl -d Ubuntu --cd \"/home\" -- bash -lc 'codex'");
            assert_eq!(cwd, None);
        }
        _ => panic!("expected a tab"),
    }
    match d.advance(DelegateEvent::TabCreated(answer("session_id", "new")), String::new()) {
        DelegateActionOf::Register { cwd, distro, .. } => {
            assert_eq!(cwd.as_deref(), Some("/home"));
            assert_eq!(distro.as_deref(), Some("Ubuntu"));
        }
        _ => panic!("expected to register the session"),
    }
}

#[test]
fn an_agent_that_cannot_start_gets_no_prompt() {
    let mut d = start(false, "fix it");
    match d.advance(DelegateEvent::ActivePane(None), "id".to_string()) {
        DelegateActionOf::BuildHostCommand { prompt, session_id } => {
            assert_eq!(prompt, None);
            assert_eq!(session_id, None);
        }
        _ => panic!("expected to build the command"),
    }
}

#[test]
fn sessions_get_ids_of_their_own() {
    let id = || {
        let mut d = start(true, "");
        match d.next(DelegateEvent::ActivePane(None)) {
            DelegateActionOf::BuildHostCommand { session_id, .. } => session_id.expect("an id"),
            _ => panic!("expected to build the command"),
        }
    };
    let (a, b) = (id(), id());
    assert_eq!(a.len(), 36);
    assert_eq!(a.as_bytes()[14], b'4');
    assert_ne!(a, b);
}

#[test]
fn a_host_agent_or_one_in_the_distribution_will_do() {
    assert!(delegate_launchable_for_target(true, false));
    assert!(delegate_launchable_for_target(false, true));
    assert!(!delegate_launchable_for_target(false, false));
}

#[test]
fn the_shell_of_a_pane_names_its_distribution() {
    assert_eq!(active_pane_wsl_distro(&pane("wsl:Debian", "/")).as_deref(), Some("Debian"));
    assert_eq!(active_pane_wsl_distro(&pane("wsl:", "/")), None);
    assert_eq!(active_pane_wsl_distro(&pane("pwsh", "/")), None);
}

#[test]
fn a_path_of_a_distribution_becomes_the_home_on_the_host() {
    let home = Some("C:\\Users\\me".to_string());
    assert_eq!(sanitize_windows_agent_cwd(&Some("/home/me".to_string()), home.clone()), home);
    assert_eq!(sanitize_windows_agent_cwd(&Some("/home/me".to_string()), None), None);
    assert_eq!(
        sanitize_windows_agent_cwd(&Some("D:\\src".to_string()), home.clone()).as_deref(),
        Some("D:\\src")
    );
    assert_eq!(sanitize_windows_agent_cwd(&None, home), None);
}

#[test]
fn as_much_of_the_end_is_kept_as_fits() {
    // The note takes 15 bytes, so two stars of 3 bytes each fit into 23.
    let ctx: String = std::iter::repeat('⭐').take(9).collect();
    assert_eq!(cap_delegate_context(&ctx, 23), "…(truncated)\n⭐⭐");
}
