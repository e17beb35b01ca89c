//! What the hooks commands report.

use wta::agents::{AgentRegistry, KnownAgent};
use wta::hooks::{
    build_install_report, format_bundle_source, format_install_failure, format_version_column,
    unique_bundle_version, BundleSourceInfo, CliKind, CliScope, CliStatus,
    CliUninstallResult, InstallFailure, InstallReport, StatusReport, UninstallReport,
};

/// The id of an agent: its name in lower case.
fn id_of(kind: CliKind) -> &'static str {
    Box::leak(format!("{kind:?}").to_lowercase().into_boxed_str())
}

fn known(kind: CliKind) -> KnownAgent {
    KnownAgent {
        id: id_of(kind),
        name: Box::leak(format!("{kind:?}").into_boxed_str()),
    }
}

fn registry() -> AgentRegistry {
    AgentRegistry {
        claude: known(CliKind::Claude),
    }
}

fn failure(cli: &'static str, reason: &str) -> InstallFailure {
    InstallFailure {
        cli,
        reason: reason.to_string(),
    }
}

/// The regression this whole path exists for: `<cli> plugin install` fails
/// because a running CLI holds the plugin directory open, but a previous
/// install is still on disk, so the on-disk status check sees a plugin and
/// reports nothing wrong. The spawn error must still reach the user.
#[test]
fn spawn_failure_is_reported_even_when_a_stale_plugin_is_still_installed() {
    let failures = [failure(
        "copilot",
        "copilot plugin install wt-agent-hooks@wt-local failed: Access is denied. (os error 5)",
    )];
    let message = format_install_failure(&failures, &[]);
    assert!(
        message.contains("copilot"),
        "the failing CLI must be named: {message}"
    );
    assert!(
        message.contains("Access is denied"),
        "the underlying reason must survive: {message}"
    );
}

/// The opposite failure shape: the install command claimed success but left
/// nothing behind. That is what the on-disk check is for.
#[test]
fn silent_no_op_install_is_reported_from_the_status_check() {
    let message = format_install_failure(&[], &[id_of(CliKind::Claude)]);
    assert!(message.contains(id_of(CliKind::Claude)), "{message}");
    assert!(
        message.contains("no hooks are registered"),
        "a silent no-op must be described as such: {message}"
    );
}

/// A CLI that both failed to spawn and shows no hooks installed is one
/// problem, not two — reporting it twice buries the real reason.
#[test]
fn a_cli_in_both_signals_is_listed_once_with_the_real_reason() {
    let failures = [failure("copilot", "install failed: os error 5")];
    let message = format_install_failure(&failures, &["copilot"]);
    assert_eq!(
        message.matches("copilot:").count(),
        1,
        "expected exactly one per-CLI detail line: {message}"
    );
    assert!(
        !message.contains("no hooks are registered"),
        "the concrete reason must win over the generic one: {message}"
    );
    assert_eq!(
        message.lines().next().unwrap(),
        "hooks installation failed for: copilot",
        "the summary line must not repeat the CLI: {message}"
    );
}

fn cli_with_bundle(name: &'static str, bundle: Option<&str>) -> CliStatus {
    CliStatus {
        name,
        binary_on_path: true,
        binary_path: None,
        marketplace_registered: true,
        marketplace_path: None,
        marketplace_path_valid: true,
        plugin_installed: true,
        plugin_enabled: true,
        installed_version: None,
        bundle_version: bundle.map(str::to_string),
        detection_fallback: None,
    }
}

/// The whole point of the column: a CLI running a different build than the
/// bundle must not read as plain "installed". The mismatch is labelled,
/// not arrowed, because installed is routinely the *newer* side when the
/// marketplace points at another worktree.
#[test]
fn version_column_shows_the_bundle_version_only_when_it_differs() {
    assert_eq!(
        format_version_column(Some("0.1.6"), Some("0.1.5"), true),
        "v0.1.6 (bundle v0.1.5)"
    );
    assert_eq!(
        format_version_column(Some("0.1.5"), Some("0.1.5"), true),
        "v0.1.5",
        "matching versions must not carry redundant bundle noise"
    );
}

/// "Installed but the version is unreadable" and "nothing installed" are
/// different problems; collapsing them would hide the first one, which is
/// what the fs-fallback detection path actually produces.
#[test]
fn version_column_distinguishes_unknown_from_absent() {
    assert_eq!(format_version_column(None, Some("0.1.5"), true), "v?");
    assert_eq!(format_version_column(None, Some("0.1.5"), false), "-");
}

/// A CLI whose bundle manifest is unreadable still installed a real
/// version; the missing half must not erase the known half.
#[test]
fn version_column_survives_an_unknown_bundle_version() {
    assert_eq!(format_version_column(Some("0.1.5"), None, true), "v0.1.5");
}

/// The header line may only claim one bundle version when there is one.
#[test]
fn bundle_version_is_summarized_only_when_every_cli_agrees() {
    let agreeing = [
        cli_with_bundle("copilot", Some("0.1.5")),
        cli_with_bundle(id_of(CliKind::Claude), Some("0.1.5")),
    ];
    assert_eq!(
        unique_bundle_version(&agreeing).as_deref(),
        Some("v0.1.5")
    );

    let mixed = [
        cli_with_bundle("copilot", Some("0.1.5")),
        cli_with_bundle(id_of(CliKind::Claude), Some("0.1.4")),
    ];
    assert_eq!(
        unique_bundle_version(&mixed),
        None,
        "a mixed bundle must not be summarized as a single version"
    );

    let unknown = [cli_with_bundle("copilot", None)];
    assert_eq!(unique_bundle_version(&unknown), None);
}

/// One unreadable manifest is enough to disqualify the header claim. This
/// is the dangerous case: the CLI we know nothing about shows no bundle
/// suffix on its row, which reads just like "matches the bundle", so a
/// confident header version would compound the error rather than expose it.
#[test]
fn one_unknown_bundle_version_suppresses_the_header_claim() {
    let partial = [
        cli_with_bundle("copilot", Some("0.1.5")),
        cli_with_bundle(id_of(CliKind::Claude), None),
    ];
    assert_eq!(unique_bundle_version(&partial), None);

    // Order must not matter — the unknown may come first.
    let partial_reversed = [
        cli_with_bundle("copilot", None),
        cli_with_bundle(id_of(CliKind::Claude), Some("0.1.5")),
    ];
    assert_eq!(unique_bundle_version(&partial_reversed), None);

    assert_eq!(unique_bundle_version(&[]), None);
}

/// An unresolvable bundle must still print its `kind`, because that is the
/// field that explains *why* there's no version to show.
#[test]
fn bundle_source_label_degrades_to_the_bare_kind() {
    assert_eq!(
        format_bundle_source("exe-sibling", Some("v0.1.5".to_string())),
        "exe-sibling v0.1.5"
    );
    assert_eq!(format_bundle_source("none", None), "none");
}

// ---- install report (`wta hooks install --json`) --------------------

fn status_of(clis: Vec<CliStatus>) -> StatusReport {
    StatusReport {
        schema_version: 4,
        clis,
        bundle_source: BundleSourceInfo {
            kind: "exe-sibling",
            path: None,
        },
    }
}

fn absent_cli(name: &'static str) -> CliStatus {
    CliStatus {
        name,
        binary_on_path: false,
        binary_path: None,
        marketplace_registered: false,
        marketplace_path: None,
        marketplace_path_valid: false,
        plugin_installed: false,
        plugin_enabled: false,
        installed_version: None,
        bundle_version: None,
        detection_fallback: None,
    }
}

fn no_failures() -> [InstallFailure; 0] {
    []
}

fn outcome_of<'a>(
    report: &'a InstallReport,
    name: &str,
) -> &'a str {
    report
        .clis
        .iter()
        .find(|c| c.name == name)
        .unwrap_or_else(|| panic!("{name} missing from report"))
        .outcome
}

/// The reason the JSON exists: the Settings UI needs to name the CLI that
/// failed. A spawn failure must be reported per-CLI, with its reason, and
/// must not contaminate the CLIs that installed fine.
#[test]
fn install_report_names_the_failing_cli_and_carries_its_reason() {
    let status = status_of(vec![
        cli_with_bundle("copilot", Some("0.1.6")),
        cli_with_bundle("codex", Some("0.1.6")),
    ]);
    let failures = [failure(
        "codex",
        "codex plugin marketplace add failed: already added from a different source",
    )];

    let report = build_install_report(CliScope::All, &status, &failures, &[], &registry());

    assert_eq!(outcome_of(&report, "copilot"), "installed");
    assert_eq!(outcome_of(&report, "codex"), "failed");
    let codex = report.clis.iter().find(|c| c.name == "codex").unwrap();
    assert!(
        codex
            .reason
            .as_deref()
            .unwrap_or_default()
            .contains("already added from a different source"),
        "the actionable reason must survive into the report: {:?}",
        codex.reason
    );
}

/// Mirrors `spawn_failure_is_reported_even_when_a_stale_plugin_is_still_installed`:
/// the status check sees the PREVIOUS plugin on disk, so only the spawn
/// failure distinguishes "installed" from "still running the old build".
#[test]
fn install_report_prefers_the_spawn_failure_over_a_stale_on_disk_plugin() {
    let status = status_of(vec![cli_with_bundle("copilot", Some("0.1.5"))]);
    let failures = [failure(
        "copilot",
        "install failed: Access is denied. (os error 5)",
    )];

    let report = build_install_report(CliScope::All, &status, &failures, &[], &registry());

    assert_eq!(
        outcome_of(&report, "copilot"),
        "failed",
        "a stale plugin left on disk must not read as a successful install"
    );
}

/// A CLI that simply isn't on the machine is not a failure — reporting it
/// as one would name every uninstalled CLI in the Settings error line.
#[test]
fn install_report_marks_an_absent_cli_as_skipped() {
    let status = status_of(vec![
        cli_with_bundle("copilot", Some("0.1.6")),
        absent_cli("gemini"),
    ]);

    let report = build_install_report(CliScope::All, &status, &no_failures(), &[], &registry());

    assert_eq!(outcome_of(&report, "gemini"), "skipped");
    assert_eq!(outcome_of(&report, "copilot"), "installed");
}

/// The silent no-op: the install command reported success but left nothing
/// registered. It has no spawn reason, so `reason` stays absent while the
/// outcome is still `failed`.
#[test]
fn install_report_reports_a_silent_no_op_as_failed_without_a_reason() {
    let status = status_of(vec![absent_cli(id_of(CliKind::Claude))]);

    let report = build_install_report(CliScope::All, &status, &no_failures(), &[id_of(CliKind::Claude)], &registry());

    let claude = report.clis.iter().find(|c| c.name == id_of(CliKind::Claude)).unwrap();
    assert_eq!(claude.outcome, "failed");
    assert!(claude.reason.is_none());
}

/// `--cli <x>` must narrow the report too, or the UI would name CLIs the
/// user never asked to install.
#[test]
fn install_report_honors_a_single_cli_scope() {
    let status = status_of(vec![
        cli_with_bundle("copilot", Some("0.1.6")),
        cli_with_bundle("codex", Some("0.1.6")),
    ]);

    let report =
        build_install_report(CliScope::One(CliKind::Codex), &status, &no_failures(), &[], &registry());

    assert_eq!(report.clis.len(), 1);
    assert_eq!(report.clis[0].name, "codex");
}

/// The C++ parser rejects an unexpected `schema_version` outright, so the
/// version this code emits is part of the contract, not an implementation
/// detail.
#[test]
fn install_report_pins_its_schema_version() {
    let report =
        build_install_report(CliScope::All, &status_of(vec![]), &no_failures(), &[], &registry());
    assert_eq!(report.schema_version, 1);
}

#[test]
fn a_removal_succeeds_where_no_step_failed() {
    let removal = |attempted: bool, plugin: Option<bool>, staging: bool| UninstallReport {
        clis: vec![CliUninstallResult {
            name: "codex",
            attempted,
            plugin_uninstalled: plugin,
            marketplace_removed: None,
            staging_dir_removed: staging,
            messages: Vec::new(),
        }],
    };
    assert!(removal(true, Some(true), true).succeeded());
    assert!(removal(true, None, true).succeeded());
    assert!(removal(false, Some(false), false).succeeded());
    assert!(!removal(true, Some(false), true).succeeded());
    assert!(!removal(true, Some(true), false).succeeded());
}
