//! The hooks that agents call: what installing and removing them came to.

use vstd::prelude::*;
use vstd::string::*;

use crate::agents::AgentRegistry;
use crate::phrases::{fill_none, fill_one, fill_two, filled, TemplatePart};
use crate::text::{
    cat, cat3, holds_text, join, joined, law_padding_adds_blanks, lemma_precedes_irreflexive,
    lemma_precedes_total, lemma_precedes_transitive, opt_view, pad_right, padded, precedes, same, views,
};
use crate::transcript::copy_text;

verus! {

// ---------------------------------------------------------------------------
// Agents
// ---------------------------------------------------------------------------

/// An agent that has hooks.
#[derive(Clone, Copy, Debug, PartialEq, Eq, Structural)]
pub enum CliKind {
    Copilot,
    Claude,
    Gemini,
    Codex,
    OpenCode,
}

impl CliKind {
    /// The name of the agent.
    pub open spec fn label(self, agents: AgentRegistry) -> Seq<char> {
        match self {
            CliKind::Copilot => "copilot"@,
            CliKind::Claude => agents.claude.id@,
            CliKind::Gemini => "gemini"@,
            CliKind::Codex => "codex"@,
            CliKind::OpenCode => "opencode"@,
        }
    }

    /// The name of the agent.
    pub fn name(self, agents: &AgentRegistry) -> (r: &'static str)
        ensures
            r@ == self.label(*agents),
    {
        match self {
            CliKind::Copilot => "copilot",
            CliKind::Claude => agents.claude.id,
            CliKind::Gemini => "gemini",
            CliKind::Codex => "codex",
            CliKind::OpenCode => "opencode",
        }
    }
}

/// The agents that a command is meant for.
#[derive(Clone, Copy, Debug, PartialEq, Eq, Structural)]
pub enum CliScope {
    All,
    One(CliKind),
}

impl CliScope {
    /// Whether an agent is meant.
    pub open spec fn covers(self, name: Seq<char>, agents: AgentRegistry) -> bool {
        match self {
            CliScope::All => true,
            CliScope::One(kind) => name == kind.label(agents),
        }
    }

    /// Whether an agent is meant.
    pub fn contains(self, name: &str, agents: &AgentRegistry) -> (r: bool)
        ensures
            r == self.covers(name@, *agents),
    {
        match self {
            CliScope::All => true,
            CliScope::One(kind) => same(name, kind.name(agents)),
        }
    }
}

/// The agents that a command names.
#[derive(Clone, Copy, Debug, PartialEq, Eq, Structural)]
pub enum HooksCliFilter {
    All,
    Copilot,
    Claude,
    Gemini,
    Codex,
    OpenCode,
}

impl HooksCliFilter {
    /// The agents that the command is meant for.
    pub open spec fn scope(self) -> CliScope {
        match self {
            HooksCliFilter::All => CliScope::All,
            HooksCliFilter::Copilot => CliScope::One(CliKind::Copilot),
            HooksCliFilter::Claude => CliScope::One(CliKind::Claude),
            HooksCliFilter::Gemini => CliScope::One(CliKind::Gemini),
            HooksCliFilter::Codex => CliScope::One(CliKind::Codex),
            HooksCliFilter::OpenCode => CliScope::One(CliKind::OpenCode),
        }
    }

    /// The agents that the command is meant for.
    pub fn into_scope(self) -> (r: CliScope)
        ensures
            r == self.scope(),
    {
        match self {
            HooksCliFilter::All => CliScope::All,
            HooksCliFilter::Copilot => CliScope::One(CliKind::Copilot),
            HooksCliFilter::Claude => CliScope::One(CliKind::Claude),
            HooksCliFilter::Gemini => CliScope::One(CliKind::Gemini),
            HooksCliFilter::Codex => CliScope::One(CliKind::Codex),
            HooksCliFilter::OpenCode => CliScope::One(CliKind::OpenCode),
        }
    }
}

/// What is found of one agent's hooks.
pub struct CliStatus {
    pub name: &'static str,
    pub binary_on_path: bool,
    pub binary_path: Option<String>,
    pub marketplace_registered: bool,
    pub marketplace_path: Option<String>,
    pub marketplace_path_valid: bool,
    pub plugin_installed: bool,
    pub plugin_enabled: bool,
    pub installed_version: Option<String>,
    pub bundle_version: Option<String>,
    pub detection_fallback: Option<&'static str>,
}

/// Where the hooks come from.
pub struct BundleSourceInfo {
    pub kind: &'static str,
    pub path: Option<String>,
}

/// What is found of all agents' hooks.
pub struct StatusReport {
    pub schema_version: u32,
    pub clis: Vec<CliStatus>,
    pub bundle_source: BundleSourceInfo,
}

/// An installation that failed.
pub struct InstallFailure {
    pub cli: &'static str,
    pub reason: String,
}

// ---------------------------------------------------------------------------
// What an installation came to
// ---------------------------------------------------------------------------

/// What an installation came to for one agent.
pub struct CliInstallResult {
    pub name: &'static str,
    pub outcome: &'static str,
    pub reason: Option<String>,
}

/// What an installation came to for one agent, mathematically.
#[verifier::ext_equal]
pub struct InstallResultView {
    pub name: Seq<char>,
    pub outcome: Seq<char>,
    pub reason: Option<Seq<char>>,
}

impl View for CliInstallResult {
    type V = InstallResultView;

    open spec fn view(&self) -> InstallResultView {
        InstallResultView {
            name: self.name@,
            outcome: self.outcome@,
            reason: opt_view(self.reason),
        }
    }
}

/// What an installation came to.
pub struct InstallReport {
    pub schema_version: u32,
    pub clis: Vec<CliInstallResult>,
}

/// The version of the report's form.
pub const INSTALL_REPORT_SCHEMA: u32 = 1;

/// What an installation came to for some agents, mathematically.
pub open spec fn results_view(v: Seq<CliInstallResult>) -> Seq<InstallResultView> {
    v.map_values(|c: CliInstallResult| c@)
}

/// Names, mathematically.
pub open spec fn names_view(v: Seq<&str>) -> Seq<Seq<char>> {
    v.map_values(|s: &str| s@)
}

/// The first failure of an agent.
pub open spec fn failure_of(failures: Seq<InstallFailure>, name: Seq<char>) -> Option<
    InstallFailure,
>
    decreases failures.len(),
{
    if failures.len() == 0 {
        None
    } else if failures[0].cli@ == name {
        Some(failures[0])
    } else {
        failure_of(failures.skip(1), name)
    }
}

/// What an installation came to for one agent. A failure that was reported
/// counts, whatever is found on disk: that may be left from before.
pub open spec fn verdict(
    cli: CliStatus,
    failures: Seq<InstallFailure>,
    missing: Seq<Seq<char>>,
) -> InstallResultView {
    match failure_of(failures, cli.name@) {
        Some(failure) => InstallResultView {
            name: cli.name@,
            outcome: "failed"@,
            reason: Some(failure.reason@),
        },
        None => InstallResultView {
            name: cli.name@,
            outcome: if missing.contains(cli.name@) {
                "failed"@
            } else if cli.binary_on_path && cli.plugin_installed {
                "installed"@
            } else {
                "skipped"@
            },
            reason: None,
        },
    }
}

/// What an installation came to for the agents that were meant.
pub open spec fn verdicts(
    clis: Seq<CliStatus>,
    scope: CliScope,
    agents: AgentRegistry,
    failures: Seq<InstallFailure>,
    missing: Seq<Seq<char>>,
) -> Seq<InstallResultView>
    decreases clis.len(),
{
    if clis.len() == 0 {
        Seq::empty()
    } else {
        let before = verdicts(clis.drop_last(), scope, agents, failures, missing);
        if scope.covers(clis.last().name@, agents) {
            before.push(verdict(clis.last(), failures, missing))
        } else {
            before
        }
    }
}

/// Whether the hooks of an agent are missing though they were to be installed:
/// the agent is there, and they are not.
pub open spec fn lacks_hooks(cli: CliStatus, scope: CliScope, agents: AgentRegistry) -> bool {
    scope.covers(cli.name@, agents) && cli.binary_on_path && !cli.plugin_installed
}

/// The agents whose hooks are missing.
pub open spec fn lacking(
    clis: Seq<CliStatus>,
    scope: CliScope,
    agents: AgentRegistry,
) -> Seq<Seq<char>>
    decreases clis.len(),
{
    if clis.len() == 0 {
        Seq::empty()
    } else {
        let before = lacking(clis.drop_last(), scope, agents);
        if lacks_hooks(clis.last(), scope, agents) {
            before.push(clis.last().name@)
        } else {
            before
        }
    }
}

fn find_failure<'a>(failures: &'a [InstallFailure], name: &str) -> (r: Option<&'a InstallFailure>)
    ensures
        match r {
            Some(f) => failure_of(failures@, name@) == Some(*f),
            None => failure_of(failures@, name@) is None,
        },
{
    let mut i: usize = 0;
    proof {
        assert(failures@.skip(0) =~= failures@);
    }
    while i < failures.len()
        invariant
            i <= failures@.len(),
            failure_of(failures@, name@) == failure_of(failures@.skip(i as int), name@),
        decreases failures.len() - i,
    {
        proof {
            assert(failures@.skip(i as int)[0] == failures@[i as int]);
            assert(failures@.skip(i as int).skip(1) =~= failures@.skip(i + 1));
        }
        if same(failures[i].cli, name) {
            return Some(&failures[i]);
        }
        i += 1;
    }
    proof {
        assert(failures@.skip(i as int).len() == 0);
    }
    None
}

fn names_contain(names: &[&str], name: &str) -> (r: bool)
    ensures
        r == names_view(names@).contains(name@),
{
    let mut i: usize = 0;
    while i < names.len()
        invariant
            i <= names@.len(),
            forall|k: int| 0 <= k < i ==> names_view(names@)[k] != name@,
        decreases names.len() - i,
    {
        if same(names[i], name) {
            proof {
                assert(names_view(names@)[i as int] == name@);
            }
            return true;
        }
        i += 1;
    }
    false
}

fn judge(cli: &CliStatus, failures: &[InstallFailure], missing: &[&str]) -> (r: CliInstallResult)
    ensures
        r@ == verdict(*cli, failures@, names_view(missing@)),
{
    if let Some(failure) = find_failure(failures, cli.name) {
        return CliInstallResult {
            name: cli.name,
            outcome: "failed",
            reason: Some(failure.reason.clone()),
        };
    }
    let outcome = if names_contain(missing, cli.name) {
        "failed"
    } else if cli.binary_on_path && cli.plugin_installed {
        "installed"
    } else {
        "skipped"
    };
    CliInstallResult { name: cli.name, outcome, reason: None }
}

/// What an installation came to for each agent that was meant.
pub fn build_install_report(
    scope: CliScope,
    status: &StatusReport,
    spawn_failures: &[InstallFailure],
    missing: &[&str],
    agents: &AgentRegistry,
) -> (r: InstallReport)
    ensures
        r.schema_version == INSTALL_REPORT_SCHEMA,
        results_view(r.clis@) == verdicts(
            status.clis@,
            scope,
            *agents,
            spawn_failures@,
            names_view(missing@),
        ),
{
    let mut out: Vec<CliInstallResult> = Vec::new();
    let mut i: usize = 0;
    proof {
        assert(results_view(out@) =~= Seq::<InstallResultView>::empty());
        assert(status.clis@.take(0) =~= Seq::<CliStatus>::empty());
    }
    while i < status.clis.len()
        invariant
            i <= status.clis@.len(),
            results_view(out@) == verdicts(
                status.clis@.take(i as int),
                scope,
                *agents,
                spawn_failures@,
                names_view(missing@),
            ),
        decreases status.clis.len() - i,
    {
        let ghost before = out@;
        proof {
            assert(status.clis@.take(i + 1).drop_last() =~= status.clis@.take(i as int));
        }
        if scope.contains(status.clis[i].name, agents) {
            let result = judge(&status.clis[i], spawn_failures, missing);
            out.push(result);
            proof {
                assert(results_view(out@) =~= results_view(before).push(result@));
            }
        }
        i += 1;
    }
    proof {
        assert(status.clis@.take(i as int) =~= status.clis@);
    }
    InstallReport { schema_version: INSTALL_REPORT_SCHEMA, clis: out }
}

/// The agents whose hooks are missing though they were to be installed.
pub fn missing_hooks(scope: CliScope, status: &StatusReport, agents: &AgentRegistry) -> (r: Vec<
    &'static str,
>)
    ensures
        names_view(r@) == lacking(status.clis@, scope, *agents),
{
    let mut out: Vec<&'static str> = Vec::new();
    let mut i: usize = 0;
    proof {
        assert(names_view(out@) =~= Seq::<Seq<char>>::empty());
        assert(status.clis@.take(0) =~= Seq::<CliStatus>::empty());
    }
    while i < status.clis.len()
        invariant
            i <= status.clis@.len(),
            names_view(out@) == lacking(status.clis@.take(i as int), scope, *agents),
        decreases status.clis.len() - i,
    {
        let ghost before = out@;
        proof {
            assert(status.clis@.take(i + 1).drop_last() =~= status.clis@.take(i as int));
        }
        let cli = &status.clis[i];
        if scope.contains(cli.name, agents) && cli.binary_on_path && !cli.plugin_installed {
            let name = cli.name;
            out.push(name);
            proof {
                assert(names_view(out@) =~= names_view(before).push(name@));
            }
        }
        i += 1;
    }
    proof {
        assert(status.clis@.take(i as int) =~= status.clis@);
    }
    out
}

// ---------------------------------------------------------------------------
// Names in order
// ---------------------------------------------------------------------------

/// Names in order with one more; one that is already there is not added.
pub open spec fn with_name(names: Seq<Seq<char>>, name: Seq<char>) -> Seq<Seq<char>>
    decreases names.len(),
{
    if names.len() == 0 {
        seq![name]
    } else if names[0] == name {
        names
    } else if precedes(name, names[0]) {
        seq![name] + names
    } else {
        seq![names[0]] + with_name(names.skip(1), name)
    }
}

/// Names in order, each once.
pub open spec fn in_order(names: Seq<Seq<char>>) -> Seq<Seq<char>>
    decreases names.len(),
{
    if names.len() == 0 {
        Seq::empty()
    } else {
        with_name(in_order(names.drop_last()), names.last())
    }
}

fn comes_before(a: &str, b: &str) -> (r: bool)
    ensures
        r == precedes(a@, b@),
{
    let x = crate::text::chars_of(a);
    let y = crate::text::chars_of(b);
    let mut i: usize = 0;
    proof {
        assert(x@.skip(0) =~= x@);
        assert(y@.skip(0) =~= y@);
    }
    while i < x.len() && i < y.len() && x[i] == y[i]
        invariant
            i <= x@.len(),
            i <= y@.len(),
            x@ == a@,
            y@ == b@,
            precedes(a@, b@) == precedes(x@.skip(i as int), y@.skip(i as int)),
        decreases x.len() - i,
    {
        proof {
            assert(x@.skip(i as int).skip(1) =~= x@.skip(i + 1));
            assert(y@.skip(i as int).skip(1) =~= y@.skip(i + 1));
        }
        i += 1;
    }
    if i >= y.len() {
        false
    } else if i >= x.len() {
        true
    } else {
        proof {
            assert(x@.skip(i as int)[0] == x@[i as int]);
            assert(y@.skip(i as int)[0] == y@[i as int]);
        }
        x[i] < y[i]
    }
}

fn add_name(names: &mut Vec<String>, name: &str)
    ensures
        views(final(names)@) == with_name(views(old(names)@), name@),
{
    let ghost all = views(names@);
    let mut i: usize = 0;
    proof {
        assert(all.skip(0) =~= all);
        assert(all.take(0) + with_name(all, name@) =~= with_name(all, name@));
    }
    while i < names.len()
        invariant
            i <= names@.len(),
            names@ == old(names)@,
            all == views(names@),
            with_name(all, name@) == all.take(i as int) + with_name(all.skip(i as int), name@),
        decreases names.len() - i,
    {
        proof {
            assert(all.skip(i as int)[0] == names@[i as int]@);
            assert(all.skip(i as int).skip(1) =~= all.skip(i + 1));
        }
        if same(names[i].as_str(), name) {
            proof {
                assert(all.take(i as int) + all.skip(i as int) =~= all);
            }
            return;
        }
        if comes_before(name, names[i].as_str()) {
            names.insert(i, name.to_owned());
            proof {
                assert(views(names@) =~= all.take(i as int) + (seq![name@] + all.skip(i as int)));
            }
            return;
        }
        proof {
            let rest = with_name(all.skip(i + 1), name@);
            assert(all.take(i as int) + (seq![all[i as int]] + rest) =~= all.take(i + 1) + rest);
        }
        i += 1;
    }
    names.push(name.to_owned());
    proof {
        assert(all.skip(i as int).len() == 0);
        assert(views(names@) =~= all.take(i as int) + seq![name@]);
    }
}

// ---------------------------------------------------------------------------
// What is said of a failure
// ---------------------------------------------------------------------------

/// The names of the agents that failed.
pub open spec fn failed_names(failures: Seq<InstallFailure>) -> Seq<Seq<char>> {
    failures.map_values(|f: InstallFailure| f.cli@)
}

/// One line for each failure.
pub open spec fn failure_lines(failures: Seq<InstallFailure>) -> Seq<char>
    decreases failures.len(),
{
    if failures.len() == 0 {
        Seq::empty()
    } else {
        failure_lines(failures.drop_last()) + ("\n  "@ + failures.last().cli@ + ": "@
            + failures.last().reason@)
    }
}

/// One line for each agent whose hooks are missing without a failure.
pub open spec fn missing_lines(missing: Seq<Seq<char>>, failures: Seq<InstallFailure>) -> Seq<char>
    decreases missing.len(),
{
    if missing.len() == 0 {
        Seq::empty()
    } else {
        let before = missing_lines(missing.drop_last(), failures);
        if failure_of(failures, missing.last()) is Some {
            before
        } else {
            before + ("\n  "@ + missing.last()
                + ": install reported no error but no hooks are registered"@)
        }
    }
}

/// What is said of an installation that failed.
pub open spec fn failure_text(failures: Seq<InstallFailure>, missing: Seq<Seq<char>>) -> Seq<char> {
    "hooks installation failed for: "@ + joined(in_order(failed_names(failures) + missing), ", "@)
        + failure_lines(failures) + missing_lines(missing, failures)
}

fn failed_list(failures: &[InstallFailure], missing: &[&str]) -> (r: Vec<String>)
    ensures
        views(r@) == in_order(failed_names(failures@) + names_view(missing@)),
{
    let mut names: Vec<String> = Vec::new();
    let ghost all = failed_names(failures@) + names_view(missing@);
    let mut i: usize = 0;
    proof {
        assert(views(names@) =~= Seq::<Seq<char>>::empty());
        assert(all.take(0) =~= Seq::<Seq<char>>::empty());
    }
    while i < failures.len()
        invariant
            i <= failures@.len(),
            all == failed_names(failures@) + names_view(missing@),
            views(names@) == in_order(all.take(i as int)),
        decreases failures.len() - i,
    {
        proof {
            assert(all.take(i + 1).drop_last() =~= all.take(i as int));
            assert(all.take(i + 1).last() == failures@[i as int].cli@);
        }
        add_name(&mut names, failures[i].cli);
        i += 1;
    }
    let mut k: usize = 0;
    while k < missing.len()
        invariant
            k <= missing@.len(),
            all == failed_names(failures@) + names_view(missing@),
            views(names@) == in_order(all.take(failures@.len() + k)),
        decreases missing.len() - k,
    {
        proof {
            let n = failures@.len() + k;
            assert(all.take(n + 1).drop_last() =~= all.take(n as int));
            assert(all.take(n + 1).last() == missing@[k as int]@);
        }
        add_name(&mut names, missing[k]);
        k += 1;
    }
    proof {
        assert(all.take(failures@.len() + k) =~= all);
    }
    names
}

fn failure_details(failures: &[InstallFailure]) -> (r: String)
    ensures
        r@ == failure_lines(failures@),
{
    let mut out = String::new();
    let mut i: usize = 0;
    proof {
        assert(failures@.take(0) =~= Seq::<InstallFailure>::empty());
    }
    while i < failures.len()
        invariant
            i <= failures@.len(),
            out@ == failure_lines(failures@.take(i as int)),
        decreases failures.len() - i,
    {
        let ghost before = out@;
        proof {
            assert(failures@.take(i + 1).drop_last() =~= failures@.take(i as int));
        }
        out.append("\n  ");
        out.append(failures[i].cli);
        out.append(": ");
        out.append(failures[i].reason.as_str());
        proof {
            assert(out@ =~= before + ("\n  "@ + failures@[i as int].cli@ + ": "@
                + failures@[i as int].reason@));
        }
        i += 1;
    }
    proof {
        assert(failures@.take(i as int) =~= failures@);
    }
    out
}

fn missing_details(missing: &[&str], failures: &[InstallFailure]) -> (r: String)
    ensures
        r@ == missing_lines(names_view(missing@), failures@),
{
    let mut out = String::new();
    let ghost all = names_view(missing@);
    let mut i: usize = 0;
    proof {
        assert(all.take(0) =~= Seq::<Seq<char>>::empty());
    }
    while i < missing.len()
        invariant
            i <= missing@.len(),
            all == names_view(missing@),
            out@ == missing_lines(all.take(i as int), failures@),
        decreases missing.len() - i,
    {
        let ghost before = out@;
        proof {
            assert(all.take(i + 1).drop_last() =~= all.take(i as int));
            assert(all.take(i + 1).last() == missing@[i as int]@);
        }
        if find_failure(failures, missing[i]).is_none() {
            out.append("\n  ");
            out.append(missing[i]);
            out.append(": install reported no error but no hooks are registered");
            proof {
                assert(out@ =~= before + ("\n  "@ + missing@[i as int]@
                    + ": install reported no error but no hooks are registered"@));
            }
        }
        i += 1;
    }
    proof {
        assert(all.take(i as int) =~= all);
    }
    out
}

/// What is said of an installation that failed.
pub fn format_install_failure(spawn_failures: &[InstallFailure], missing: &[&str]) -> (r: String)
    ensures
        r@ == failure_text(spawn_failures@, names_view(missing@)),
{
    let names = failed_list(spawn_failures, missing);
    let list = join(&names, ", ");
    let mut out = cat("hooks installation failed for: ", list.as_str());
    out.append(failure_details(spawn_failures).as_str());
    out.append(missing_details(missing, spawn_failures).as_str());
    out
}

// ---------------------------------------------------------------------------
// Versions
// ---------------------------------------------------------------------------

/// The version that all agents' hooks have, where they agree on one.
pub open spec fn common_version(clis: Seq<CliStatus>) -> Option<Seq<char>> {
    if clis.len() > 0 && clis[0].bundle_version is Some && (forall|i: int|
        0 <= i < clis.len() ==> opt_view((#[trigger] clis[i]).bundle_version) == opt_view(
            clis[0].bundle_version,
        )) {
        Some("v"@ + clis[0].bundle_version->0@)
    } else {
        None
    }
}

/// The version that all agents' hooks have, where they agree on one.
pub fn unique_bundle_version(clis: &[CliStatus]) -> (r: Option<String>)
    ensures
        opt_view(r) == common_version(clis@),
{
    if clis.len() == 0 {
        return None;
    }
    let first = match &clis[0].bundle_version {
        Some(v) => v,
        None => {
            return None;
        },
    };
    let mut i: usize = 1;
    while i < clis.len()
        invariant
            1 <= i <= clis@.len(),
            clis@[0].bundle_version is Some,
            first@ == clis@[0].bundle_version->0@,
            forall|k: int|
                0 <= k < i ==> opt_view((#[trigger] clis@[k]).bundle_version) == Some(first@),
        decreases clis.len() - i,
    {
        if !holds_text(&clis[i].bundle_version, first.as_str()) {
            proof {
                assert(opt_view(clis@[i as int].bundle_version) != opt_view(
                    clis@[0].bundle_version,
                ));
            }
            return None;
        }
        i += 1;
    }
    Some(cat("v", first.as_str()))
}

/// Where the hooks come from, with their version where it is known.
pub open spec fn source_text(kind: Seq<char>, version: Option<Seq<char>>) -> Seq<char> {
    match version {
        Some(v) => kind + " "@ + v,
        None => kind,
    }
}

/// Where the hooks come from, with their version where it is known.
pub fn format_bundle_source(kind: &str, version: Option<String>) -> (r: String)
    ensures
        r@ == source_text(kind@, opt_view(version)),
{
    match version {
        Some(v) => cat3(kind, " ", v.as_str()),
        None => kind.to_owned(),
    }
}

/// The version of an agent's hooks, beside the one of the bundle where that is
/// another.
pub open spec fn version_text(
    installed: Option<Seq<char>>,
    bundle: Option<Seq<char>>,
    plugin_installed: bool,
) -> Seq<char> {
    if !plugin_installed {
        "-"@
    } else {
        match (installed, bundle) {
            (None, _) => "v?"@,
            (Some(v), Some(b)) if b != v => "v"@ + v + " (bundle v"@ + b + ")"@,
            (Some(v), _) => "v"@ + v,
        }
    }
}

/// An optional text, mathematically.
pub open spec fn opt_str(s: Option<&str>) -> Option<Seq<char>> {
    match s {
        Some(s) => Some(s@),
        None => None,
    }
}

/// The version of an agent's hooks, beside the one of the bundle where that is
/// another.
pub fn format_version_column(
    installed: Option<&str>,
    bundle: Option<&str>,
    plugin_installed: bool,
) -> (r: String)
    ensures
        r@ == version_text(opt_str(installed), opt_str(bundle), plugin_installed),
{
    if !plugin_installed {
        return "-".to_owned();
    }
    let installed = match installed {
        Some(v) => v,
        None => {
            return "v?".to_owned();
        },
    };
    let mut out = cat("v", installed);
    if let Some(b) = bundle {
        if !same(b, installed) {
            out.append(" (bundle v");
            out.append(b);
            out.append(")");
        }
    }
    out
}

// ---------------------------------------------------------------------------
// What is shown
// ---------------------------------------------------------------------------

/// The words of the commands on hooks.
pub struct HooksLabels {
    /// Of where the hooks come from, and the path.
    pub bundle_source: Vec<TemplatePart>,
    pub cli_not_on_path: Vec<TemplatePart>,
    pub installed: Vec<TemplatePart>,
    pub marketplace_path_stale: Vec<TemplatePart>,
    pub installed_but_disabled: Vec<TemplatePart>,
    pub not_installed: Vec<TemplatePart>,
    pub uninstall_skipped: Vec<TemplatePart>,
    /// Of the agents.
    pub install_succeeded: Vec<TemplatePart>,
    pub install_attempted: Vec<TemplatePart>,
}

/// Yes or no.
pub open spec fn yes_no(b: bool) -> Seq<char> {
    if b {
        "yes"@
    } else {
        "no"@
    }
}

/// Yes or no.
pub fn yn(b: bool) -> (r: &'static str)
    ensures
        r@ == yes_no(b),
{
    if b {
        "yes"
    } else {
        "no"
    }
}

/// How an agent's hooks are doing, in a word.
pub open spec fn summary_of(c: CliStatus, labels: HooksLabels) -> Seq<char> {
    if !c.binary_on_path {
        filled(labels.cli_not_on_path@, seq![])
    } else if c.plugin_installed && c.plugin_enabled && c.marketplace_path_valid {
        filled(labels.installed@, seq![])
    } else if c.plugin_installed && !c.marketplace_path_valid {
        filled(labels.marketplace_path_stale@, seq![])
    } else if c.plugin_installed {
        filled(labels.installed_but_disabled@, seq![])
    } else {
        filled(labels.not_installed@, seq![])
    }
}

/// How an agent's hooks are doing, in detail.
pub open spec fn detail_of(c: CliStatus) -> Seq<char> {
    "marketplace="@ + yes_no(c.marketplace_registered) + ", path_valid="@ + yes_no(
        c.marketplace_path_valid,
    ) + ", plugin="@ + yes_no(c.plugin_installed) + ", enabled="@ + yes_no(c.plugin_enabled)
        + match c.detection_fallback {
        Some(m) => ", detection="@ + m@,
        None => Seq::empty(),
    }
}

/// The line on one agent, with the version of its hooks where that is asked for.
pub open spec fn status_line(c: CliStatus, versions: bool, labels: HooksLabels) -> Seq<char> {
    "  "@ + padded(c.name@, 10) + " "@ + padded(summary_of(c, labels), 28) + (if versions {
        "  "@ + padded(
            version_text(
                opt_view(c.installed_version),
                opt_view(c.bundle_version),
                c.plugin_installed,
            ),
            24,
        )
    } else {
        Seq::empty()
    }) + "  ("@ + detail_of(c) + ")"@
}

/// The lines on some agents.
pub open spec fn status_lines(clis: Seq<CliStatus>, versions: bool, labels: HooksLabels) -> Seq<
    Seq<char>,
>
    decreases clis.len(),
{
    if clis.len() == 0 {
        Seq::empty()
    } else {
        let c = clis.last();
        let lines = status_lines(clis.drop_last(), versions, labels).push(
            status_line(c, versions, labels),
        );
        match c.marketplace_path {
            Some(path) => lines.push("    path: "@ + path@),
            None => lines,
        }
    }
}

/// A text in brackets behind a space, where there is one.
pub open spec fn in_brackets(text: Option<Seq<char>>) -> Seq<char> {
    match text {
        Some(text) => " ("@ + text + ")"@,
        None => Seq::empty(),
    }
}

/// Where the hooks come from, as a line.
pub open spec fn source_line(
    source: BundleSourceInfo,
    version: Option<Seq<char>>,
    labels: HooksLabels,
) -> Seq<char> {
    filled(
        labels.bundle_source@,
        seq![
            source_text(source.kind@, version),
            in_brackets(opt_view(source.path)),
        ],
    )
}

/// The report on hooks as lines.
pub open spec fn status_text(r: StatusReport, versions: bool, labels: HooksLabels) -> Seq<Seq<char>> {
    seq![
        source_line(
            r.bundle_source,
            if versions {
                common_version(r.clis@)
            } else {
                None
            },
            labels,
        ),
        Seq::empty(),
    ] + status_lines(r.clis@, versions, labels)
}

fn summary_text(c: &CliStatus, labels: &HooksLabels) -> (r: String)
    ensures
        r@ == summary_of(*c, *labels),
{
    if !c.binary_on_path {
        fill_none(&labels.cli_not_on_path)
    } else if c.plugin_installed && c.plugin_enabled && c.marketplace_path_valid {
        fill_none(&labels.installed)
    } else if c.plugin_installed && !c.marketplace_path_valid {
        fill_none(&labels.marketplace_path_stale)
    } else if c.plugin_installed {
        fill_none(&labels.installed_but_disabled)
    } else {
        fill_none(&labels.not_installed)
    }
}

fn detail_text(c: &CliStatus) -> (r: String)
    ensures
        r@ == detail_of(*c),
{
    let mut out = cat("marketplace=", yn(c.marketplace_registered));
    out.append(", path_valid=");
    out.append(yn(c.marketplace_path_valid));
    out.append(", plugin=");
    out.append(yn(c.plugin_installed));
    out.append(", enabled=");
    out.append(yn(c.plugin_enabled));
    match c.detection_fallback {
        Some(m) => {
            let tail = cat(", detection=", m);
            out.append(tail.as_str());
        },
        None => {
            proof {
                assert(out@ + Seq::<char>::empty() =~= out@);
            }
        },
    }
    out
}

fn status_line_text(c: &CliStatus, versions: bool, labels: &HooksLabels) -> (r: String)
    ensures
        r@ == status_line(*c, versions, *labels),
{
    let mut out = cat("  ", pad_right(c.name, 10).as_str());
    out.append(" ");
    out.append(pad_right(summary_text(c, labels).as_str(), 28).as_str());
    let ghost before = out@;
    if versions {
        let installed: Option<&str> = match &c.installed_version {
            Some(v) => Some(v.as_str()),
            None => None,
        };
        let bundle: Option<&str> = match &c.bundle_version {
            Some(v) => Some(v.as_str()),
            None => None,
        };
        let version = format_version_column(installed, bundle, c.plugin_installed);
        let column = cat("  ", pad_right(version.as_str(), 24).as_str());
        out.append(column.as_str());
    } else {
        proof {
            assert(before + Seq::<char>::empty() =~= before);
        }
    }
    out.append("  (");
    out.append(detail_text(c).as_str());
    out.append(")");
    out
}

fn add_status_lines(
    out: &mut Vec<String>,
    clis: &Vec<CliStatus>,
    versions: bool,
    labels: &HooksLabels,
)
    ensures
        views(final(out)@) == views(old(out)@) + status_lines(clis@, versions, *labels),
{
    let ghost before = views(out@);
    let mut i: usize = 0;
    proof {
        assert(clis@.take(0) =~= Seq::<CliStatus>::empty());
        assert(before + Seq::<Seq<char>>::empty() =~= before);
    }
    while i < clis.len()
        invariant
            i <= clis@.len(),
            views(out@) == before + status_lines(clis@.take(i as int), versions, *labels),
        decreases clis.len() - i,
    {
        let ghost now = views(out@);
        let ghost done = status_lines(clis@.take(i as int), versions, *labels);
        proof {
            assert(clis@.take(i + 1).drop_last() =~= clis@.take(i as int));
        }
        let line = status_line_text(&clis[i], versions, labels);
        out.push(line);
        proof {
            assert(views(out@) =~= now.push(line@));
            assert(views(out@) =~= before + done.push(line@));
        }
        if let Some(path) = &clis[i].marketplace_path {
            let path_line = cat("    path: ", path.as_str());
            let ghost mid = views(out@);
            out.push(path_line);
            proof {
                assert(views(out@) =~= mid.push(path_line@));
                assert(views(out@) =~= before + done.push(line@).push(path_line@));
            }
        }
        i += 1;
    }
    proof {
        assert(clis@.take(i as int) =~= clis@);
    }
}

fn status_text_lines(r: &StatusReport, versions: bool, labels: &HooksLabels) -> (lines: Vec<String>)
    ensures
        views(lines@) == status_text(*r, versions, *labels),
{
    let suffix = match &r.bundle_source.path {
        Some(path) => cat3(" (", path.as_str(), ")"),
        None => String::new(),
    };
    let version = if versions {
        unique_bundle_version(r.clis.as_slice())
    } else {
        None
    };
    let source = format_bundle_source(r.bundle_source.kind, version);
    let first = fill_two(&labels.bundle_source, &source, &suffix);
    proof {
        assert(suffix@ == in_brackets(opt_view(r.bundle_source.path)));
    }
    let mut out: Vec<String> = Vec::new();
    out.push(first);
    out.push(String::new());
    proof {
        assert(views(out@) =~= seq![first@, Seq::<char>::empty()]);
    }
    add_status_lines(&mut out, &r.clis, versions, labels);
    out
}

/// The report on hooks with their versions, as lines.
pub fn format_status_human(r: &StatusReport, labels: &HooksLabels) -> (lines: Vec<String>)
    ensures
        views(lines@) == status_text(*r, true, *labels),
{
    status_text_lines(r, true, labels)
}

/// The report on hooks as lines.
pub fn format_hooks_status_human(r: &StatusReport, labels: &HooksLabels) -> (lines: Vec<String>)
    ensures
        views(lines@) == status_text(*r, false, *labels),
{
    status_text_lines(r, false, labels)
}

// ---------------------------------------------------------------------------
// Removal
// ---------------------------------------------------------------------------

/// What removing an agent's hooks came to.
pub struct CliUninstallResult {
    pub name: &'static str,
    pub attempted: bool,
    pub plugin_uninstalled: Option<bool>,
    pub marketplace_removed: Option<bool>,
    pub staging_dir_removed: bool,
    pub messages: Vec<String>,
}

/// What removing hooks came to.
pub struct UninstallReport {
    pub clis: Vec<CliUninstallResult>,
}

impl CliUninstallResult {
    /// No step of the removal failed.
    pub open spec fn is_clean(self) -> bool {
        self.attempted ==> self.plugin_uninstalled != Some(false) && self.marketplace_removed
            != Some(false) && self.staging_dir_removed
    }

    fn went_well(&self) -> (r: bool)
        ensures
            r == self.is_clean(),
    {
        let plugin = match self.plugin_uninstalled {
            Some(done) => done,
            None => true,
        };
        let marketplace = match self.marketplace_removed {
            Some(done) => done,
            None => true,
        };
        !self.attempted || (plugin && marketplace && self.staging_dir_removed)
    }
}

impl UninstallReport {
    /// Whether no step of the removal failed, for any agent.
    pub fn succeeded(&self) -> (r: bool)
        ensures
            r == (forall|i: int| 0 <= i < self.clis@.len() ==> (#[trigger] self.clis@[i]).is_clean()),
    {
        let mut i: usize = 0;
        while i < self.clis.len()
            invariant
                i <= self.clis@.len(),
                forall|k: int| 0 <= k < i ==> (#[trigger] self.clis@[k]).is_clean(),
            decreases self.clis.len() - i,
        {
            if !self.clis[i].went_well() {
                return false;
            }
            i += 1;
        }
        true
    }
}

/// How a step went.
pub open spec fn went(b: bool) -> Seq<char> {
    if b {
        "ok"@
    } else {
        "failed"@
    }
}

/// How a step went that may have been left out.
pub open spec fn step_went(b: Option<bool>) -> Seq<char> {
    match b {
        Some(b) => went(b),
        None => "-"@,
    }
}

/// What removing an agent's hooks came to, in a line.
pub open spec fn uninstall_line(c: CliUninstallResult, labels: HooksLabels) -> Seq<char> {
    "  "@ + padded(c.name@, 10) + " "@ + (if !c.attempted {
        filled(labels.uninstall_skipped@, seq![])
    } else {
        "plugin="@ + step_went(c.plugin_uninstalled) + " marketplace="@ + step_went(
            c.marketplace_removed,
        ) + " staging="@ + went(c.staging_dir_removed)
    })
}

/// What removing hooks came to, as lines.
pub open spec fn uninstall_lines(clis: Seq<CliUninstallResult>, labels: HooksLabels) -> Seq<
    Seq<char>,
>
    decreases clis.len(),
{
    if clis.len() == 0 {
        Seq::empty()
    } else {
        uninstall_lines(clis.drop_last(), labels).push(uninstall_line(clis.last(), labels))
            + clis.last().messages@.map_values(|m: String| "    · "@ + m@)
    }
}

fn went_text(b: bool) -> (r: &'static str)
    ensures
        r@ == went(b),
{
    if b {
        "ok"
    } else {
        "failed"
    }
}

fn step_text(b: Option<bool>) -> (r: &'static str)
    ensures
        r@ == step_went(b),
{
    match b {
        Some(b) => went_text(b),
        None => "-",
    }
}

fn uninstall_line_text(c: &CliUninstallResult, labels: &HooksLabels) -> (r: String)
    ensures
        r@ == uninstall_line(*c, *labels),
{
    let mut out = cat("  ", pad_right(c.name, 10).as_str());
    out.append(" ");
    if !c.attempted {
        out.append(fill_none(&labels.uninstall_skipped).as_str());
    } else {
        let mut summary = cat("plugin=", step_text(c.plugin_uninstalled));
        summary.append(" marketplace=");
        summary.append(step_text(c.marketplace_removed));
        summary.append(" staging=");
        summary.append(went_text(c.staging_dir_removed));
        out.append(summary.as_str());
    }
    out
}

fn add_messages(out: &mut Vec<String>, messages: &Vec<String>)
    ensures
        views(final(out)@) == views(old(out)@) + messages@.map_values(|m: String| "    · "@ + m@),
{
    let ghost before = views(out@);
    let ghost all = messages@.map_values(|m: String| "    · "@ + m@);
    let mut i: usize = 0;
    proof {
        assert(before + all.take(0) =~= before);
    }
    while i < messages.len()
        invariant
            i <= messages@.len(),
            all == messages@.map_values(|m: String| "    · "@ + m@),
            views(out@) == before + all.take(i as int),
        decreases messages.len() - i,
    {
        let ghost now = views(out@);
        let line = cat("    · ", messages[i].as_str());
        out.push(line);
        proof {
            assert(views(out@) =~= now.push(line@));
            assert(all[i as int] == line@);
            assert(before + all.take(i + 1) =~= (before + all.take(i as int)).push(line@));
        }
        i += 1;
    }
    proof {
        assert(all.take(i as int) =~= all);
    }
}

/// What removing hooks came to, as lines.
pub fn format_uninstall_human(r: &UninstallReport, labels: &HooksLabels) -> (lines: Vec<String>)
    ensures
        views(lines@) == uninstall_lines(r.clis@, *labels),
{
    let mut out: Vec<String> = Vec::new();
    let mut i: usize = 0;
    proof {
        assert(views(out@) =~= Seq::<Seq<char>>::empty());
        assert(r.clis@.take(0) =~= Seq::<CliUninstallResult>::empty());
    }
    while i < r.clis.len()
        invariant
            i <= r.clis@.len(),
            views(out@) == uninstall_lines(r.clis@.take(i as int), *labels),
        decreases r.clis.len() - i,
    {
        let ghost now = views(out@);
        proof {
            assert(r.clis@.take(i + 1).drop_last() =~= r.clis@.take(i as int));
        }
        let line = uninstall_line_text(&r.clis[i], labels);
        out.push(line);
        proof {
            assert(views(out@) =~= now.push(line@));
        }
        add_messages(&mut out, &r.clis[i].messages);
        i += 1;
    }
    proof {
        assert(r.clis@.take(i as int) =~= r.clis@);
    }
    out
}

// ---------------------------------------------------------------------------
// An installation
// ---------------------------------------------------------------------------

/// The version that was read of each agent's hooks, in the order of the report.
pub open spec fn version_at(versions: Seq<Option<String>>, i: int) -> Option<Seq<char>> {
    if i < versions.len() {
        opt_view(versions[i])
    } else {
        None
    }
}

/// The agents that have their hooks, each with the version of its hooks where
/// that can be read.
pub open spec fn installed_list(clis: Seq<CliStatus>, versions: Seq<Option<String>>) -> Seq<
    Seq<char>,
>
    decreases clis.len(),
{
    if clis.len() == 0 {
        Seq::empty()
    } else {
        let before = installed_list(clis.drop_last(), versions);
        let c = clis.last();
        if c.binary_on_path && c.plugin_installed {
            before.push(
                match version_at(versions, clis.len() - 1) {
                    Some(v) => c.name@ + " (v"@ + v + ")"@,
                    None => c.name@,
                },
            )
        } else {
            before
        }
    }
}

/// What an installation comes to: something to say, or a failure to report.
pub open spec fn install_outcome(
    status: StatusReport,
    failures: Seq<InstallFailure>,
    missing: Seq<Seq<char>>,
    versions: Seq<Option<String>>,
    labels: HooksLabels,
) -> Result<Seq<char>, Seq<char>> {
    if failures.len() == 0 && missing.len() == 0 {
        Ok(
            filled(
                labels.install_succeeded@,
                seq![joined(installed_list(status.clis@, versions), ", "@)],
            ),
        )
    } else {
        Err(failure_text(failures, missing))
    }
}

fn installed_names(clis: &Vec<CliStatus>, versions: &Vec<Option<String>>) -> (r: Vec<String>)
    ensures
        views(r@) == installed_list(clis@, versions@),
{
    let mut out: Vec<String> = Vec::new();
    let mut i: usize = 0;
    proof {
        assert(views(out@) =~= Seq::<Seq<char>>::empty());
        assert(clis@.take(0) =~= Seq::<CliStatus>::empty());
    }
    while i < clis.len()
        invariant
            i <= clis@.len(),
            views(out@) == installed_list(clis@.take(i as int), versions@),
        decreases clis.len() - i,
    {
        let ghost now = views(out@);
        proof {
            assert(clis@.take(i + 1).drop_last() =~= clis@.take(i as int));
            assert(clis@.take(i + 1).len() - 1 == i);
        }
        if clis[i].binary_on_path && clis[i].plugin_installed {
            let version: Option<String> = if i < versions.len() {
                copy_text(&versions[i])
            } else {
                None
            };
            let shown = match version {
                Some(v) => {
                    let mut shown = cat3(clis[i].name, " (v", v.as_str());
                    shown.append(")");
                    shown
                },
                None => clis[i].name.to_owned(),
            };
            out.push(shown);
            proof {
                assert(views(out@) =~= now.push(shown@));
            }
        }
        i += 1;
    }
    proof {
        assert(clis@.take(i as int) =~= clis@);
    }
    out
}

/// What an installation comes to: something to say, or a failure to report. The
/// two signals of a failure, that a command failed and that hooks are missing,
/// each suffice.
pub fn finish_install(
    status: &StatusReport,
    spawn_failures: &[InstallFailure],
    missing: &[&str],
    versions: &Vec<Option<String>>,
    labels: &HooksLabels,
) -> (r: Result<String, String>)
    ensures
        match r {
            Ok(said) => install_outcome(
                *status,
                spawn_failures@,
                names_view(missing@),
                versions@,
                *labels,
            ) == Ok::<Seq<char>, Seq<char>>(said@),
            Err(failure) => install_outcome(
                *status,
                spawn_failures@,
                names_view(missing@),
                versions@,
                *labels,
            ) == Err::<Seq<char>, Seq<char>>(failure@),
        },
{
    if spawn_failures.len() == 0 && missing.len() == 0 {
        let names = installed_names(&status.clis, versions);
        Ok(fill_one(&labels.install_succeeded, &join(&names, ", ")))
    } else {
        Err(format_install_failure(spawn_failures, missing))
    }
}

/// What is said of an installation that is judged by what is found afterwards
/// alone.
pub open spec fn attempt_outcome(missing: Seq<Seq<char>>, labels: HooksLabels) -> Result<
    Seq<char>,
    Seq<char>,
> {
    if missing.len() == 0 {
        Ok(filled(labels.install_attempted@, seq![]))
    } else {
        Err("hooks installation failed for: "@ + joined(missing, ", "@))
    }
}

fn owned_names(names: &[&str]) -> (r: Vec<String>)
    ensures
        views(r@) == names_view(names@),
{
    let mut out: Vec<String> = Vec::new();
    let mut i: usize = 0;
    while i < names.len()
        invariant
            i <= names@.len(),
            out@.len() == i,
            forall|k: int| 0 <= k < i ==> (#[trigger] out@[k])@ == names@[k]@,
        decreases names.len() - i,
    {
        out.push(names[i].to_owned());
        i += 1;
    }
    proof {
        assert(views(out@) =~= names_view(names@));
    }
    out
}

/// What is said of an installation that is judged by what is found afterwards
/// alone.
pub fn finish_attempt(missing: &[&str], labels: &HooksLabels) -> (r: Result<String, String>)
    ensures
        match r {
            Ok(said) => attempt_outcome(names_view(missing@), *labels) == Ok::<
                Seq<char>,
                Seq<char>,
            >(said@),
            Err(failure) => attempt_outcome(names_view(missing@), *labels) == Err::<
                Seq<char>,
                Seq<char>,
            >(failure@),
        },
{
    if missing.len() == 0 {
        Ok(fill_none(&labels.install_attempted))
    } else {
        let names = owned_names(missing);
        Err(cat("hooks installation failed for: ", join(&names, ", ").as_str()))
    }
}

// ---------------------------------------------------------------------------
// Laws
// ---------------------------------------------------------------------------

/// An installation whose command failed is never reported as installed,
/// whatever is found on disk.
pub proof fn law_a_failure_is_never_hidden(
    cli: CliStatus,
    failures: Seq<InstallFailure>,
    missing: Seq<Seq<char>>,
    i: int,
)
    requires
        0 <= i < failures.len(),
        failures[i].cli@ == cli.name@,
    ensures
        verdict(cli, failures, missing).outcome == "failed"@,
        verdict(cli, failures, missing).reason is Some,
    decreases failures.len(),
{
    if failures[0].cli@ != cli.name@ {
        assert(failures.skip(1)[i - 1] == failures[i]);
        law_a_failure_is_never_hidden(cli, failures.skip(1), missing, i - 1);
    }
}

/// An agent that is not on the machine is skipped, where nothing failed.
pub proof fn law_an_absent_agent_is_skipped(cli: CliStatus, agents: AgentRegistry)
    requires
        !cli.binary_on_path,
    ensures
        verdict(cli, Seq::empty(), Seq::empty()).outcome == "skipped"@,
        !lacks_hooks(cli, CliScope::All, agents),
{
}

/// Only agents that were meant are in the report.
pub proof fn law_report_keeps_to_its_scope(
    clis: Seq<CliStatus>,
    kind: CliKind,
    agents: AgentRegistry,
    failures: Seq<InstallFailure>,
    missing: Seq<Seq<char>>,
    i: int,
)
    requires
        0 <= i < verdicts(clis, CliScope::One(kind), agents, failures, missing).len(),
    ensures
        verdicts(clis, CliScope::One(kind), agents, failures, missing)[i].name == kind.label(agents),
    decreases clis.len(),
{
    let before = verdicts(clis.drop_last(), CliScope::One(kind), agents, failures, missing);
    if i < before.len() {
        law_report_keeps_to_its_scope(clis.drop_last(), kind, agents, failures, missing, i);
    }
}

/// One agent whose version is unknown is enough for no version to be claimed for
/// all.
pub proof fn law_an_unknown_version_is_not_passed_over(clis: Seq<CliStatus>, i: int)
    requires
        0 <= i < clis.len(),
        clis[i].bundle_version is None,
    ensures
        common_version(clis) is None,
{
}

/// Whether names stand in order, each once.
pub open spec fn ascending(names: Seq<Seq<char>>) -> bool {
    forall|i: int, j: int| 0 <= i < j < names.len() ==> precedes(#[trigger] names[i], #[trigger] names[j])
}

proof fn lemma_with_name(names: Seq<Seq<char>>, name: Seq<char>)
    requires
        ascending(names),
    ensures
        ascending(with_name(names, name)),
        forall|x: Seq<char>| #[trigger]
            with_name(names, name).contains(x) <==> names.contains(x) || x == name,
    decreases names.len(),
{
    let out = with_name(names, name);
    if names.len() == 0 {
        assert(out[0] == name);
        assert forall|x: Seq<char>| #[trigger] out.contains(x) implies x == name by {}
    } else if names[0] == name {
    } else if precedes(name, names[0]) {
        assert forall|i: int, j: int| 0 <= i < j < out.len() implies precedes(
            #[trigger] out[i],
            #[trigger] out[j],
        ) by {
            if i == 0 {
                if j > 1 {
                    lemma_precedes_transitive(name, names[0], names[j - 1]);
                }
            } else {
                assert(out[i] == names[i - 1] && out[j] == names[j - 1]);
            }
        }
        assert forall|x: Seq<char>| names.contains(x) || x == name implies #[trigger] out.contains(
            x,
        ) by {
            if x == name {
                assert(out[0] == x);
            } else {
                let k = choose|k: int| 0 <= k < names.len() && names[k] == x;
                assert(out[k + 1] == x);
            }
        }
        assert forall|x: Seq<char>| #[trigger] out.contains(x) implies names.contains(x) || x
            == name by {
            let k = choose|k: int| 0 <= k < out.len() && out[k] == x;
            if k > 0 {
                assert(names[k - 1] == x);
            }
        }
    } else {
        let rest = names.skip(1);
        let more = with_name(rest, name);
        lemma_with_name(rest, name);
        lemma_precedes_total(name, names[0]);
        assert forall|i: int, j: int| 0 <= i < j < out.len() implies precedes(
            #[trigger] out[i],
            #[trigger] out[j],
        ) by {
            assert(out[j] == more[j - 1]);
            if i == 0 {
                assert(more.contains(more[j - 1]));
                if more[j - 1] != name {
                    let k = choose|k: int| 0 <= k < rest.len() && rest[k] == more[j - 1];
                    assert(names[k + 1] == rest[k]);
                }
            } else {
                assert(out[i] == more[i - 1]);
            }
        }
        assert forall|x: Seq<char>| names.contains(x) || x == name implies #[trigger] out.contains(
            x,
        ) by {
            if x == names[0] {
                assert(out[0] == x);
            } else {
                if x != name {
                    let k = choose|k: int| 0 <= k < names.len() && names[k] == x;
                    assert(rest[k - 1] == x);
                }
                assert(more.contains(x));
                let k = choose|k: int| 0 <= k < more.len() && more[k] == x;
                assert(out[k + 1] == x);
            }
        }
        assert forall|x: Seq<char>| #[trigger] out.contains(x) implies names.contains(x) || x
            == name by {
            let k = choose|k: int| 0 <= k < out.len() && out[k] == x;
            if k == 0 {
                assert(names[0] == x);
            } else {
                assert(more[k - 1] == x);
                assert(more.contains(x));
                if x != name {
                    let m = choose|m: int| 0 <= m < rest.len() && rest[m] == x;
                    assert(names[m + 1] == x);
                }
            }
        }
    }
}

/// The agents that failed are named in order, each once, and no other.
pub proof fn law_failed_agents_are_named_once(names: Seq<Seq<char>>)
    ensures
        ascending(in_order(names)),
        forall|x: Seq<char>| #[trigger] in_order(names).contains(x) <==> names.contains(x),
        in_order(names).no_duplicates(),
    decreases names.len(),
{
    if names.len() > 0 {
        let rest = names.drop_last();
        law_failed_agents_are_named_once(rest);
        lemma_with_name(in_order(rest), names.last());
        assert forall|x: Seq<char>| #[trigger] in_order(names).contains(x) implies names.contains(
            x,
        ) by {
            if x == names.last() {
                assert(names[names.len() - 1] == x);
            } else {
                let k = choose|k: int| 0 <= k < rest.len() && rest[k] == x;
                assert(names[k] == x);
            }
        }
        assert forall|x: Seq<char>| names.contains(x) implies #[trigger] in_order(names).contains(
            x,
        ) by {
            let k = choose|k: int| 0 <= k < names.len() && names[k] == x;
            if k < rest.len() {
                assert(rest[k] == x);
            }
        }
    }
    let out = in_order(names);
    assert forall|i: int, j: int| 0 <= i < out.len() && 0 <= j < out.len() && i != j implies out[i]
        != out[j] by {
        if i < j {
            lemma_precedes_irreflexive(out[i]);
        } else {
            lemma_precedes_irreflexive(out[j]);
        }
    }
}

/// Whether a text holds another.
pub open spec fn holds(text: Seq<char>, part: Seq<char>) -> bool {
    exists|before: Seq<char>, after: Seq<char>| text == #[trigger] (before + part + after)
}

proof fn lemma_holds(before: Seq<char>, part: Seq<char>, after: Seq<char>)
    ensures
        holds(before + part + after, part),
{
}

proof fn lemma_holds_in(text: Seq<char>, part: Seq<char>, left: Seq<char>, right: Seq<char>)
    requires
        holds(text, part),
    ensures
        holds(left + text + right, part),
{
    let (before, after) = choose|before: Seq<char>, after: Seq<char>|
        text == #[trigger] (before + part + after);
    assert(left + text + right =~= (left + before) + part + (after + right));
}

proof fn lemma_failure_line(failures: Seq<InstallFailure>, i: int)
    requires
        0 <= i < failures.len(),
    ensures
        holds(failure_lines(failures), "\n  "@ + failures[i].cli@ + ": "@ + failures[i].reason@),
    decreases failures.len(),
{
    let line = "\n  "@ + failures[i].cli@ + ": "@ + failures[i].reason@;
    let before = failure_lines(failures.drop_last());
    if i == failures.len() - 1 {
        assert(failure_lines(failures) =~= before + line + Seq::<char>::empty());
    } else {
        assert(failures.drop_last()[i] == failures[i]);
        lemma_failure_line(failures.drop_last(), i);
        let last = "\n  "@ + failures.last().cli@ + ": "@ + failures.last().reason@;
        lemma_holds_in(before, line, Seq::empty(), last);
        assert(failure_lines(failures) =~= Seq::<char>::empty() + before + last);
    }
}

proof fn lemma_no_failure_named(failures: Seq<InstallFailure>, name: Seq<char>)
    ensures
        failure_of(failures, name) is Some <==> exists|i: int|
            0 <= i < failures.len() && (#[trigger] failures[i]).cli@ == name,
    decreases failures.len(),
{
    if failures.len() > 0 {
        let rest = failures.skip(1);
        lemma_no_failure_named(rest, name);
        if exists|i: int| 0 <= i < failures.len() && (#[trigger] failures[i]).cli@ == name {
            let i = choose|i: int| 0 <= i < failures.len() && (#[trigger] failures[i]).cli@ == name;
            if i > 0 {
                assert(rest[i - 1].cli@ == name);
            }
        }
        if exists|i: int| 0 <= i < rest.len() && (#[trigger] rest[i]).cli@ == name {
            let i = choose|i: int| 0 <= i < rest.len() && (#[trigger] rest[i]).cli@ == name;
            assert(failures[i + 1].cli@ == name);
        }
    }
}

proof fn lemma_missing_line(missing: Seq<Seq<char>>, failures: Seq<InstallFailure>, i: int)
    requires
        0 <= i < missing.len(),
        failure_of(failures, missing[i]) is None,
    ensures
        holds(
            missing_lines(missing, failures),
            "\n  "@ + missing[i] + ": install reported no error but no hooks are registered"@,
        ),
    decreases missing.len(),
{
    let line = "\n  "@ + missing[i] + ": install reported no error but no hooks are registered"@;
    let before = missing_lines(missing.drop_last(), failures);
    if i == missing.len() - 1 {
        assert(missing_lines(missing, failures) =~= before + line + Seq::<char>::empty());
    } else {
        assert(missing.drop_last()[i] == missing[i]);
        lemma_missing_line(missing.drop_last(), failures, i);
        if failure_of(failures, missing.last()) is None {
            let last = "\n  "@ + missing.last()
                + ": install reported no error but no hooks are registered"@;
            lemma_holds_in(before, line, Seq::empty(), last);
            assert(missing_lines(missing, failures) =~= Seq::<char>::empty() + before + last);
        }
    }
}

/// An installation succeeded exactly where no command failed and no hooks are
/// missing. A command that failed is never made good by what is found on disk.
pub proof fn law_an_install_succeeds_where_nothing_failed(
    status: StatusReport,
    failures: Seq<InstallFailure>,
    missing: Seq<Seq<char>>,
    versions: Seq<Option<String>>,
    labels: HooksLabels,
)
    ensures
        install_outcome(status, failures, missing, versions, labels) is Ok <==> failures.len() == 0
            && missing.len() == 0,
        failures.len() > 0 ==> install_outcome(status, failures, missing, versions, labels) is Err,
        missing.len() > 0 ==> install_outcome(status, failures, missing, versions, labels) is Err,
        attempt_outcome(missing, labels) is Ok <==> missing.len() == 0,
{
}

/// A failed installation says what failed: each command with its reason, and each
/// agent that has no hooks though nothing failed.
pub proof fn law_a_failed_install_says_what_failed(
    status: StatusReport,
    failures: Seq<InstallFailure>,
    missing: Seq<Seq<char>>,
    versions: Seq<Option<String>>,
    labels: HooksLabels,
)
    requires
        failures.len() > 0 || missing.len() > 0,
    ensures
        ({
            let said = install_outcome(status, failures, missing, versions, labels)->Err_0;
            &&& "hooks installation failed for: "@.is_prefix_of(said)
            &&& forall|i: int|
                0 <= i < failures.len() ==> holds(
                    said,
                    "\n  "@ + (#[trigger] failures[i]).cli@ + ": "@ + failures[i].reason@,
                )
            &&& forall|i: int|
                #![trigger missing[i]]
                0 <= i < missing.len() && (forall|k: int|
                    0 <= k < failures.len() ==> (#[trigger] failures[k]).cli@ != missing[i])
                    ==> holds(
                    said,
                    "\n  "@ + missing[i]
                        + ": install reported no error but no hooks are registered"@,
                )
        }),
{
    let said = install_outcome(status, failures, missing, versions, labels)->Err_0;
    let head = "hooks installation failed for: "@ + joined(
        in_order(failed_names(failures) + missing),
        ", "@,
    );
    assert("hooks installation failed for: "@.is_prefix_of(said));
    assert forall|i: int| 0 <= i < failures.len() implies holds(
        said,
        "\n  "@ + (#[trigger] failures[i]).cli@ + ": "@ + failures[i].reason@,
    ) by {
        lemma_failure_line(failures, i);
        lemma_holds_in(
            failure_lines(failures),
            "\n  "@ + failures[i].cli@ + ": "@ + failures[i].reason@,
            head,
            missing_lines(missing, failures),
        );
    }
    assert forall|i: int|
        #![trigger missing[i]]
        0 <= i < missing.len() && (forall|k: int|
            0 <= k < failures.len() ==> (#[trigger] failures[k]).cli@ != missing[i]) implies holds(
        said,
        "\n  "@ + missing[i] + ": install reported no error but no hooks are registered"@,
    ) by {
        lemma_no_failure_named(failures, missing[i]);
        lemma_missing_line(missing, failures, i);
        let left = head + failure_lines(failures);
        lemma_holds_in(
            missing_lines(missing, failures),
            "\n  "@ + missing[i] + ": install reported no error but no hooks are registered"@,
            left,
            Seq::empty(),
        );
        assert(said =~= left + missing_lines(missing, failures) + Seq::<char>::empty());
    }
}

/// Every agent that has its hooks is named where the installation succeeded, with
/// the version that was found for it, and no other is.
pub proof fn law_a_success_names_what_is_installed(clis: Seq<CliStatus>, versions: Seq<Option<String>>)
    ensures
        forall|i: int|
            0 <= i < clis.len() && (#[trigger] clis[i]).binary_on_path && clis[i].plugin_installed
                ==> installed_list(clis, versions).contains(
                if i < versions.len() && versions[i] is Some {
                    clis[i].name@ + " (v"@ + versions[i]->0@ + ")"@
                } else {
                    clis[i].name@
                },
            ),
        installed_list(clis, versions).len() <= clis.len(),
        (forall|i: int|
            0 <= i < clis.len() ==> !((#[trigger] clis[i]).binary_on_path
                && clis[i].plugin_installed)) ==> installed_list(clis, versions).len() == 0,
    decreases clis.len(),
{
    if clis.len() > 0 {
        let rest = clis.drop_last();
        let before = installed_list(rest, versions);
        let all = installed_list(clis, versions);
        law_a_success_names_what_is_installed(rest, versions);
        assert forall|i: int| 0 <= i < rest.len() implies #[trigger] rest[i] == clis[i] by {}
        assert forall|x: Seq<char>| before.contains(x) implies #[trigger] all.contains(x) by {
            let k = choose|k: int| 0 <= k < before.len() && before[k] == x;
            assert(all[k] == x);
        }
        assert forall|i: int|
            0 <= i < clis.len() && (#[trigger] clis[i]).binary_on_path
                && clis[i].plugin_installed implies all.contains(
            if i < versions.len() && versions[i] is Some {
                clis[i].name@ + " (v"@ + versions[i]->0@ + ")"@
            } else {
                clis[i].name@
            },
        ) by {
            if i == clis.len() - 1 {
                assert(all[before.len() as int] == all.last());
            } else {
                assert(rest[i] == clis[i]);
            }
        }
    }
}

/// What is said of an agent's hooks holds of it: hooks in working order are said
/// to be installed, and nothing less than that is.
pub proof fn law_a_summary_says_what_is_wrong(c: CliStatus, labels: HooksLabels)
    ensures
        !c.binary_on_path ==> summary_of(c, labels) == filled(labels.cli_not_on_path@, seq![]),
        c.binary_on_path && !c.plugin_installed ==> summary_of(c, labels) == filled(
            labels.not_installed@,
            seq![],
        ),
        c.binary_on_path && c.plugin_installed && !c.marketplace_path_valid ==> summary_of(c, labels)
            == filled(labels.marketplace_path_stale@, seq![]),
        c.binary_on_path && c.plugin_installed && c.marketplace_path_valid && !c.plugin_enabled
            ==> summary_of(c, labels) == filled(labels.installed_but_disabled@, seq![]),
        c.binary_on_path && c.plugin_installed && c.marketplace_path_valid && c.plugin_enabled
            ==> summary_of(c, labels) == filled(labels.installed@, seq![]),
{
}

/// A version is told with the bundle's where the two differ; hooks that are not
/// there have none, and one that could not be read is a question mark.
pub proof fn law_versions_tell_when_they_are_behind(installed: Seq<char>, bundle: Seq<char>)
    ensures
        version_text(Some(installed), Some(installed), true) == "v"@ + installed,
        version_text(Some(installed), None, true) == "v"@ + installed,
        installed != bundle ==> version_text(Some(installed), Some(bundle), true) == "v"@ + installed
            + " (bundle v"@ + bundle + ")"@,
        version_text(None, Some(bundle), true) == "v?"@,
        version_text(Some(installed), Some(bundle), false) == "-"@,
{
}

/// Each step of the check is told as it went.
pub proof fn law_details_are_told_as_they_are(c: CliStatus)
    ensures
        ({
            let yes = |b: bool| if b { "yes"@ } else { "no"@ };
            let head = "marketplace="@ + yes(c.marketplace_registered) + ", path_valid="@ + yes(
                c.marketplace_path_valid,
            ) + ", plugin="@ + yes(c.plugin_installed) + ", enabled="@ + yes(c.plugin_enabled);
            &&& c.detection_fallback is None ==> detail_of(c) == head
            &&& c.detection_fallback is Some ==> detail_of(c) == head + ", detection="@
                + c.detection_fallback->0@
        }),
{
}

/// A line of the status begins with the agent's name, and ends with what was
/// found, in brackets.
#[verifier::rlimit(40)]
pub proof fn law_a_status_line_names_its_agent(c: CliStatus, versions: bool, labels: HooksLabels)
    ensures
        ({
            let line = status_line(c, versions, labels);
            &&& ("  "@ + c.name@).is_prefix_of(line)
            &&& exists|before: Seq<char>| line == #[trigger] (before + ("  ("@ + detail_of(c) + ")"@))
            &&& holds(line, summary_of(c, labels))
        }),
{
    let line = status_line(c, versions, labels);
    law_padding_adds_blanks(c.name@, 10);
    law_padding_adds_blanks(summary_of(c, labels), 28);
    assert(("  "@ + c.name@).is_prefix_of(line));
    let column = if versions {
        "  "@ + padded(
            version_text(
                opt_view(c.installed_version),
                opt_view(c.bundle_version),
                c.plugin_installed,
            ),
            24,
        )
    } else {
        Seq::empty()
    };
    let front = "  "@ + padded(c.name@, 10) + " "@ + padded(summary_of(c, labels), 28) + column;
    assert(line =~= front + ("  ("@ + detail_of(c) + ")"@));
    let summary = summary_of(c, labels);
    let wide = padded(summary, 28);
    let left = "  "@ + padded(c.name@, 10) + " "@;
    assert(wide =~= Seq::<char>::empty() + summary + wide.skip(summary.len() as int));
    lemma_holds(Seq::empty(), summary, wide.skip(summary.len() as int));
    lemma_holds_in(wide, summary, left, column + ("  ("@ + detail_of(c) + ")"@));
    assert(line =~= left + wide + (column + ("  ("@ + detail_of(c) + ")"@)));
}

/// A removal that was attempted is told step by step, each as it went; one that was
/// not is said to be skipped.
pub proof fn law_a_removal_is_told_as_it_went(c: CliUninstallResult, labels: HooksLabels)
    ensures
        ({
            let line = uninstall_line(c, labels);
            let went = |b: bool| if b { "ok"@ } else { "failed"@ };
            let step = |b: Option<bool>| if b is Some { went(b->0) } else { "-"@ };
            let front = "  "@ + padded(c.name@, 10) + " "@;
            &&& c.attempted ==> line == front + ("plugin="@ + step(c.plugin_uninstalled)
                + " marketplace="@ + step(c.marketplace_removed) + " staging="@ + went(
                c.staging_dir_removed,
            ))
            &&& !c.attempted ==> line == front + filled(labels.uninstall_skipped@, seq![])
        }),
{
}

/// A removal is clean unless something that was tried failed: what was not there
/// to be removed does not count against it.
pub proof fn law_a_removal_fails_by_what_was_tried(c: CliUninstallResult)
    ensures
        !c.attempted ==> c.is_clean(),
        c.attempted && c.plugin_uninstalled == Some(false) ==> !c.is_clean(),
        c.attempted && c.marketplace_removed == Some(false) ==> !c.is_clean(),
        c.attempted && !c.staging_dir_removed ==> !c.is_clean(),
        c.attempted && c.plugin_uninstalled is None && c.marketplace_removed is None
            && c.staging_dir_removed ==> c.is_clean(),
{
}

/// Hooks are missing exactly for agents that were meant, are on the machine and
/// have none.
pub proof fn law_missing_hooks_are_found(
    clis: Seq<CliStatus>,
    scope: CliScope,
    agents: AgentRegistry,
    name: Seq<char>,
)
    ensures
        lacking(clis, scope, agents).contains(name) <==> exists|i: int|
            0 <= i < clis.len() && (#[trigger] clis[i]).name@ == name && clis[i].binary_on_path
                && !clis[i].plugin_installed && scope.covers(name, agents),
    decreases clis.len(),
{
    if clis.len() > 0 {
        let rest = clis.drop_last();
        law_missing_hooks_are_found(rest, scope, agents, name);
        let before = lacking(rest, scope, agents);
        let all = lacking(clis, scope, agents);
        assert forall|i: int| 0 <= i < rest.len() implies #[trigger] rest[i] == clis[i] by {}
        if all.contains(name) {
            let k = choose|k: int| 0 <= k < all.len() && all[k] == name;
            if k < before.len() {
                assert(before[k] == name);
                let i = choose|i: int|
                    0 <= i < rest.len() && (#[trigger] rest[i]).name@ == name
                        && rest[i].binary_on_path && !rest[i].plugin_installed && scope.covers(
                        name,
                        agents,
                    );
                assert(clis[i].name@ == name);
            } else {
                assert(clis[clis.len() - 1].name@ == name);
            }
        }
        if exists|i: int|
            0 <= i < clis.len() && (#[trigger] clis[i]).name@ == name && clis[i].binary_on_path
                && !clis[i].plugin_installed && scope.covers(name, agents) {
            let i = choose|i: int|
                0 <= i < clis.len() && (#[trigger] clis[i]).name@ == name && clis[i].binary_on_path
                    && !clis[i].plugin_installed && scope.covers(name, agents);
            if i < rest.len() {
                assert(rest[i].name@ == name);
                let k = choose|k: int| 0 <= k < before.len() && before[k] == name;
                assert(all[k] == name);
            } else {
                assert(all.last() == name);
                assert(all[all.len() - 1] == name);
            }
        }
    }
}

/// A filter covers everything, or the one agent that it names.
pub proof fn law_a_filter_covers_what_it_names(agents: AgentRegistry, name: Seq<char>)
    ensures
        HooksCliFilter::All.scope().covers(name, agents),
        HooksCliFilter::Copilot.scope().covers(name, agents) <==> name == "copilot"@,
        HooksCliFilter::Gemini.scope().covers(name, agents) <==> name == "gemini"@,
        HooksCliFilter::Codex.scope().covers(name, agents) <==> name == "codex"@,
        HooksCliFilter::OpenCode.scope().covers(name, agents) <==> name == "opencode"@,
        HooksCliFilter::Claude.scope().covers(name, agents) <==> name == agents.claude.id@,
{
}

/// Every agent that was meant is in the report, under its name, and hooks in place
/// are reported as installed.
pub proof fn law_hooks_in_place_are_reported(cli: CliStatus, failures: Seq<InstallFailure>, missing: Seq<Seq<char>>)
    requires
        forall|k: int| 0 <= k < failures.len() ==> (#[trigger] failures[k]).cli@ != cli.name@,
    ensures
        verdict(cli, failures, missing).name == cli.name@,
        verdict(cli, failures, missing).reason is None,
        missing.contains(cli.name@) ==> verdict(cli, failures, missing).outcome == "failed"@,
        !missing.contains(cli.name@) && cli.binary_on_path && cli.plugin_installed ==> verdict(
            cli,
            failures,
            missing,
        ).outcome == "installed"@,
        !missing.contains(cli.name@) && !(cli.binary_on_path && cli.plugin_installed) ==> verdict(
            cli,
            failures,
            missing,
        ).outcome == "skipped"@,
{
    lemma_no_failure_named(failures, cli.name@);
}

/// Where agents have one version among them, that is told; where two differ, none.
pub proof fn law_one_version_is_told_where_all_agree(clis: Seq<CliStatus>, i: int, j: int)
    requires
        0 <= i < clis.len(),
        0 <= j < clis.len(),
    ensures
        opt_view(clis[i].bundle_version) != opt_view(clis[j].bundle_version) ==> common_version(clis)
            is None,
        common_version(clis) is Some ==> clis[i].bundle_version is Some && common_version(clis)
            == Some("v"@ + clis[i].bundle_version->0@),
{
}

/// The status begins with where the hooks come from; below it every agent has its
/// line, in its place.
pub proof fn law_every_agent_has_its_line(
    clis: Seq<CliStatus>,
    c: CliStatus,
    versions: bool,
    labels: HooksLabels,
)
    ensures
        ({
            let above = status_lines(clis, versions, labels);
            let all = status_lines(clis.push(c), versions, labels);
            &&& status_lines(Seq::empty(), versions, labels).len() == 0
            &&& c.marketplace_path is None ==> all == above.push(status_line(c, versions, labels))
            &&& c.marketplace_path is Some ==> all == above.push(
                status_line(c, versions, labels),
            ).push("    path: "@ + c.marketplace_path->0@)
        }),
{
    assert(clis.push(c).drop_last() =~= clis);
}

/// The status says where the hooks come from, with the version where versions are
/// shown and all agents have the same, and leaves a row blank below it.
pub proof fn law_the_status_says_where_hooks_come_from(r: StatusReport, labels: HooksLabels)
    ensures
        ({
            let path = if r.bundle_source.path is Some {
                " ("@ + r.bundle_source.path->0@ + ")"@
            } else {
                Seq::empty()
            };
            let kind = r.bundle_source.kind@;
            let plain = status_text(r, false, labels);
            let told = status_text(r, true, labels);
            let version = common_version(r.clis@);
            &&& plain[0] == filled(labels.bundle_source@, seq![kind, path])
            &&& version is None ==> told[0] == plain[0]
            &&& version is Some ==> told[0] == filled(
                labels.bundle_source@,
                seq![kind + " "@ + version->0, path],
            )
            &&& plain[1].len() == 0
            &&& plain.skip(2) == status_lines(r.clis@, false, labels)
            &&& told.skip(2) == status_lines(r.clis@, true, labels)
        }),
{
    assert(status_text(r, false, labels).skip(2) =~= status_lines(r.clis@, false, labels));
    assert(status_text(r, true, labels).skip(2) =~= status_lines(r.clis@, true, labels));
}

/// Each removal has its line, and below it what was said on the way.
pub proof fn law_every_removal_has_its_line(
    clis: Seq<CliUninstallResult>,
    c: CliUninstallResult,
    labels: HooksLabels,
    i: int,
)
    ensures
        ({
            let above = uninstall_lines(clis, labels);
            let all = uninstall_lines(clis.push(c), labels);
            &&& uninstall_lines(Seq::empty(), labels).len() == 0
            &&& all.len() == above.len() + 1 + c.messages@.len()
            &&& above.is_prefix_of(all)
            &&& all[above.len() as int] == uninstall_line(c, labels)
            &&& 0 <= i < c.messages@.len() ==> all[above.len() + 1 + i] == "    · "@
                + c.messages@[i]@
        }),
{
    assert(clis.push(c).drop_last() =~= clis);
}

} // verus!
