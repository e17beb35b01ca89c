//! What the commands ask of the terminal, and small decisions around them.

use vstd::prelude::*;
use vstd::string::*;

use crate::agents::AgentRegistry;
use crate::json::{
    entry, law_a_member_is_read_by_its_name, member_in, members_view, no_members, put, Json,
    JsonView, Member, MemberView,
};
use crate::sessions::CliSource;
use crate::text::{
    all_white, cat, decimal, decimal_text, is_blank, is_empty_text, opt_view, same, trim, trimmed,
};

verus! {

// ---------------------------------------------------------------------------
// Logs
// ---------------------------------------------------------------------------

/// The commands that have a log of their own.
#[derive(Clone, Copy, Debug, PartialEq, Eq, Structural)]
pub enum CommandGroup {
    Delegate,
    Probe,
    HooksInstall,
    Other,
}

/// How the program was started.
pub struct LaunchFlags {
    pub master: bool,
    pub connect_master: bool,
    /// One of the old flags was given.
    pub legacy: bool,
    pub command: Option<CommandGroup>,
}

/// The name of the log.
pub open spec fn log_label(flags: LaunchFlags, pid: u32) -> Seq<char> {
    if flags.master {
        "main_master"@
    } else if flags.connect_master {
        "main_helper-"@ + decimal(pid as nat)
    } else if flags.legacy {
        "cli"@
    } else {
        match flags.command {
            None => "main"@,
            Some(CommandGroup::Delegate) => "delegate"@,
            Some(CommandGroup::Probe) => "probe"@,
            Some(CommandGroup::HooksInstall) => "install-hooks"@,
            Some(CommandGroup::Other) => "cli"@,
        }
    }
}

/// The name of the log.
pub fn process_label(flags: &LaunchFlags, pid: u32) -> (r: String)
    ensures
        r@ == log_label(*flags, pid),
{
    if flags.master {
        return "main_master".to_owned();
    }
    if flags.connect_master {
        return cat("main_helper-", decimal_text(pid as u64).as_str());
    }
    if flags.legacy {
        return "cli".to_owned();
    }
    match flags.command {
        None => "main".to_owned(),
        Some(CommandGroup::Delegate) => "delegate".to_owned(),
        Some(CommandGroup::Probe) => "probe".to_owned(),
        Some(CommandGroup::HooksInstall) => "install-hooks".to_owned(),
        Some(CommandGroup::Other) => "cli".to_owned(),
    }
}

// ---------------------------------------------------------------------------
// Requests
// ---------------------------------------------------------------------------

/// A member that holds a text, where there is one.
pub open spec fn text_entry(key: Seq<char>, value: Option<Seq<char>>) -> Seq<MemberView> {
    match value {
        Some(s) => seq![entry(key, JsonView::Text(s))],
        None => Seq::empty(),
    }
}

fn put_text(members: &mut Vec<Member>, key: &str, value: &Option<String>)
    ensures
        members_view(final(members)@) == members_view(old(members)@) + text_entry(
            key@,
            opt_view(*value),
        ),
{
    let ghost before = members_view(members@);
    match value {
        Some(s) => {
            put(members, key, Json::of_text(s.as_str()));
            proof {
                assert(members_view(members@) =~= before + text_entry(key@, Some(s@)));
            }
        },
        None => {
            proof {
                assert(before + Seq::<MemberView>::empty() =~= before);
            }
        },
    }
}

/// A request for a new tab.
pub open spec fn new_tab_view(
    command: Option<Seq<char>>,
    cwd: Option<Seq<char>>,
    title: Option<Seq<char>>,
) -> JsonView {
    JsonView::Object(
        text_entry("command"@, command) + text_entry("cwd"@, cwd) + text_entry("title"@, title),
    )
}

/// A request for a new tab.
pub fn new_tab_params(command: &Option<String>, cwd: &Option<String>, title: &Option<String>) -> (r:
    Json)
    ensures
        r@ == new_tab_view(opt_view(*command), opt_view(*cwd), opt_view(*title)),
{
    let mut members = no_members();
    put_text(&mut members, "command", command);
    put_text(&mut members, "cwd", cwd);
    put_text(&mut members, "title", title);
    proof {
        assert(members_view(members@) =~= text_entry("command"@, opt_view(*command)) + text_entry(
            "cwd"@,
            opt_view(*cwd),
        ) + text_entry("title"@, opt_view(*title)));
    }
    Json::of_members(members)
}

/// How a pane is split.
pub open spec fn split_direction(horizontal: bool, vertical: bool) -> Seq<char> {
    if horizontal {
        "horizontal"@
    } else if vertical {
        "vertical"@
    } else {
        "automatic"@
    }
}

/// A request to split a pane; the size is a number as text.
pub open spec fn split_pane_view(
    pane_id: Seq<char>,
    horizontal: bool,
    vertical: bool,
    size: Option<Seq<char>>,
    command: Option<Seq<char>>,
) -> JsonView {
    JsonView::Object(
        seq![
            entry("session_id"@, JsonView::Text(pane_id)),
            entry("direction"@, JsonView::Text(split_direction(horizontal, vertical))),
        ] + (match size {
            Some(n) => seq![entry("size"@, JsonView::Number(n))],
            None => Seq::empty(),
        }) + text_entry("command"@, command),
    )
}

/// A request to split a pane; the size is a number as text.
pub fn split_pane_params(
    pane_id: &str,
    horizontal: bool,
    vertical: bool,
    size: &Option<String>,
    command: &Option<String>,
) -> (r: Json)
    ensures
        r@ == split_pane_view(pane_id@, horizontal, vertical, opt_view(*size), opt_view(*command)),
{
    let direction = if horizontal {
        "horizontal"
    } else if vertical {
        "vertical"
    } else {
        "automatic"
    };
    let mut members = no_members();
    put(&mut members, "session_id", Json::of_text(pane_id));
    put(&mut members, "direction", Json::of_text(direction));
    proof {
        assert(members_view(members@) =~= seq![
            entry("session_id"@, JsonView::Text(pane_id@)),
            entry("direction"@, JsonView::Text(direction@)),
        ]);
    }
    let ghost head = members_view(members@);
    match size {
        Some(n) => {
            put(&mut members, "size", Json::Number(n.clone()));
            proof {
                assert(members_view(members@) =~= head + seq![
                    entry("size"@, JsonView::Number(n@)),
                ]);
            }
        },
        None => {
            proof {
                assert(head + Seq::<MemberView>::empty() =~= head);
            }
        },
    }
    put_text(&mut members, "command", command);
    Json::of_members(members)
}

/// A request for what is on screen in a pane.
pub open spec fn capture_view(pane_id: Seq<char>, max_lines: Option<u32>, last_prompt: bool) -> JsonView {
    JsonView::Object(
        seq![entry("session_id"@, JsonView::Text(pane_id))] + (match max_lines {
            Some(n) => seq![entry("max_lines"@, JsonView::Number(decimal(n as nat)))],
            None => Seq::empty(),
        }) + (if last_prompt {
            seq![entry("source"@, JsonView::Text("last_prompt"@))]
        } else {
            Seq::empty()
        }),
    )
}

/// A request for what is on screen in a pane.
pub fn capture_params(pane_id: &str, max_lines: Option<u32>, last_prompt: bool) -> (r: Json)
    ensures
        r@ == capture_view(pane_id@, max_lines, last_prompt),
{
    let mut members = no_members();
    put(&mut members, "session_id", Json::of_text(pane_id));
    if let Some(n) = max_lines {
        put(&mut members, "max_lines", Json::of_number(n as u64));
    }
    if last_prompt {
        put(&mut members, "source", Json::of_text("last_prompt"));
    }
    proof {
        assert(members_view(members@) =~= capture_view(
            pane_id@,
            max_lines,
            last_prompt,
        )->Object_0);
    }
    Json::of_members(members)
}

// ---------------------------------------------------------------------------
// Answers
// ---------------------------------------------------------------------------

/// The pane that a command is meant for: the one it names, or the active one.
pub fn resolve_pane_id(target: &Option<String>, active: &Json) -> (r: Option<String>)
    ensures
        opt_view(r) == match opt_view(*target) {
            Some(id) => Some(id),
            None => active@.label_member("session_id"@),
        },
{
    match target {
        Some(id) => Some(id.clone()),
        None => active.label_member("session_id"),
    }
}

/// The first item of a list that an answer holds.
pub open spec fn first_of(answer: JsonView, key: Seq<char>) -> Option<JsonView> {
    match answer.list_member(key) {
        Some(list) => if list.len() > 0 {
            Some(list[0])
        } else {
            None
        },
        None => None,
    }
}

fn first_item<'a>(answer: &'a Json, key: &str) -> (r: Option<&'a Json>)
    ensures
        match r {
            Some(item) => first_of(answer@, key@) == Some(item@),
            None => first_of(answer@, key@) is None,
        },
{
    match answer.list_member(key) {
        Some(list) => if list.len() > 0 {
            Some(&list[0])
        } else {
            None
        },
        None => None,
    }
}

/// The id of the first window.
pub fn get_first_window_id(answer: &Json) -> (r: Option<String>)
    ensures
        opt_view(r) == match first_of(answer@, "windows"@) {
            Some(window) => window.text_member("window_id"@),
            None => None,
        },
{
    match first_item(answer, "windows") {
        Some(window) => window.text_member("window_id"),
        None => None,
    }
}

/// The id of the first tab.
pub fn get_first_tab_id(answer: &Json) -> (r: Option<String>)
    ensures
        opt_view(r) == match first_of(answer@, "tabs"@) {
            Some(tab) => tab.label_member("tab_id"@),
            None => None,
        },
{
    match first_item(answer, "tabs") {
        Some(tab) => tab.label_member("tab_id"),
        None => None,
    }
}

/// Whether a message is an event, and of the pane that is listened to.
pub open spec fn is_listened_to(message: JsonView, pane: Option<Seq<char>>) -> bool {
    &&& message.text_member("type"@) == Some("event"@)
    &&& match pane {
        Some(pane) => match message.member("params"@) {
            Some(params) => params.text_member("session_id"@) == Some(pane),
            None => false,
        },
        None => true,
    }
}

/// Whether a message is an event, and of the pane that is listened to.
pub fn listens_to(message: &Json, pane: &Option<String>) -> (r: bool)
    ensures
        r == is_listened_to(message@, opt_view(*pane)),
{
    let is_event = match message.text_member("type") {
        Some(kind) => same(kind.as_str(), "event"),
        None => false,
    };
    if !is_event {
        return false;
    }
    match pane {
        Some(pane) => match message.get("params") {
            Some(params) => match params.text_member("session_id") {
                Some(id) => same(id.as_str(), pane.as_str()),
                None => false,
            },
            None => false,
        },
        None => true,
    }
}

// ---------------------------------------------------------------------------
// Shells
// ---------------------------------------------------------------------------

/// A command for a shell, and how to run it.
pub struct SetEnv {
    pub command: String,
    pub hint: &'static str,
}

/// A command for a shell that sets where the terminal listens, and how to run
/// it.
pub open spec fn set_env_for(shell: Seq<char>, clsid: Seq<char>) -> Option<(Seq<char>, Seq<char>)> {
    if shell == "bash"@ || shell == "sh"@ || shell == "zsh"@ {
        Some(("export WT_COM_CLSID='"@ + clsid + "'"@, "# Run: eval \"$(wta set-env)\""@))
    } else if shell == "powershell"@ || shell == "pwsh"@ || shell == "ps"@ {
        Some(
            (
                "$env:WT_COM_CLSID = '"@ + clsid + "'"@,
                "# Run: wta set-env -s powershell | Invoke-Expression"@,
            ),
        )
    } else if shell == "cmd"@ {
        Some(("set WT_COM_CLSID="@ + clsid, "REM Run in a for /f loop or copy-paste"@))
    } else if shell == "fish"@ {
        Some(
            (
                "set -gx WT_COM_CLSID '"@ + clsid + "'"@,
                "# Run: wta set-env -s fish | source"@,
            ),
        )
    } else {
        None
    }
}

/// A command for a shell that sets where the terminal listens; none for a shell
/// that is not known.
pub fn set_env(shell: &str, clsid: &str) -> (r: Option<SetEnv>)
    ensures
        match r {
            Some(s) => set_env_for(shell@, clsid@) == Some((s.command@, s.hint@)),
            None => set_env_for(shell@, clsid@) is None,
        },
{
    if same(shell, "bash") || same(shell, "sh") || same(shell, "zsh") {
        let mut command = cat("export WT_COM_CLSID='", clsid);
        command.append("'");
        Some(SetEnv { command, hint: "# Run: eval \"$(wta set-env)\"" })
    } else if same(shell, "powershell") || same(shell, "pwsh") || same(shell, "ps") {
        let mut command = cat("$env:WT_COM_CLSID = '", clsid);
        command.append("'");
        Some(SetEnv { command, hint: "# Run: wta set-env -s powershell | Invoke-Expression" })
    } else if same(shell, "cmd") {
        let command = cat("set WT_COM_CLSID=", clsid);
        Some(SetEnv { command, hint: "REM Run in a for /f loop or copy-paste" })
    } else if same(shell, "fish") {
        let mut command = cat("set -gx WT_COM_CLSID '", clsid);
        command.append("'");
        Some(SetEnv { command, hint: "# Run: wta set-env -s fish | source" })
    } else {
        None
    }
}

// ---------------------------------------------------------------------------
// The master
// ---------------------------------------------------------------------------

/// What is done about the pipe of the master.
pub enum PipeStep {
    Use(String),
    /// Wait a moment and try again.
    Wait,
    Fail,
}

/// The pipe that is named, where it says anything.
pub fn named_pipe(named: &Option<String>) -> (r: Option<String>)
    ensures
        opt_view(r) == match opt_view(*named) {
            Some(pipe) => if all_white(pipe) {
                None
            } else {
                Some(pipe)
            },
            None => None,
        },
{
    match named {
        Some(pipe) => if is_blank(pipe.as_str()) {
            None
        } else {
            Some(pipe.clone())
        },
        None => None,
    }
}

/// What is done about the pipe of the master, given what its file holds: a second
/// try is made where it holds nothing yet.
pub fn pipe_step(attempt: u32, contents: &Option<String>) -> (r: PipeStep)
    ensures
        match r {
            PipeStep::Use(pipe) => *contents is Some && pipe@ == trimmed(contents->0@)
                && pipe@.len() > 0,
            PipeStep::Wait => (*contents is None || trimmed(contents->0@).len() == 0) && attempt
                == 0,
            PipeStep::Fail => (*contents is None || trimmed(contents->0@).len() == 0) && attempt
                != 0,
        },
{
    if let Some(contents) = contents {
        let pipe = trim(contents.as_str());
        if !is_empty_text(pipe.as_str()) {
            return PipeStep::Use(pipe);
        }
    }
    if attempt == 0 {
        PipeStep::Wait
    } else {
        PipeStep::Fail
    }
}

// ---------------------------------------------------------------------------
// Probes
// ---------------------------------------------------------------------------

/// The distribution to be looked at; a blank one is none.
pub fn probed_distro(wsl_distro: &str) -> (r: Option<String>)
    ensures
        opt_view(r) == if trimmed(wsl_distro@).len() == 0 {
            None
        } else {
            Some(trimmed(wsl_distro@))
        },
{
    let distro = trim(wsl_distro);
    if is_empty_text(distro.as_str()) {
        None
    } else {
        Some(distro)
    }
}

/// The agent of a name.
pub open spec fn agent_of(name: Seq<char>, agents: AgentRegistry) -> Option<CliSource> {
    if name == "copilot"@ {
        Some(CliSource::Copilot)
    } else if name == agents.claude.id@ {
        Some(CliSource::Claude)
    } else if name == "codex"@ {
        Some(CliSource::Codex)
    } else if name == "gemini"@ {
        Some(CliSource::Gemini)
    } else if name == "opencode"@ {
        Some(CliSource::OpenCode)
    } else {
        None
    }
}

/// The agent whose history is looked at, all where none is named; a name that is
/// not known is rejected.
pub fn probed_agent(cli: Option<&str>, agents: &AgentRegistry) -> (r: Result<
    Option<CliSource>,
    String,
>)
    ensures
        match (cli, r) {
            (None, Ok(agent)) => agent is None,
            (None, Err(_)) => false,
            (Some(name), Ok(agent)) => agent is Some && agent == agent_of(name@, *agents),
            (Some(name), Err(unknown)) => agent_of(name@, *agents) is None && unknown@ == name@,
        },
{
    match cli {
        None => Ok(None),
        Some(name) => if same(name, "copilot") {
            Ok(Some(CliSource::Copilot))
        } else if same(name, agents.claude.id) {
            Ok(Some(CliSource::Claude))
        } else if same(name, "codex") {
            Ok(Some(CliSource::Codex))
        } else if same(name, "gemini") {
            Ok(Some(CliSource::Gemini))
        } else if same(name, "opencode") {
            Ok(Some(CliSource::OpenCode))
        } else {
            Err(name.to_owned())
        },
    }
}

/// A session of the history.
pub struct HistoryRow {
    pub key: String,
    pub cli: String,
    pub title: String,
    pub cwd: String,
    pub distro: Option<String>,
}

/// A session of the history as a document; with its distribution where that is
/// asked for.
pub open spec fn history_view(row: HistoryRow, with_distro: bool) -> JsonView {
    JsonView::Object(
        seq![
            entry("key"@, JsonView::Text(row.key@)),
            entry("cli"@, JsonView::Text(row.cli@)),
            entry("title"@, JsonView::Text(row.title@)),
            entry("cwd"@, JsonView::Text(row.cwd@)),
        ] + (if with_distro {
            seq![entry("distro"@, crate::json::opt_text(opt_view(row.distro)))]
        } else {
            Seq::empty()
        }),
    )
}

fn history_json(row: &HistoryRow, with_distro: bool) -> (r: Json)
    ensures
        r@ == history_view(*row, with_distro),
{
    let mut members = no_members();
    put(&mut members, "key", Json::of_text(row.key.as_str()));
    put(&mut members, "cli", Json::of_text(row.cli.as_str()));
    put(&mut members, "title", Json::of_text(row.title.as_str()));
    put(&mut members, "cwd", Json::of_text(row.cwd.as_str()));
    if with_distro {
        put(&mut members, "distro", Json::of_opt_text(&row.distro));
    }
    proof {
        assert(members_view(members@) =~= history_view(*row, with_distro)->Object_0);
    }
    Json::of_members(members)
}

/// Sessions of the history as a document.
pub fn history_document(rows: &Vec<HistoryRow>, with_distro: bool) -> (r: Json)
    ensures
        r@ == JsonView::List(rows@.map_values(|row: HistoryRow| history_view(row, with_distro))),
{
    let ghost all = rows@.map_values(|row: HistoryRow| history_view(row, with_distro));
    let mut out: Vec<Json> = Vec::new();
    let mut i: usize = 0;
    while i < rows.len()
        invariant
            i <= rows@.len(),
            all == rows@.map_values(|row: HistoryRow| history_view(row, with_distro)),
            crate::json::items_view(out@) == all.take(i as int),
        decreases rows.len() - i,
    {
        let ghost before = crate::json::items_view(out@);
        let item = history_json(&rows[i], with_distro);
        out.push(item);
        proof {
            assert(crate::json::items_view(out@) =~= before.push(item@));
            assert(all.take(i + 1) =~= all.take(i as int).push(item@));
        }
        i += 1;
    }
    proof {
        assert(all.take(i as int) =~= all);
    }
    Json::of_items(out)
}

/// How many seconds an agent has to answer with its sessions.
pub const SESSION_LIST_TIMEOUT_SECS: u64 = 10;

/// How many seconds an agent has to come up: more where it may have to be fetched
/// first.
pub fn init_timeout_secs(is_npx: bool) -> (r: u64)
    ensures
        r == if is_npx {
            25u64
        } else {
            10u64
        },
{
    if is_npx {
        25
    } else {
        10
    }
}

/// The sessions of an agent's history: none, and no failure, where the agent
/// cannot list them.
pub fn listed_history(listed: Result<Vec<HistoryRow>, String>) -> (r: Vec<HistoryRow>)
    ensures
        match listed {
            Ok(rows) => r == rows,
            Err(_) => r@.len() == 0,
        },
{
    match listed {
        Ok(rows) => rows,
        Err(_) => Vec::new(),
    }
}

// ---------------------------------------------------------------------------
// Laws
// ---------------------------------------------------------------------------

/// What was asked for is in the request under its name, and what was not asked for
/// is not in it.
pub proof fn law_a_new_tab_is_asked_for_as_given(
    command: Option<Seq<char>>,
    cwd: Option<Seq<char>>,
    title: Option<Seq<char>>,
)
    ensures
        new_tab_view(command, cwd, title).text_member("command"@) == command,
        new_tab_view(command, cwd, title).text_member("cwd"@) == cwd,
        new_tab_view(command, cwd, title).text_member("title"@) == title,
        new_tab_view(command, cwd, title) is Object,
{
    reveal_strlit("command");
    reveal_strlit("cwd");
    reveal_strlit("title");
    assert("command"@.len() == 7 && "cwd"@.len() == 3 && "title"@.len() == 5);
    let v = new_tab_view(command, cwd, title)->Object_0;
    reveal_with_fuel(member_in, 4);
    lemma_members_of(v);
}

proof fn lemma_members_of(v: Seq<MemberView>)
    ensures
        v.len() >= 1 ==> v.skip(1).len() == v.len() - 1,
        v.len() >= 2 ==> v.skip(1)[0] == v[1],
        v.len() >= 3 ==> v.skip(1).skip(1)[0] == v[2],
        v.len() >= 4 ==> v.skip(1).skip(1).skip(1)[0] == v[3],
{
}

/// A pane is split in the direction that was asked for, a row before a column, and
/// else as the terminal likes.
pub proof fn law_a_split_is_asked_for_as_given(
    pane_id: Seq<char>,
    horizontal: bool,
    vertical: bool,
    size: Option<Seq<char>>,
    command: Option<Seq<char>>,
)
    ensures
        ({
            let asked = split_pane_view(pane_id, horizontal, vertical, size, command);
            let direction = asked.text_member("direction"@);
            &&& asked.text_member("session_id"@) == Some(pane_id)
            &&& horizontal ==> direction == Some("horizontal"@)
            &&& !horizontal && vertical ==> direction == Some("vertical"@)
            &&& !horizontal && !vertical ==> direction == Some("automatic"@)
            &&& asked.text_member("command"@) == command
            &&& size is Some ==> asked.member("size"@) == Some(JsonView::Number(size->0))
            &&& size is None ==> asked.member("size"@) is None
        }),
{
    reveal_strlit("session_id");
    reveal_strlit("direction");
    reveal_strlit("size");
    reveal_strlit("command");
    assert("session_id"@.len() == 10 && "direction"@.len() == 9 && "size"@.len() == 4
        && "command"@.len() == 7);
    let v = split_pane_view(pane_id, horizontal, vertical, size, command)->Object_0;
    reveal_with_fuel(member_in, 5);
    lemma_members_of(v);
}

/// What is on a pane's screen is asked for as far back as given, and from the last
/// prompt only where that is meant.
pub proof fn law_a_capture_is_asked_for_as_given(
    pane_id: Seq<char>,
    max_lines: Option<u32>,
    last_prompt: bool,
)
    ensures
        ({
            let asked = capture_view(pane_id, max_lines, last_prompt);
            &&& asked.text_member("session_id"@) == Some(pane_id)
            &&& max_lines is Some ==> asked.member("max_lines"@) == Some(
                JsonView::Number(decimal(max_lines->0 as nat)),
            )
            &&& max_lines is None ==> asked.member("max_lines"@) is None
            &&& last_prompt ==> asked.text_member("source"@) == Some("last_prompt"@)
            &&& !last_prompt ==> asked.member("source"@) is None
        }),
{
    reveal_strlit("session_id");
    reveal_strlit("max_lines");
    reveal_strlit("source");
    assert("session_id"@.len() == 10 && "max_lines"@.len() == 9 && "source"@.len() == 6);
    let v = capture_view(pane_id, max_lines, last_prompt)->Object_0;
    reveal_with_fuel(member_in, 4);
    lemma_members_of(v);
}

/// An event of another pane is not listened to, nor is what is no event.
pub proof fn law_only_events_of_the_pane_are_listened_to(message: JsonView, pane: Seq<char>)
    ensures
        is_listened_to(message, None) <==> message.text_member("type"@) == Some("event"@),
        is_listened_to(message, Some(pane)) <==> message.text_member("type"@) == Some("event"@)
            && message.member("params"@) is Some && message.member("params"@)->0.text_member(
            "session_id"@,
        ) == Some(pane),
{
}

/// A process is named in its log by what it does.
pub proof fn law_a_process_is_named_by_what_it_does(flags: LaunchFlags, pid: u32)
    ensures
        flags.master ==> log_label(flags, pid) == "main_master"@,
        !flags.master && flags.connect_master ==> log_label(flags, pid) == "main_helper-"@ + decimal(
            pid as nat,
        ),
        !flags.master && !flags.connect_master && flags.legacy ==> log_label(flags, pid) == "cli"@,
        !flags.master && !flags.connect_master && !flags.legacy ==> (flags.command is None
            ==> log_label(flags, pid) == "main"@) && (flags.command == Some(CommandGroup::Delegate)
            ==> log_label(flags, pid) == "delegate"@) && (flags.command == Some(CommandGroup::Probe)
            ==> log_label(flags, pid) == "probe"@) && (flags.command == Some(
            CommandGroup::HooksInstall,
        ) ==> log_label(flags, pid) == "install-hooks"@) && (flags.command == Some(
            CommandGroup::Other,
        ) ==> log_label(flags, pid) == "cli"@),
{
}

/// Each shell is told to set the variable in its own words, with the id in them;
/// a shell that is not known is told nothing.
pub proof fn law_each_shell_is_told_in_its_own_words(clsid: Seq<char>)
    ensures
        set_env_for("bash"@, clsid) is Some && (set_env_for("bash"@, clsid)->0).0
            == "export WT_COM_CLSID='"@ + clsid + "'"@,
        set_env_for("sh"@, clsid) == set_env_for("bash"@, clsid),
        set_env_for("zsh"@, clsid) == set_env_for("bash"@, clsid),
        set_env_for("pwsh"@, clsid) is Some && (set_env_for("pwsh"@, clsid)->0).0
            == "$env:WT_COM_CLSID = '"@ + clsid + "'"@,
        set_env_for("powershell"@, clsid) == set_env_for("pwsh"@, clsid),
        set_env_for("ps"@, clsid) == set_env_for("pwsh"@, clsid),
        set_env_for("cmd"@, clsid) is Some && (set_env_for("cmd"@, clsid)->0).0 == "set WT_COM_CLSID="@
            + clsid,
        set_env_for("fish"@, clsid) is Some && (set_env_for("fish"@, clsid)->0).0
            == "set -gx WT_COM_CLSID '"@ + clsid + "'"@,
        set_env_for(Seq::empty(), clsid) is None,
{
    reveal_strlit("bash");
    reveal_strlit("sh");
    reveal_strlit("zsh");
    reveal_strlit("powershell");
    reveal_strlit("pwsh");
    reveal_strlit("ps");
    reveal_strlit("cmd");
    reveal_strlit("fish");
    assert("bash"@.len() == 4 && "bash"@[0] == 'b');
    assert("sh"@.len() == 2 && "sh"@[0] == 's');
    assert("zsh"@.len() == 3 && "zsh"@[0] == 'z');
    assert("powershell"@.len() == 10);
    assert("pwsh"@.len() == 4 && "pwsh"@[0] == 'p');
    assert("ps"@.len() == 2 && "ps"@[0] == 'p');
    assert("cmd"@.len() == 3 && "cmd"@[0] == 'c');
    assert("fish"@.len() == 4 && "fish"@[0] == 'f');
}

/// A row of the history says which session it is, whose, and where it ran; in which
/// distribution only where that is asked.
pub proof fn law_a_history_row_says_what_it_is(row: HistoryRow, with_distro: bool)
    ensures
        ({
            let said = history_view(row, with_distro);
            &&& said.text_member("key"@) == Some(row.key@)
            &&& said.text_member("cli"@) == Some(row.cli@)
            &&& said.text_member("title"@) == Some(row.title@)
            &&& said.text_member("cwd"@) == Some(row.cwd@)
            &&& !with_distro ==> said.member("distro"@) is None
            &&& with_distro && row.distro is Some ==> said.text_member("distro"@) == Some(
                row.distro->0@,
            )
            &&& with_distro && row.distro is None ==> said.member("distro"@) == Some(JsonView::Null)
        }),
{
    reveal_strlit("key");
    reveal_strlit("cli");
    reveal_strlit("title");
    reveal_strlit("cwd");
    reveal_strlit("distro");
    assert("key"@.len() == 3 && "key"@[0] == 'k');
    assert("cli"@.len() == 3 && "cli"@[0] == 'c' && "cli"@[1] == 'l');
    assert("cwd"@.len() == 3 && "cwd"@[0] == 'c' && "cwd"@[1] == 'w');
    assert("title"@.len() == 5 && "distro"@.len() == 6);
    let v = history_view(row, with_distro)->Object_0;
    law_a_member_is_read_by_its_name(v, "key"@, 0);
    law_a_member_is_read_by_its_name(v, "cli"@, 1);
    law_a_member_is_read_by_its_name(v, "title"@, 2);
    law_a_member_is_read_by_its_name(v, "cwd"@, 3);
    law_a_member_is_read_by_its_name(v, "distro"@, 4);
}

/// An agent is known by its own name.
pub proof fn law_agents_are_known_by_name(agents: AgentRegistry)
    requires
        agents.claude.id@ != "copilot"@,
        agents.claude.id@ != "codex"@,
        agents.claude.id@ != "gemini"@,
        agents.claude.id@ != "opencode"@,
    ensures
        agent_of("copilot"@, agents) == Some(CliSource::Copilot),
        agent_of("codex"@, agents) == Some(CliSource::Codex),
        agent_of("gemini"@, agents) == Some(CliSource::Gemini),
        agent_of("opencode"@, agents) == Some(CliSource::OpenCode),
        agent_of(agents.claude.id@, agents) == Some(CliSource::Claude),
{
    reveal_strlit("copilot");
    reveal_strlit("codex");
    reveal_strlit("gemini");
    reveal_strlit("opencode");
    assert("copilot"@.len() == 7 && "codex"@.len() == 5 && "gemini"@.len() == 6
        && "opencode"@.len() == 8);
}

/// The first of a list is the one at its head, where there is one.
pub proof fn law_the_first_is_at_the_head(answer: JsonView, key: Seq<char>, list: Seq<JsonView>)
    requires
        answer.member(key) == Some(JsonView::List(list)),
    ensures
        list.len() > 0 ==> first_of(answer, key) == Some(list[0]),
        list.len() == 0 ==> first_of(answer, key) is None,
{
}

} // verus!
