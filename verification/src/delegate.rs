//! Handing a prompt over to another agent in a tab of its own.

use vstd::prelude::*;
use vstd::string::*;

use crate::bytes::{
    byte_len, byte_tail, fits_bytes, law_tail_is_the_longest, lemma_byte_len_adds_up, tail_within,
};
use crate::json::{Json, JsonView};
use crate::text::{
    all_white, begins, cat, chars_of, find_char, is_blank, is_empty_text, opt_view, starts_with,
    strip_prefix,
};
use crate::transcript::copy_text;

verus! {

// ---------------------------------------------------------------------------
// What was on screen
// ---------------------------------------------------------------------------

/// How many bytes of what is on screen are handed over.
pub const MAX_DELEGATE_CONTEXT_BYTES: usize = 12288;

/// The bytes of the note that something was cut off.
pub const TRUNCATION_MARKER_BYTES: usize = 15;

/// What is handed over of a text: its end, in no more than some bytes, behind a
/// note where something was cut off and there is room for the note.
pub open spec fn capped_context(context: Seq<char>, max: nat) -> Seq<char> {
    if byte_len(context) <= max {
        context
    } else if max >= TRUNCATION_MARKER_BYTES {
        "…(truncated)\n"@ + byte_tail(context, (max - TRUNCATION_MARKER_BYTES) as nat)
    } else {
        byte_tail(context, max)
    }
}

/// What is handed over of a text: its end, in no more than some bytes, behind a
/// note where something was cut off and there is room for the note.
pub fn cap_delegate_context(context: &str, max_bytes: usize) -> (r: String)
    ensures
        r@ == capped_context(context@, max_bytes as nat),
{
    if fits_bytes(context, max_bytes) {
        return context.to_owned();
    }
    if max_bytes >= TRUNCATION_MARKER_BYTES {
        let tail = tail_within(context, max_bytes - TRUNCATION_MARKER_BYTES);
        cat("…(truncated)\n", tail.as_str())
    } else {
        tail_within(context, max_bytes)
    }
}

/// What is handed over takes no more than the bytes allowed.
pub proof fn law_context_stays_capped(context: Seq<char>, max: nat)
    ensures
        byte_len(capped_context(context, max)) <= max,
{
    if byte_len(context) > max {
        if max >= TRUNCATION_MARKER_BYTES {
            let tail = byte_tail(context, (max - TRUNCATION_MARKER_BYTES) as nat);
            law_tail_is_the_longest(context, (max - TRUNCATION_MARKER_BYTES) as nat);
            lemma_byte_len_adds_up("…(truncated)\n"@, tail);
            lemma_marker_bytes();
        } else {
            law_tail_is_the_longest(context, max);
        }
    }
}

/// The note in front of what is handed over of a text.
pub open spec fn cut_note(context: Seq<char>, max: nat) -> Seq<char> {
    if byte_len(context) > max && max >= TRUNCATION_MARKER_BYTES {
        "…(truncated)\n"@
    } else {
        Seq::empty()
    }
}

/// What is handed over ends as the text does, and holds as much of the text as
/// fits: with one more character it would take too many bytes.
pub proof fn law_context_keeps_the_end(context: Seq<char>, max: nat)
    ensures
        exists|start: int|
            0 <= start <= context.len() && capped_context(context, max) == cut_note(context, max)
                + #[trigger] context.skip(start) && (start > 0 ==> byte_len(cut_note(context, max))
                + byte_len(context.skip(start - 1)) > max),
{
    let note = cut_note(context, max);
    if byte_len(context) <= max {
        assert(context.skip(0) =~= context);
        assert(note + context.skip(0) =~= context);
    } else {
        let room = if max >= TRUNCATION_MARKER_BYTES {
            (max - TRUNCATION_MARKER_BYTES) as nat
        } else {
            max
        };
        lemma_marker_bytes();
        law_tail_is_the_longest(context, room);
        let start = context.len() - byte_tail(context, room).len();
        assert(note + context.skip(start) =~= capped_context(context, max));
        assert(byte_len(note) + room == max);
    }
}

proof fn lemma_marker_bytes()
    ensures
        byte_len("…(truncated)\n"@) == TRUNCATION_MARKER_BYTES,
{
    reveal_strlit("…(truncated)\n");
    let s = "…(truncated)\n"@;
    assert(s.len() == 13);
    reveal_with_fuel(byte_len, 14);
    assert(s.drop_last() =~= s.take(12));
    assert(s.take(12).drop_last() =~= s.take(11));
    assert(s.take(11).drop_last() =~= s.take(10));
    assert(s.take(10).drop_last() =~= s.take(9));
    assert(s.take(9).drop_last() =~= s.take(8));
    assert(s.take(8).drop_last() =~= s.take(7));
    assert(s.take(7).drop_last() =~= s.take(6));
    assert(s.take(6).drop_last() =~= s.take(5));
    assert(s.take(5).drop_last() =~= s.take(4));
    assert(s.take(4).drop_last() =~= s.take(3));
    assert(s.take(3).drop_last() =~= s.take(2));
    assert(s.take(2).drop_last() =~= s.take(1));
    assert(s.take(1).drop_last() =~= s.take(0));
}

/// The prompt with what is on screen below it.
pub open spec fn enriched_prompt(
    prompt: Seq<char>,
    pane_id: Seq<char>,
    context: Option<Seq<char>>,
) -> Seq<char> {
    match context {
        Some(context) => prompt + "\n\n## Terminal Context (pane "@ + pane_id + ")\n```\n"@
            + capped_context(context, MAX_DELEGATE_CONTEXT_BYTES as nat) + "\n```"@,
        None => prompt,
    }
}

fn enrich(prompt: &str, pane_id: &str, context: &Option<String>) -> (r: String)
    ensures
        r@ == enriched_prompt(prompt@, pane_id@, opt_view(*context)),
{
    match context {
        Some(context) => {
            let mut out = cat(prompt, "\n\n## Terminal Context (pane ");
            out.append(pane_id);
            out.append(")\n```\n");
            out.append(cap_delegate_context(context.as_str(), MAX_DELEGATE_CONTEXT_BYTES).as_str());
            out.append("\n```");
            out
        },
        None => prompt.to_owned(),
    }
}

// ---------------------------------------------------------------------------
// Where the agent can run
// ---------------------------------------------------------------------------

/// Whether the agent can be started: on the host, or in the distribution of the
/// pane.
pub open spec fn launchable(host_launchable: bool, wsl_agent_available: bool) -> bool {
    host_launchable || wsl_agent_available
}

/// Whether the agent can be started: on the host, or in the distribution of the
/// pane.
pub fn delegate_launchable_for_target(host_launchable: bool, wsl_agent_available: bool) -> (r: bool)
    ensures
        r == launchable(host_launchable, wsl_agent_available),
{
    host_launchable || wsl_agent_available
}

/// The distribution that a pane's shell runs in.
pub open spec fn pane_distro(pane: JsonView) -> Option<Seq<char>> {
    match pane.text_member("shell"@) {
        Some(shell) => if begins(shell, "wsl:"@) && shell.len() > "wsl:"@.len() {
            Some(shell.skip("wsl:"@.len() as int))
        } else {
            None
        },
        None => None,
    }
}

/// The distribution that a pane's shell runs in.
pub fn active_pane_wsl_distro(pane: &Json) -> (r: Option<String>)
    ensures
        opt_view(r) == pane_distro(pane@),
{
    match pane.text_member("shell") {
        Some(shell) => match strip_prefix(shell.as_str(), "wsl:") {
            Some(distro) => if is_empty_text(distro.as_str()) {
                None
            } else {
                Some(distro)
            },
            None => None,
        },
        None => None,
    }
}

/// The directory in its distribution that a pane is in, where it can be handed
/// on.
pub open spec fn pane_wsl_cwd(pane: JsonView) -> Option<Seq<char>> {
    match pane.text_member("cwd"@) {
        Some(cwd) => if begins(cwd, "/"@) && !cwd.contains('"') {
            Some(cwd)
        } else {
            None
        },
        None => None,
    }
}

fn wsl_cwd_of(pane: &Json) -> (r: Option<String>)
    ensures
        opt_view(r) == pane_wsl_cwd(pane@),
{
    match pane.text_member("cwd") {
        Some(cwd) => {
            let chars = chars_of(cwd.as_str());
            if starts_with(cwd.as_str(), "/") && find_char(&chars, '"').is_none() {
                Some(cwd)
            } else {
                None
            }
        },
        None => None,
    }
}

/// The directory for a program of the host: a path of a distribution means
/// nothing there, and the user's home takes its place.
pub open spec fn host_cwd(cwd: Option<Seq<char>>, home: Option<Seq<char>>) -> Option<Seq<char>> {
    match cwd {
        Some(path) => if begins(path, "/"@) {
            home
        } else {
            Some(path)
        },
        None => None,
    }
}

/// The directory for a program of the host: a path of a distribution means
/// nothing there, and the user's home takes its place.
pub fn sanitize_windows_agent_cwd(cwd: &Option<String>, home: Option<String>) -> (r: Option<String>)
    ensures
        opt_view(r) == host_cwd(opt_view(*cwd), opt_view(home)),
{
    match cwd {
        Some(path) => if starts_with(path.as_str(), "/") {
            home
        } else {
            Some(path.clone())
        },
        None => None,
    }
}

/// The command that runs another in a distribution. The name of the distribution
/// and the command are already quoted.
pub open spec fn wsl_commandline(distro: Seq<char>, cwd: Option<Seq<char>>, command: Seq<char>) -> Seq<
    char,
> {
    match cwd {
        Some(cwd) => "wsl -d "@ + distro + " --cd \""@ + cwd + "\" -- bash -lc "@ + command,
        None => "wsl -d "@ + distro + " -- bash -lc "@ + command,
    }
}

fn wsl_commandline_text(distro: &str, cwd: &Option<String>, command: &str) -> (r: String)
    ensures
        r@ == wsl_commandline(distro@, opt_view(*cwd), command@),
{
    let mut out = cat("wsl -d ", distro);
    match cwd {
        Some(cwd) => {
            out.append(" --cd \"");
            out.append(cwd.as_str());
            out.append("\" -- bash -lc ");
        },
        None => {
            out.append(" -- bash -lc ");
        },
    }
    out.append(command);
    out
}

// ---------------------------------------------------------------------------
// Ids
// ---------------------------------------------------------------------------

/// A digit of an id.
pub open spec fn is_hex(c: char) -> bool {
    '0' <= c <= '9' || 'a' <= c <= 'f'
}

/// A random id in its usual form.
pub open spec fn is_random_id(s: Seq<char>) -> bool {
    &&& s.len() == 36
    &&& forall|i: int|
        0 <= i < 36 ==> if i == 8 || i == 13 || i == 18 || i == 23 {
            #[trigger] s[i] == '-'
        } else {
            is_hex(s[i])
        }
    &&& s[14] == '4'
    &&& s[19] == '8' || s[19] == '9' || s[19] == 'a' || s[19] == 'b'
}

/// `uuid::Uuid::new_v4` draws a random id, and its `to_string` writes it: 32
/// hexadecimal digits in lower case with hyphens behind the 8th, 12th, 16th and
/// 20th, of which the 13th is a 4 and the 17th one of 8, 9, a and b. Which one is
/// left to chance.
#[verifier::external_body]
fn new_session_id() -> (r: String)
    ensures
        is_random_id(r@),
{
    uuid::Uuid::new_v4().to_string()
}

// ---------------------------------------------------------------------------
// Step by step
// ---------------------------------------------------------------------------

/// What is waited for.
#[derive(Clone, Copy, Debug, PartialEq, Eq, Structural)]
pub enum DelegateStage {
    ActivePane,
    Probe,
    PaneOutput,
    HostCommand,
    WslCommand,
    HostTab,
    WslTab,
    Registration,
    Done,
}

/// A prompt on its way to another agent.
pub struct Delegation {
    pub runtime_id: String,
    /// The program of the agent.
    pub agent_exe: String,
    pub host_launchable: bool,
    /// The agent can be told the id of its session.
    pub pins_session: bool,
    pub wsl_sessions_enabled: bool,
    pub prompt: Option<String>,
    pub cwd: Option<String>,
    pub active: Option<Json>,
    pub wsl_agent_available: bool,
    pub session_id: Option<String>,
    pub enriched: Option<String>,
    pub stage: DelegateStage,
}

/// A prompt on its way, mathematically.
#[verifier::ext_equal]
pub struct DelegationView {
    pub runtime_id: Seq<char>,
    pub agent_exe: Seq<char>,
    pub host_launchable: bool,
    pub pins_session: bool,
    pub wsl_sessions_enabled: bool,
    pub prompt: Option<Seq<char>>,
    pub cwd: Option<Seq<char>>,
    pub active: Option<JsonView>,
    pub wsl_agent_available: bool,
    pub session_id: Option<Seq<char>>,
    pub enriched: Option<Seq<char>>,
    pub stage: DelegateStage,
}

/// An optional document, mathematically.
pub open spec fn opt_json(j: Option<Json>) -> Option<JsonView> {
    match j {
        Some(j) => Some(j@),
        None => None,
    }
}

impl View for Delegation {
    type V = DelegationView;

    open spec fn view(&self) -> DelegationView {
        DelegationView {
            runtime_id: self.runtime_id@,
            agent_exe: self.agent_exe@,
            host_launchable: self.host_launchable,
            pins_session: self.pins_session,
            wsl_sessions_enabled: self.wsl_sessions_enabled,
            prompt: opt_view(self.prompt),
            cwd: opt_view(self.cwd),
            active: opt_json(self.active),
            wsl_agent_available: self.wsl_agent_available,
            session_id: opt_view(self.session_id),
            enriched: opt_view(self.enriched),
            stage: self.stage,
        }
    }
}

/// What came of the last action.
pub enum DelegateEvent {
    /// The active pane, where it is known.
    ActivePane(Option<Json>),
    /// Whether the agent is there in the distribution.
    Probed(bool),
    /// What is on screen in the active pane, where it could be read.
    PaneOutput(Option<Json>),
    /// The command for the host, and the user's home there.
    HostCommand { commandline: String, home: Option<String> },
    /// The command for the distribution and the name of that, both quoted.
    WslCommand { command: String, distro: String },
    TabCreated(Json),
    Registered,
}

/// What is to be done next.
pub enum DelegateActionOf<T> {
    GetActivePane,
    ProbeDistro { distro: T, agent_exe: T },
    /// Read the last lines of a pane.
    ReadPane { pane_id: T, lines: u32 },
    BuildHostCommand { prompt: Option<T>, session_id: Option<T> },
    BuildWslCommand { prompt: Option<T>, session_id: Option<T>, distro: T },
    CreateTab { commandline: T, cwd: Option<T> },
    /// Tell the master which session runs in which pane.
    Register {
        session_id: T,
        pane_id: T,
        runtime_id: T,
        cwd: Option<T>,
        distro: Option<T>,
    },
    Finish,
}

/// What is to be done next.
pub type DelegateAction = DelegateActionOf<String>;

/// What is to be done next, mathematically.
pub type DelegateActionView = DelegateActionOf<Seq<char>>;

impl View for DelegateActionOf<String> {
    type V = DelegateActionView;

    open spec fn view(&self) -> DelegateActionView {
        match *self {
            DelegateActionOf::GetActivePane => DelegateActionOf::GetActivePane,
            DelegateActionOf::ProbeDistro { distro, agent_exe } => DelegateActionOf::ProbeDistro {
                distro: distro@,
                agent_exe: agent_exe@,
            },
            DelegateActionOf::ReadPane { pane_id, lines } => DelegateActionOf::ReadPane {
                pane_id: pane_id@,
                lines,
            },
            DelegateActionOf::BuildHostCommand { prompt, session_id } =>
                DelegateActionOf::BuildHostCommand {
                prompt: opt_view(prompt),
                session_id: opt_view(session_id),
            },
            DelegateActionOf::BuildWslCommand { prompt, session_id, distro } =>
                DelegateActionOf::BuildWslCommand {
                prompt: opt_view(prompt),
                session_id: opt_view(session_id),
                distro: distro@,
            },
            DelegateActionOf::CreateTab { commandline, cwd } => DelegateActionOf::CreateTab {
                commandline: commandline@,
                cwd: opt_view(cwd),
            },
            DelegateActionOf::Register { session_id, pane_id, runtime_id, cwd, distro } =>
                DelegateActionOf::Register {
                session_id: session_id@,
                pane_id: pane_id@,
                runtime_id: runtime_id@,
                cwd: opt_view(cwd),
                distro: opt_view(distro),
            },
            DelegateActionOf::Finish => DelegateActionOf::Finish,
        }
    }
}

impl DelegationView {
    /// The distribution of the active pane.
    pub open spec fn distro(self) -> Option<Seq<char>> {
        match self.active {
            Some(pane) => pane_distro(pane),
            None => None,
        }
    }

    /// The directory of the active pane in its distribution.
    pub open spec fn wsl_cwd(self) -> Option<Seq<char>> {
        match self.active {
            Some(pane) => pane_wsl_cwd(pane),
            None => None,
        }
    }

    /// The id of the active pane.
    pub open spec fn pane_id(self) -> Option<Seq<char>> {
        match self.active {
            Some(pane) => pane.label_member("session_id"@),
            None => None,
        }
    }

    /// The agent can be started.
    pub open spec fn launchable(self) -> bool {
        launchable(self.host_launchable, self.wsl_agent_available)
    }

    /// The prompt that is handed over: only one that says something, and only to
    /// an agent that can be started.
    pub open spec fn usable_prompt(self) -> Option<Seq<char>> {
        match self.prompt {
            Some(prompt) => if !all_white(prompt) && self.launchable() {
                Some(prompt)
            } else {
                None
            },
            None => None,
        }
    }

    /// The prompt is complete; the command is next.
    pub open spec fn building(self, enriched: Option<Seq<char>>) -> (
        DelegationView,
        DelegateActionView,
    ) {
        (
            DelegationView { enriched, stage: DelegateStage::HostCommand, ..self },
            DelegateActionOf::BuildHostCommand { prompt: enriched, session_id: self.session_id },
        )
    }

    /// It is known where the agent can run; the prompt is next.
    pub open spec fn placed(self, available: bool, fresh_id: Seq<char>) -> (
        DelegationView,
        DelegateActionView,
    ) {
        let s = DelegationView { wsl_agent_available: available, ..self };
        let s1 = DelegationView {
            session_id: if s.launchable() && s.pins_session {
                Some(fresh_id)
            } else {
                None
            },
            ..s
        };
        match (s1.usable_prompt(), s1.pane_id()) {
            (None, _) => s1.building(None),
            (Some(prompt), None) => s1.building(Some(prompt)),
            (Some(_), Some(pane_id)) => (
                DelegationView { stage: DelegateStage::PaneOutput, ..s1 },
                DelegateActionOf::ReadPane { pane_id, lines: 30 },
            ),
        }
    }

    /// The active pane is known.
    pub open spec fn pane_known(self, active: Option<JsonView>, fresh_id: Seq<char>) -> (
        DelegationView,
        DelegateActionView,
    ) {
        let s = DelegationView { active, ..self };
        match s.distro() {
            Some(distro) => (
                DelegationView { stage: DelegateStage::Probe, ..s },
                DelegateActionOf::ProbeDistro { distro, agent_exe: s.agent_exe },
            ),
            None => s.placed(false, fresh_id),
        }
    }

    /// What is on screen was read, or could not be.
    pub open spec fn output_read(self, output: Option<JsonView>) -> (
        DelegationView,
        DelegateActionView,
    ) {
        let context = match output {
            Some(value) => value.text_member("content"@),
            None => None,
        };
        self.building(
            match (self.usable_prompt(), self.pane_id()) {
                (Some(prompt), Some(pane_id)) => Some(enriched_prompt(prompt, pane_id, context)),
                _ => None,
            },
        )
    }

    /// The command for the host is known; in a distribution that has the agent,
    /// the agent is started there instead.
    pub open spec fn host_built(self, commandline: Seq<char>, home: Option<Seq<char>>) -> (
        DelegationView,
        DelegateActionView,
    ) {
        match self.distro() {
            Some(distro) if self.wsl_agent_available => (
                DelegationView { stage: DelegateStage::WslCommand, ..self },
                DelegateActionOf::BuildWslCommand {
                    prompt: self.enriched,
                    session_id: self.session_id,
                    distro,
                },
            ),
            _ => (
                DelegationView { stage: DelegateStage::HostTab, ..self },
                DelegateActionOf::CreateTab { commandline, cwd: host_cwd(self.cwd, home) },
            ),
        }
    }

    /// The command for the distribution is known.
    pub open spec fn wsl_built(self, command: Seq<char>, distro: Seq<char>) -> (
        DelegationView,
        DelegateActionView,
    ) {
        (
            DelegationView { stage: DelegateStage::WslTab, ..self },
            DelegateActionOf::CreateTab {
                commandline: wsl_commandline(distro, self.wsl_cwd(), command),
                cwd: None,
            },
        )
    }

    /// The tab is there: the session is registered where its id and its pane are
    /// known, one of a distribution only where such sessions are shown.
    pub open spec fn tab_created(self, response: JsonView, in_wsl: bool) -> (
        DelegationView,
        DelegateActionView,
    ) {
        match (self.session_id, response.text_member("session_id"@)) {
            (Some(session_id), Some(pane_id)) if !in_wsl || self.wsl_sessions_enabled => (
                DelegationView { stage: DelegateStage::Registration, ..self },
                DelegateActionOf::Register {
                    session_id,
                    pane_id,
                    runtime_id: self.runtime_id,
                    cwd: if in_wsl && self.wsl_cwd() is Some {
                        self.wsl_cwd()
                    } else {
                        self.cwd
                    },
                    distro: if in_wsl {
                        self.distro()
                    } else {
                        None
                    },
                },
            ),
            _ => self.done(),
        }
    }

    /// There is nothing left to do.
    pub open spec fn done(self) -> (DelegationView, DelegateActionView) {
        (DelegationView { stage: DelegateStage::Done, ..self }, DelegateActionOf::Finish)
    }

    /// What follows an event, given an id for a session. An event that was not
    /// waited for ends the matter.
    pub open spec fn advanced(self, event: DelegateEvent, fresh_id: Seq<char>) -> (
        DelegationView,
        DelegateActionView,
    ) {
        match (self.stage, event) {
            (DelegateStage::ActivePane, DelegateEvent::ActivePane(pane)) => self.pane_known(
                opt_json(pane),
                fresh_id,
            ),
            (DelegateStage::Probe, DelegateEvent::Probed(available)) => self.placed(
                available,
                fresh_id,
            ),
            (DelegateStage::PaneOutput, DelegateEvent::PaneOutput(output)) => self.output_read(
                opt_json(output),
            ),
            (DelegateStage::HostCommand, DelegateEvent::HostCommand { commandline, home }) =>
                self.host_built(commandline@, opt_view(home)),
            (DelegateStage::WslCommand, DelegateEvent::WslCommand { command, distro }) =>
                self.wsl_built(command@, distro@),
            (DelegateStage::HostTab, DelegateEvent::TabCreated(response)) => self.tab_created(
                response@,
                false,
            ),
            (DelegateStage::WslTab, DelegateEvent::TabCreated(response)) => self.tab_created(
                response@,
                true,
            ),
            _ => self.done(),
        }
    }
}

impl Delegation {
    /// A prompt to be handed over, and what is to be done first.
    pub fn start(
        runtime_id: String,
        agent_exe: String,
        host_launchable: bool,
        pins_session: bool,
        wsl_sessions_enabled: bool,
        prompt: Option<String>,
        cwd: Option<String>,
    ) -> (r: (Delegation, DelegateAction))
        ensures
            r.0@ == (DelegationView {
                runtime_id: runtime_id@,
                agent_exe: agent_exe@,
                host_launchable,
                pins_session,
                wsl_sessions_enabled,
                prompt: opt_view(prompt),
                cwd: opt_view(cwd),
                active: None,
                wsl_agent_available: false,
                session_id: None,
                enriched: None,
                stage: DelegateStage::ActivePane,
            }),
            r.1@ == DelegateActionView::GetActivePane,
    {
        (
            Delegation {
                runtime_id,
                agent_exe,
                host_launchable,
                pins_session,
                wsl_sessions_enabled,
                prompt,
                cwd,
                active: None,
                wsl_agent_available: false,
                session_id: None,
                enriched: None,
                stage: DelegateStage::ActivePane,
            },
            DelegateActionOf::GetActivePane,
        )
    }

    fn distro(&self) -> (r: Option<String>)
        ensures
            opt_view(r) == self@.distro(),
    {
        match &self.active {
            Some(pane) => active_pane_wsl_distro(pane),
            None => None,
        }
    }

    fn wsl_cwd(&self) -> (r: Option<String>)
        ensures
            opt_view(r) == self@.wsl_cwd(),
    {
        match &self.active {
            Some(pane) => wsl_cwd_of(pane),
            None => None,
        }
    }

    fn pane_id(&self) -> (r: Option<String>)
        ensures
            opt_view(r) == self@.pane_id(),
    {
        match &self.active {
            Some(pane) => pane.label_member("session_id"),
            None => None,
        }
    }

    fn usable_prompt(&self) -> (r: Option<String>)
        ensures
            opt_view(r) == self@.usable_prompt(),
    {
        match &self.prompt {
            Some(prompt) => if !is_blank(prompt.as_str()) && delegate_launchable_for_target(
                self.host_launchable,
                self.wsl_agent_available,
            ) {
                Some(prompt.clone())
            } else {
                None
            },
            None => None,
        }
    }

    fn build(&mut self, enriched: Option<String>) -> (action: DelegateAction)
        ensures
            (final(self)@, action@) == old(self)@.building(opt_view(enriched)),
    {
        let prompt = copy_text(&enriched);
        self.enriched = enriched;
        self.stage = DelegateStage::HostCommand;
        DelegateActionOf::BuildHostCommand { prompt, session_id: copy_text(&self.session_id) }
    }

    fn place(&mut self, available: bool, fresh_id: String) -> (action: DelegateAction)
        ensures
            (final(self)@, action@) == old(self)@.placed(available, fresh_id@),
    {
        self.wsl_agent_available = available;
        self.session_id = if delegate_launchable_for_target(
            self.host_launchable,
            self.wsl_agent_available,
        ) && self.pins_session {
            Some(fresh_id)
        } else {
            None
        };
        match self.usable_prompt() {
            None => self.build(None),
            Some(prompt) => match self.pane_id() {
                None => self.build(Some(prompt)),
                Some(pane_id) => {
                    self.stage = DelegateStage::PaneOutput;
                    DelegateActionOf::ReadPane { pane_id, lines: 30 }
                },
            },
        }
    }

    fn know_pane(&mut self, active: Option<Json>, fresh_id: String) -> (action: DelegateAction)
        ensures
            (final(self)@, action@) == old(self)@.pane_known(opt_json(active), fresh_id@),
    {
        self.active = active;
        match self.distro() {
            Some(distro) => {
                self.stage = DelegateStage::Probe;
                DelegateActionOf::ProbeDistro { distro, agent_exe: self.agent_exe.clone() }
            },
            None => self.place(false, fresh_id),
        }
    }

    fn read_output(&mut self, output: Option<Json>) -> (action: DelegateAction)
        ensures
            (final(self)@, action@) == old(self)@.output_read(opt_json(output)),
    {
        let context = match &output {
            Some(value) => value.text_member("content"),
            None => None,
        };
        let enriched = match (self.usable_prompt(), self.pane_id()) {
            (Some(prompt), Some(pane_id)) => Some(
                enrich(prompt.as_str(), pane_id.as_str(), &context),
            ),
            _ => None,
        };
        self.build(enriched)
    }

    fn take_host_command(&mut self, commandline: String, home: Option<String>) -> (action:
        DelegateAction)
        ensures
            (final(self)@, action@) == old(self)@.host_built(commandline@, opt_view(home)),
    {
        let distro = if self.wsl_agent_available {
            self.distro()
        } else {
            None
        };
        match distro {
            Some(distro) => {
                self.stage = DelegateStage::WslCommand;
                DelegateActionOf::BuildWslCommand {
                    prompt: copy_text(&self.enriched),
                    session_id: copy_text(&self.session_id),
                    distro,
                }
            },
            None => {
                self.stage = DelegateStage::HostTab;
                let cwd = sanitize_windows_agent_cwd(&self.cwd, home);
                DelegateActionOf::CreateTab { commandline, cwd }
            },
        }
    }

    fn take_wsl_command(&mut self, command: String, distro: String) -> (action: DelegateAction)
        ensures
            (final(self)@, action@) == old(self)@.wsl_built(command@, distro@),
    {
        let cwd = self.wsl_cwd();
        let commandline = wsl_commandline_text(distro.as_str(), &cwd, command.as_str());
        self.stage = DelegateStage::WslTab;
        DelegateActionOf::CreateTab { commandline, cwd: None }
    }

    fn take_tab(&mut self, response: &Json, in_wsl: bool) -> (action: DelegateAction)
        ensures
            (final(self)@, action@) == old(self)@.tab_created(response@, in_wsl),
    {
        if !in_wsl || self.wsl_sessions_enabled {
            if let (Some(session_id), Some(pane_id)) = (
                copy_text(&self.session_id),
                response.text_member("session_id"),
            ) {
                let wsl_cwd = self.wsl_cwd();
                let cwd = if in_wsl && wsl_cwd.is_some() {
                    wsl_cwd
                } else {
                    copy_text(&self.cwd)
                };
                let distro = if in_wsl {
                    self.distro()
                } else {
                    None
                };
                self.stage = DelegateStage::Registration;
                return DelegateActionOf::Register {
                    session_id,
                    pane_id,
                    runtime_id: self.runtime_id.clone(),
                    cwd,
                    distro,
                };
            }
        }
        self.end()
    }

    fn end(&mut self) -> (action: DelegateAction)
        ensures
            (final(self)@, action@) == old(self)@.done(),
    {
        self.stage = DelegateStage::Done;
        DelegateActionOf::Finish
    }

    /// What follows an event, given an id for a session.
    pub fn advance(&mut self, event: DelegateEvent, fresh_id: String) -> (action: DelegateAction)
        ensures
            (final(self)@, action@) == old(self)@.advanced(event, fresh_id@),
    {
        match (self.stage, event) {
            (DelegateStage::ActivePane, DelegateEvent::ActivePane(pane)) => self.know_pane(
                pane,
                fresh_id,
            ),
            (DelegateStage::Probe, DelegateEvent::Probed(available)) => self.place(
                available,
                fresh_id,
            ),
            (DelegateStage::PaneOutput, DelegateEvent::PaneOutput(output)) => self.read_output(
                output,
            ),
            (DelegateStage::HostCommand, DelegateEvent::HostCommand { commandline, home }) =>
                self.take_host_command(commandline, home),
            (DelegateStage::WslCommand, DelegateEvent::WslCommand { command, distro }) =>
                self.take_wsl_command(command, distro),
            (DelegateStage::HostTab, DelegateEvent::TabCreated(response)) => self.take_tab(
                &response,
                false,
            ),
            (DelegateStage::WslTab, DelegateEvent::TabCreated(response)) => self.take_tab(
                &response,
                true,
            ),
            _ => self.end(),
        }
    }

    /// What follows an event; a session that is to have an id gets a random one.
    pub fn next(&mut self, event: DelegateEvent) -> (action: DelegateAction)
        ensures
            exists|id: Seq<char>|
                is_random_id(id) && (final(self)@, action@) == #[trigger] old(self)@.advanced(
                    event,
                    id,
                ),
    {
        let id = new_session_id();
        let ghost fresh = id@;
        let action = self.advance(event, id);
        proof {
            assert(is_random_id(fresh));
            assert((self@, action@) == old(self)@.advanced(event, fresh));
        }
        action
    }
}

// ---------------------------------------------------------------------------
// Laws
// ---------------------------------------------------------------------------

/// An agent that cannot be started gets no prompt and no session of ours: its
/// command is run bare, so that its failure stays visible.
pub proof fn law_doomed_agent_gets_no_prompt(s: DelegationView, fresh_id: Seq<char>)
    requires
        !s.host_launchable,
    ensures
        ({
            let (next, action) = s.placed(false, fresh_id);
            &&& next.session_id is None
            &&& action == DelegateActionView::BuildHostCommand { prompt: None, session_id: None }
        }),
{
}

/// A distribution without the agent is passed over: the agent is started on the
/// host.
pub proof fn law_distro_without_the_agent_is_passed_over(
    s: DelegationView,
    commandline: Seq<char>,
    home: Option<Seq<char>>,
)
    requires
        !s.wsl_agent_available,
    ensures
        s.host_built(commandline, home).1 == (DelegateActionView::CreateTab {
            commandline,
            cwd: host_cwd(s.cwd, home),
        }),
{
}

/// Where sessions of distributions are not shown, none is registered.
pub proof fn law_hidden_sessions_are_not_registered(s: DelegationView, response: JsonView)
    requires
        !s.wsl_sessions_enabled,
    ensures
        s.tab_created(response, true) == s.done(),
{
}

/// The state and the request at which the first command is built: what is asked
/// of the distribution and of the pane on the way is answered by `available` and
/// by `output`.
pub open spec fn at_first_command(
    s: DelegationView,
    pane: Option<Json>,
    available: bool,
    output: Option<Json>,
    fresh_id: Seq<char>,
) -> (DelegationView, DelegateActionView) {
    let (s1, a1) = s.advanced(DelegateEvent::ActivePane(pane), fresh_id);
    let (s2, a2) = if a1 is ProbeDistro {
        s1.advanced(DelegateEvent::Probed(available), fresh_id)
    } else {
        (s1, a1)
    };
    if a2 is ReadPane {
        s2.advanced(DelegateEvent::PaneOutput(output), fresh_id)
    } else {
        (s2, a2)
    }
}

/// Whether the shell of a pane runs in a distribution, by the name of that.
pub open spec fn runs_in(pane: Option<Json>, distro: Seq<char>) -> bool {
    &&& pane is Some
    &&& distro.len() > 0
    &&& pane->0@.text_member("shell"@) == Some("wsl:"@ + distro)
}

/// The agent is looked for in the distribution of the pane, under its own name.
pub proof fn law_the_agent_is_looked_for_where_the_pane_is(
    s: DelegationView,
    pane: Option<Json>,
    distro: Seq<char>,
    fresh_id: Seq<char>,
)
    requires
        s.stage is ActivePane,
        runs_in(pane, distro),
    ensures
        s.advanced(DelegateEvent::ActivePane(pane), fresh_id).1 == (DelegateActionView::ProbeDistro {
            distro,
            agent_exe: s.agent_exe,
        }),
{
    lemma_named_distro(pane->0@, distro);
}

proof fn lemma_named_distro(pane: JsonView, distro: Seq<char>)
    requires
        distro.len() > 0,
        pane.text_member("shell"@) == Some("wsl:"@ + distro),
    ensures
        pane_distro(pane) == Some(distro),
{
    let shell = "wsl:"@ + distro;
    assert(shell.take("wsl:"@.len() as int) =~= "wsl:"@);
    assert(shell.skip("wsl:"@.len() as int) =~= distro);
    assert("wsl:"@.is_prefix_of(shell));
}

/// A prompt that says something reaches an agent that can be started: the first
/// command carries it, at the front, and nothing of it is lost. What is on screen
/// in the pane follows it, whole where it is short enough.
pub proof fn law_a_prompt_reaches_the_agent(
    s: DelegationView,
    pane: Option<Json>,
    available: bool,
    output: Option<Json>,
    fresh_id: Seq<char>,
)
    requires
        s.stage is ActivePane,
        s.prompt is Some,
        !all_white(s.prompt->0),
        s.host_launchable,
    ensures
        ({
            let action = at_first_command(s, pane, available, output, fresh_id).1;
            let asked = action->BuildHostCommand_prompt;
            let pane_id = pane->0@.label_member("session_id"@);
            let shown = output->0@.text_member("content"@);
            let seen = pane is Some && pane_id is Some && output is Some && shown is Some;
            &&& action is BuildHostCommand
            &&& asked is Some
            &&& s.prompt->0.is_prefix_of(asked->0)
            &&& !seen ==> asked == s.prompt
            &&& seen && byte_len(shown->0) <= 12288 ==> asked->0 == s.prompt->0
                + "\n\n## Terminal Context (pane "@ + pane_id->0 + ")\n```\n"@ + shown->0 + "\n```"@
        }),
{
    let action = at_first_command(s, pane, available, output, fresh_id).1;
    let asked = action->BuildHostCommand_prompt;
    assert(s.prompt->0.is_prefix_of(asked->0));
}

/// A prompt reaches an agent of the distribution that the pane runs in, though the
/// host has none.
pub proof fn law_a_prompt_reaches_the_distribution(
    s: DelegationView,
    pane: Option<Json>,
    distro: Seq<char>,
    output: Option<Json>,
    fresh_id: Seq<char>,
    commandline: String,
    home: Option<String>,
)
    requires
        s.stage is ActivePane,
        s.prompt is Some,
        !all_white(s.prompt->0),
        runs_in(pane, distro),
    ensures
        ({
            let (built, action) = at_first_command(s, pane, true, output, fresh_id);
            let last = built.advanced(DelegateEvent::HostCommand { commandline, home }, fresh_id).1;
            &&& action is BuildHostCommand
            &&& action->BuildHostCommand_prompt is Some
            &&& s.prompt->0.is_prefix_of(action->BuildHostCommand_prompt->0)
            &&& last == (DelegateActionView::BuildWslCommand {
                prompt: action->BuildHostCommand_prompt,
                session_id: action->BuildHostCommand_session_id,
                distro,
            })
        }),
{
    lemma_named_distro(pane->0@, distro);
    let (built, action) = at_first_command(s, pane, true, output, fresh_id);
    assert(s.prompt->0.is_prefix_of(action->BuildHostCommand_prompt->0));
}

/// Whichever command is built last is built for the same prompt and the same
/// session as the first. On the host the first is the last, and the tab runs it.
pub proof fn law_both_commands_carry_the_same(
    s: DelegationView,
    event: DelegateEvent,
    fresh_id: Seq<char>,
    commandline: String,
    home: Option<String>,
    later_id: Seq<char>,
)
    requires
        s.advanced(event, fresh_id).1 is BuildHostCommand,
    ensures
        ({
            let (built, first) = s.advanced(event, fresh_id);
            let last = built.advanced(DelegateEvent::HostCommand { commandline, home }, later_id).1;
            match last {
                DelegateActionView::BuildWslCommand { prompt, session_id, .. } => prompt
                    == first->BuildHostCommand_prompt && session_id
                    == first->BuildHostCommand_session_id && built.wsl_agent_available,
                DelegateActionView::CreateTab { commandline: run, .. } => run == commandline@,
                _ => false,
            }
        }),
{
}

/// A session is pinned where the agent can be started and takes one, and is then
/// the one that was drawn. An agent that cannot be started gets neither a session
/// nor a prompt.
pub proof fn law_a_session_is_pinned_where_it_can_be(
    s: DelegationView,
    pane: Option<Json>,
    available: bool,
    output: Option<Json>,
    fresh_id: Seq<char>,
)
    requires
        s.stage is ActivePane,
    ensures
        ({
            let action = at_first_command(s, pane, available, output, fresh_id).1;
            let probed = s.advanced(DelegateEvent::ActivePane(pane), fresh_id).1 is ProbeDistro;
            let starts = s.host_launchable || (probed && available);
            &&& action is BuildHostCommand
            &&& action->BuildHostCommand_session_id == (if starts && s.pins_session {
                Some(fresh_id)
            } else {
                None
            })
            &&& !starts ==> action->BuildHostCommand_prompt is None
            &&& s.prompt is None ==> action->BuildHostCommand_prompt is None
        }),
{
}

/// The screen of the active pane is read, thirty lines of it, and of no other.
pub proof fn law_the_active_pane_is_read(
    s: DelegationView,
    pane: Option<Json>,
    fresh_id: Seq<char>,
)
    requires
        s.stage is ActivePane,
        s.host_launchable,
        s.prompt is Some,
        !all_white(s.prompt->0),
        pane is Some,
        pane->0@.text_member("shell"@) is None,
        pane->0@.label_member("session_id"@) is Some,
    ensures
        s.advanced(DelegateEvent::ActivePane(pane), fresh_id).1 == (DelegateActionView::ReadPane {
            pane_id: pane->0@.label_member("session_id"@)->0,
            lines: 30,
        }),
{
}

proof fn lemma_rooted(path: Seq<char>)
    ensures
        begins(path, "/"@) == (path.len() > 0 && path[0] == '/'),
{
    reveal_strlit("/");
    if path.len() > 0 {
        assert(path.take(1)[0] == path[0]);
        assert("/"@[0] == '/');
        if path[0] == '/' {
            assert(path.take(1) =~= "/"@);
        }
    }
}

/// In a distribution the command runs in a login shell of it, in the directory of
/// the pane where that is one of the distribution.
pub proof fn law_a_distribution_runs_the_command(
    s: DelegationView,
    command: String,
    distro: String,
    fresh_id: Seq<char>,
)
    requires
        s.stage is WslCommand,
    ensures
        ({
            let action = s.advanced(DelegateEvent::WslCommand { command, distro }, fresh_id).1;
            let cwd = s.active->0.text_member("cwd"@);
            &&& action is CreateTab
            &&& action->CreateTab_cwd is None
            &&& s.active is None || cwd is None ==> action->CreateTab_commandline == "wsl -d "@
                + distro@ + " -- bash -lc "@ + command@
            &&& s.active is Some && cwd is Some && cwd->0.len() > 0 && cwd->0[0] == '/'
                && !cwd->0.contains('"') ==> action->CreateTab_commandline == "wsl -d "@ + distro@
                + " --cd \""@ + cwd->0 + "\" -- bash -lc "@ + command@
            &&& s.active is Some && cwd is Some && (cwd->0.len() == 0 || cwd->0[0] != '/'
                || cwd->0.contains('"')) ==> action->CreateTab_commandline == "wsl -d "@ + distro@
                + " -- bash -lc "@ + command@
        }),
{
    if s.active is Some && s.active->0.text_member("cwd"@) is Some {
        lemma_rooted(s.active->0.text_member("cwd"@)->0);
    }
}

/// A directory of a distribution means nothing to the host: the tab then starts in
/// the user's home. Any other directory is kept.
pub proof fn law_the_host_keeps_its_own_directories(
    s: DelegationView,
    commandline: String,
    home: Option<String>,
    fresh_id: Seq<char>,
)
    requires
        s.stage is HostCommand,
        !s.wsl_agent_available,
    ensures
        ({
            let action = s.advanced(DelegateEvent::HostCommand { commandline, home }, fresh_id).1;
            &&& action is CreateTab
            &&& action->CreateTab_commandline == commandline@
            &&& s.cwd is None ==> action->CreateTab_cwd is None
            &&& s.cwd is Some && s.cwd->0.len() > 0 && s.cwd->0[0] == '/' ==> action->CreateTab_cwd
                == opt_view(home)
            &&& s.cwd is Some && (s.cwd->0.len() == 0 || s.cwd->0[0] != '/')
                ==> action->CreateTab_cwd == s.cwd
        }),
{
    if s.cwd is Some {
        lemma_rooted(s.cwd->0);
    }
}

/// A pinned session is registered with the pane that its tab was given, for the
/// agent that was asked for. Without a session, or without a pane, nothing is.
pub proof fn law_a_pinned_session_is_registered(
    s: DelegationView,
    response: Json,
    fresh_id: Seq<char>,
)
    requires
        s.stage is HostTab,
    ensures
        ({
            let (next, action) = s.advanced(DelegateEvent::TabCreated(response), fresh_id);
            let pane_id = response@.text_member("session_id"@);
            &&& s.session_id is Some && pane_id is Some ==> action == (
            DelegateActionView::Register {
                session_id: s.session_id->0,
                pane_id: pane_id->0,
                runtime_id: s.runtime_id,
                cwd: s.cwd,
                distro: None,
            }) && next.advanced(DelegateEvent::Registered, fresh_id).1 is Finish
            &&& s.session_id is None || pane_id is None ==> action is Finish
        }),
{
}

/// A session of a distribution is registered under that, where such sessions are
/// shown.
pub proof fn law_a_session_of_a_distribution_is_registered(
    s: DelegationView,
    response: Json,
    distro: Seq<char>,
    fresh_id: Seq<char>,
)
    requires
        s.stage is WslTab,
        s.session_id is Some,
        s.active is Some,
        distro.len() > 0,
        s.active->0.text_member("shell"@) == Some("wsl:"@ + distro),
        response@.text_member("session_id"@) is Some,
    ensures
        ({
            let action = s.advanced(DelegateEvent::TabCreated(response), fresh_id).1;
            &&& s.wsl_sessions_enabled ==> action is Register && action->Register_distro == Some(
                distro,
            ) && action->Register_session_id == s.session_id->0 && action->Register_pane_id
                == response@.text_member("session_id"@)->0 && action->Register_runtime_id
                == s.runtime_id && (s.active->0.text_member("cwd"@) is None
                ==> action->Register_cwd == s.cwd)
            &&& !s.wsl_sessions_enabled ==> action is Finish
        }),
{
    lemma_named_distro(s.active->0, distro);
}

} // verus!
