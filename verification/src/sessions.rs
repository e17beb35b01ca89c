//! The sessions that the master knows, as a table.

use vstd::prelude::*;
use vstd::string::*;

use crate::agents::AgentRegistry;
use crate::app::event::SessionOrigin;
use crate::bytes::{byte_head, byte_len, head_within};
use crate::calendar::{format_epoch_ms_utc, minute_stamp};
use crate::text::{
    cat, decimal, decimal_text, is_empty_text, law_padding_adds_blanks, opt_view, pad_right, padded,
};

verus! {

// ---------------------------------------------------------------------------
// Sessions
// ---------------------------------------------------------------------------

/// Which sessions are asked for.
#[derive(Clone, Copy, Debug, PartialEq, Eq, Structural)]
pub enum SessionsOriginArg {
    Shell,
    AgentPane,
    All,
}

/// Which sessions are shown, by where they come from.
#[derive(Clone, Copy, Debug, PartialEq, Eq, Structural)]
pub enum OriginFilter {
    ShellOnly,
    AgentPaneOnly,
    All,
}

impl SessionsOriginArg {
    /// Which sessions are shown.
    pub open spec fn filter(self) -> OriginFilter {
        match self {
            SessionsOriginArg::Shell => OriginFilter::ShellOnly,
            SessionsOriginArg::AgentPane => OriginFilter::AgentPaneOnly,
            SessionsOriginArg::All => OriginFilter::All,
        }
    }

    /// Which sessions are shown.
    pub fn to_filter(self) -> (r: OriginFilter)
        ensures
            r == self.filter(),
    {
        match self {
            SessionsOriginArg::Shell => OriginFilter::ShellOnly,
            SessionsOriginArg::AgentPane => OriginFilter::AgentPaneOnly,
            SessionsOriginArg::All => OriginFilter::All,
        }
    }
}

impl OriginFilter {
    /// Whether a session is shown. One that does not say where it comes from
    /// counts as one of a shell.
    pub open spec fn shows(self, origin: Option<SessionOrigin>) -> bool {
        match self {
            OriginFilter::All => true,
            OriginFilter::ShellOnly => origin != Some(SessionOrigin::AgentPane),
            OriginFilter::AgentPaneOnly => origin == Some(SessionOrigin::AgentPane),
        }
    }

    /// Whether a session is shown.
    pub fn matches_opt(self, origin: Option<SessionOrigin>) -> (r: bool)
        ensures
            r == self.shows(origin),
    {
        let of_agent_pane = match origin {
            Some(SessionOrigin::AgentPane) => true,
            _ => false,
        };
        match self {
            OriginFilter::All => true,
            OriginFilter::ShellOnly => !of_agent_pane,
            OriginFilter::AgentPaneOnly => of_agent_pane,
        }
    }
}

/// The agent of a session.
pub enum CliSource {
    Claude,
    Codex,
    Copilot,
    Gemini,
    OpenCode,
    Unknown(String),
}

/// Where a session runs.
pub enum SessionLocation {
    Host,
    Wsl { distro: String },
}

/// What is known of a session.
pub struct SessionInfo {
    pub session_id: String,
    /// The name of its status.
    pub status: Option<String>,
    pub cli_source: Option<CliSource>,
    pub origin: Option<SessionOrigin>,
    pub location: SessionLocation,
    pub pane_session_id: Option<String>,
    pub updated_at: Option<String>,
    pub last_activity_at_ms: Option<u64>,
    pub title: Option<String>,
}

// ---------------------------------------------------------------------------
// Order
// ---------------------------------------------------------------------------

/// When something last happened in a session; before all time where that is not
/// known.
pub open spec fn activity(s: SessionInfo) -> int {
    match s.last_activity_at_ms {
        Some(ms) => ms as int,
        None => -1,
    }
}

/// Sessions with one more, behind all that are as new.
pub open spec fn placed(v: Seq<SessionInfo>, s: SessionInfo) -> Seq<SessionInfo>
    decreases v.len(),
{
    if v.len() == 0 {
        seq![s]
    } else if activity(v[0]) < activity(s) {
        seq![s] + v
    } else {
        seq![v[0]] + placed(v.skip(1), s)
    }
}

/// Sessions, the newest first; of those that are as new, in their order.
pub open spec fn newest_first(v: Seq<SessionInfo>) -> Seq<SessionInfo>
    decreases v.len(),
{
    if v.len() == 0 {
        Seq::empty()
    } else {
        placed(newest_first(v.drop_last()), v.last())
    }
}

/// The sessions that a filter shows.
pub open spec fn shown(v: Seq<SessionInfo>, filter: OriginFilter) -> Seq<SessionInfo>
    decreases v.len(),
{
    if v.len() == 0 {
        Seq::empty()
    } else if filter.shows(v.last().origin) {
        shown(v.drop_last(), filter).push(v.last())
    } else {
        shown(v.drop_last(), filter)
    }
}

fn is_newer(a: &SessionInfo, b: &SessionInfo) -> (r: bool)
    ensures
        r == (activity(*a) > activity(*b)),
{
    match (a.last_activity_at_ms, b.last_activity_at_ms) {
        (Some(x), Some(y)) => x > y,
        (Some(_), None) => true,
        _ => false,
    }
}

fn place(v: &mut Vec<SessionInfo>, s: SessionInfo)
    ensures
        final(v)@ == placed(old(v)@, s),
{
    let ghost all = v@;
    let mut i: usize = 0;
    proof {
        assert(all.skip(0) =~= all);
        assert(all.take(0) + placed(all, s) =~= placed(all, s));
    }
    while i < v.len() && !is_newer(&s, &v[i])
        invariant
            i <= v@.len(),
            v@ == all,
            placed(all, s) == all.take(i as int) + placed(all.skip(i as int), s),
        decreases v.len() - i,
    {
        proof {
            assert(all.skip(i as int)[0] == all[i as int]);
            assert(all.skip(i as int).skip(1) =~= all.skip(i + 1));
            let rest = placed(all.skip(i + 1), s);
            assert(all.take(i as int) + (seq![all[i as int]] + rest) =~= all.take(i + 1) + rest);
        }
        i += 1;
    }
    proof {
        if i < v@.len() {
            assert(all.skip(i as int)[0] == all[i as int]);
        } else {
            assert(all.skip(i as int).len() == 0);
        }
    }
    v.insert(i, s);
    proof {
        assert(v@ =~= all.take(i as int) + placed(all.skip(i as int), s));
    }
}

/// The sessions that a filter shows, the newest first.
pub fn list_sessions(sessions: Vec<SessionInfo>, filter: OriginFilter) -> (r: Vec<SessionInfo>)
    ensures
        r@ == newest_first(shown(sessions@, filter)),
{
    let mut rest = sessions;
    let ghost all = sessions@;
    let mut out: Vec<SessionInfo> = Vec::new();
    let ghost mut n: int = 0;
    proof {
        assert(all.take(0) =~= Seq::<SessionInfo>::empty());
        assert(all.skip(0) =~= all);
    }
    while rest.len() > 0
        invariant
            0 <= n <= all.len(),
            rest@ == all.skip(n),
            out@ == newest_first(shown(all.take(n), filter)),
        decreases rest.len(),
    {
        let next = rest.remove(0);
        proof {
            assert(next == all[n]);
            assert(rest@ =~= all.skip(n + 1));
            assert(all.take(n + 1).drop_last() =~= all.take(n));
            assert(all.take(n + 1).last() == next);
            let before = shown(all.take(n), filter);
            assert(before.push(next).drop_last() =~= before);
        }
        if filter.matches_opt(next.origin) {
            place(&mut out, next);
        }
        proof {
            n = n + 1;
        }
    }
    proof {
        assert(all.take(n) =~= all);
    }
    out
}

// ---------------------------------------------------------------------------
// The table
// ---------------------------------------------------------------------------

/// A text, or a dash where there is none.
pub open spec fn or_dash(s: Option<Seq<char>>) -> Seq<char> {
    match s {
        Some(s) => s,
        None => "-"@,
    }
}

/// A text, or a dash where there is none.
pub fn or_dash_text(s: &Option<String>) -> (r: String)
    ensures
        r@ == or_dash(opt_view(*s)),
{
    match s {
        Some(s) => s.clone(),
        None => "-".to_owned(),
    }
}

/// The status of a session in the table.
pub fn status_label(status: &Option<String>) -> (r: String)
    ensures
        r@ == or_dash(opt_view(*status)),
{
    or_dash_text(status)
}

/// The agent of a session in the table.
pub open spec fn source_label(source: Option<CliSource>, agents: AgentRegistry) -> Seq<char> {
    match source {
        Some(CliSource::Claude) => agents.claude.name@,
        Some(CliSource::Codex) => "Codex"@,
        Some(CliSource::Copilot) => "Copilot"@,
        Some(CliSource::Gemini) => "Gemini"@,
        Some(CliSource::OpenCode) => "OpenCode"@,
        Some(CliSource::Unknown(s)) => if s@.len() > 0 {
            s@
        } else {
            "-"@
        },
        None => "-"@,
    }
}

/// The agent of a session in the table.
pub fn cli_source_label(source: &Option<CliSource>, agents: &AgentRegistry) -> (r: String)
    ensures
        r@ == source_label(*source, *agents),
{
    match source {
        Some(CliSource::Claude) => agents.claude.name.to_owned(),
        Some(CliSource::Codex) => "Codex".to_owned(),
        Some(CliSource::Copilot) => "Copilot".to_owned(),
        Some(CliSource::Gemini) => "Gemini".to_owned(),
        Some(CliSource::OpenCode) => "OpenCode".to_owned(),
        Some(CliSource::Unknown(s)) => if is_empty_text(s.as_str()) {
            "-".to_owned()
        } else {
            s.clone()
        },
        None => "-".to_owned(),
    }
}

/// Where a session comes from, in the table.
pub open spec fn origin_text(origin: Option<SessionOrigin>) -> Seq<char> {
    match origin {
        Some(SessionOrigin::AgentPane) => "AgentPane"@,
        Some(SessionOrigin::Unknown) => "Shell"@,
        None => "-"@,
    }
}

/// Where a session comes from, in the table.
pub fn origin_label(origin: Option<SessionOrigin>) -> (r: &'static str)
    ensures
        r@ == origin_text(origin),
{
    match origin {
        Some(SessionOrigin::AgentPane) => "AgentPane",
        Some(SessionOrigin::Unknown) => "Shell",
        None => "-",
    }
}

/// Where a session runs, in the table.
pub open spec fn location_text(location: SessionLocation) -> Seq<char> {
    match location {
        SessionLocation::Host => "host"@,
        SessionLocation::Wsl { distro } => "wsl:"@ + distro@,
    }
}

/// Where a session runs, in the table.
pub fn location_label(location: &SessionLocation) -> (r: String)
    ensures
        r@ == location_text(*location),
{
    match location {
        SessionLocation::Host => "host".to_owned(),
        SessionLocation::Wsl { distro } => cat("wsl:", distro.as_str()),
    }
}

/// Whether a text says when a session was last used: as the session says
/// itself, or else when something last happened in it.
pub open spec fn says_updated(s: SessionInfo, text: Seq<char>) -> bool {
    match (s.updated_at, s.last_activity_at_ms) {
        (Some(updated), _) => text == updated@,
        (None, Some(ms)) => text == minute_stamp(ms as int),
        (None, None) => text == "-"@,
    }
}

/// When a session was last used, in the table.
pub fn updated_label(s: &SessionInfo) -> (r: String)
    ensures
        says_updated(*s, r@),
{
    match &s.updated_at {
        Some(updated) => updated.clone(),
        None => match s.last_activity_at_ms {
            Some(ms) => format_epoch_ms_utc(ms),
            None => "-".to_owned(),
        },
    }
}

/// An id that can be cut behind its first 24 bytes, or need not be.
pub open spec fn can_be_cut(id: Seq<char>) -> bool {
    byte_len(id) > 24 ==> byte_len(byte_head(id, 24)) == 24
}

/// A row of the table, given when its session was last used.
pub open spec fn row(i: int, s: SessionInfo, updated: Seq<char>, agents: AgentRegistry) -> Seq<char> {
    padded(decimal((i + 1) as nat), 4) + " "@ + padded(byte_head(s.session_id@, 24), 24) + " "@
        + padded(or_dash(opt_view(s.status)), 10) + " "@ + padded(
        source_label(s.cli_source, agents),
        10,
    )
        + " "@ + padded(origin_text(s.origin), 10) + " "@ + padded(location_text(s.location), 16)
        + " "@ + padded(or_dash(opt_view(s.pane_session_id)), 20) + " "@ + padded(updated, 20)
        + " "@ + or_dash(opt_view(s.title)) + "\n"@
}

/// The head of the table.
pub open spec fn table_head() -> Seq<char> {
    padded("#"@, 4) + " "@ + padded("SESSION"@, 24) + " "@ + padded("STATUS"@, 10) + " "@ + padded(
        "CLI"@,
        10,
    ) + " "@ + padded("ORIGIN"@, 10) + " "@ + padded("LOCATION"@, 16) + " "@ + padded("PANE"@, 20)
        + " "@ + padded("UPDATED"@, 20) + " "@ + "TITLE"@ + "\n"@
}

/// The rows of the table, given when each session was last used.
pub open spec fn rows(v: Seq<SessionInfo>, updated: Seq<Seq<char>>, agents: AgentRegistry) -> Seq<char>
    decreases v.len(),
{
    if v.len() == 0 {
        Seq::empty()
    } else {
        rows(v.drop_last(), updated, agents) + row(
            v.len() - 1,
            v.last(),
            updated[v.len() - 1],
            agents,
        )
    }
}

/// Whether a text is the table of some sessions.
pub open spec fn is_table(text: Seq<char>, v: Seq<SessionInfo>, agents: AgentRegistry) -> bool {
    if v.len() == 0 {
        text == "No sessions.\n"@
    } else {
        exists|updated: Seq<Seq<char>>|
            {
                &&& updated.len() == v.len()
                &&& forall|i: int|
                    0 <= i < v.len() ==> says_updated(#[trigger] v[i], updated[i])
                &&& text == table_head() + #[trigger] rows(v, updated, agents)
            }
    }
}

fn append_column(out: &mut String, text: &str, width: usize)
    ensures
        final(out)@ == old(out)@ + padded(text@, width as nat) + " "@,
{
    out.append(pad_right(text, width).as_str());
    out.append(" ");
}

fn row_text(i: usize, s: &SessionInfo, updated: &str, agents: &AgentRegistry) -> (r: String)
    requires
        i < usize::MAX,
    ensures
        r@ == row(i as int, *s, updated@, *agents),
{
    let mut out = String::new();
    append_column(&mut out, decimal_text((i + 1) as u64).as_str(), 4);
    append_column(&mut out, head_within(s.session_id.as_str(), 24).as_str(), 24);
    append_column(&mut out, status_label(&s.status).as_str(), 10);
    append_column(&mut out, cli_source_label(&s.cli_source, agents).as_str(), 10);
    append_column(&mut out, origin_label(s.origin), 10);
    append_column(&mut out, location_label(&s.location).as_str(), 16);
    append_column(&mut out, or_dash_text(&s.pane_session_id).as_str(), 20);
    append_column(&mut out, updated, 20);
    out.append(or_dash_text(&s.title).as_str());
    out.append("\n");
    proof {
        assert(out@ =~= row(i as int, *s, updated@, *agents));
    }
    out
}

fn head_text() -> (r: String)
    ensures
        r@ == table_head(),
{
    let mut out = String::new();
    append_column(&mut out, "#", 4);
    append_column(&mut out, "SESSION", 24);
    append_column(&mut out, "STATUS", 10);
    append_column(&mut out, "CLI", 10);
    append_column(&mut out, "ORIGIN", 10);
    append_column(&mut out, "LOCATION", 16);
    append_column(&mut out, "PANE", 20);
    append_column(&mut out, "UPDATED", 20);
    out.append("TITLE");
    out.append("\n");
    proof {
        assert(out@ =~= table_head());
    }
    out
}

/// Sessions as a table.
pub fn format_sessions_table(sessions: &Vec<SessionInfo>, agents: &AgentRegistry) -> (r: String)
    requires
        forall|i: int|
            0 <= i < sessions@.len() ==> can_be_cut(#[trigger] sessions@[i].session_id@),
    ensures
        is_table(r@, sessions@, *agents),
{
    if sessions.len() == 0 {
        return "No sessions.\n".to_owned();
    }
    let mut out = head_text();
    let ghost mut updated: Seq<Seq<char>> = Seq::empty();
    let mut i: usize = 0;
    proof {
        assert(sessions@.take(0) =~= Seq::<SessionInfo>::empty());
        assert(table_head() + Seq::<char>::empty() =~= table_head());
    }
    while i < sessions.len()
        invariant
            i <= sessions@.len(),
            updated.len() == i,
            forall|k: int| 0 <= k < i ==> says_updated(#[trigger] sessions@[k], updated[k]),
            out@ == table_head() + rows(sessions@.take(i as int), updated, *agents),
        decreases sessions.len() - i,
    {
        let ghost before = out@;
        let label = updated_label(&sessions[i]);
        let text = row_text(i, &sessions[i], label.as_str(), agents);
        out.append(text.as_str());
        proof {
            let more = updated.push(label@);
            let v = sessions@.take(i as int);
            lemma_rows_same(v, updated, more, *agents);
            assert(sessions@.take(i + 1).drop_last() =~= v);
            assert(sessions@.take(i + 1).last() == sessions@[i as int]);
            assert(out@ =~= table_head() + rows(sessions@.take(i + 1), more, *agents));
            updated = more;
        }
        i += 1;
    }
    proof {
        assert(sessions@.take(i as int) =~= sessions@);
    }
    out
}

proof fn lemma_rows_same(v: Seq<SessionInfo>, a: Seq<Seq<char>>, b: Seq<Seq<char>>, agents: AgentRegistry)
    requires
        v.len() <= a.len(),
        v.len() <= b.len(),
        forall|i: int| 0 <= i < v.len() ==> a[i] == b[i],
    ensures
        rows(v, a, agents) == rows(v, b, agents),
    decreases v.len(),
{
    if v.len() > 0 {
        lemma_rows_same(v.drop_last(), a, b, agents);
    }
}

// ---------------------------------------------------------------------------
// Laws
// ---------------------------------------------------------------------------

/// Whether sessions stand in order, the newest first.
pub open spec fn is_newest_first(v: Seq<SessionInfo>) -> bool {
    forall|i: int, j: int|
        0 <= i <= j < v.len() ==> activity(#[trigger] v[i]) >= activity(#[trigger] v[j])
}

proof fn lemma_placed(v: Seq<SessionInfo>, s: SessionInfo)
    requires
        is_newest_first(v),
    ensures
        is_newest_first(placed(v, s)),
        placed(v, s).to_multiset() == v.to_multiset().insert(s),
        placed(v, s).len() == v.len() + 1,
        forall|i: int|
            0 <= i < placed(v, s).len() ==> (#[trigger] placed(v, s)[i]) == s || v.contains(
                placed(v, s)[i],
            ),
    decreases v.len(),
{
    broadcast use vstd::seq_lib::group_to_multiset_ensures;

    let out = placed(v, s);
    if v.len() == 0 {
        assert(out =~= v.push(s));
    } else if activity(v[0]) < activity(s) {
        assert(out.skip(1) =~= v);
        assert(out =~= v.insert(0, s));
        vstd::seq_lib::to_multiset_insert(v, 0, s);
        assert forall|i: int| 0 <= i < out.len() implies (#[trigger] out[i]) == s || v.contains(
            out[i],
        ) by {
            if i > 0 {
                assert(out[i] == v[i - 1]);
            }
        }
    } else {
        let rest = v.skip(1);
        let more = placed(rest, s);
        assert(is_newest_first(rest)) by {
            assert forall|i: int, j: int| 0 <= i <= j < rest.len() implies activity(
                #[trigger] rest[i],
            ) >= activity(#[trigger] rest[j]) by {
                assert(rest[i] == v[i + 1] && rest[j] == v[j + 1]);
            }
        }
        lemma_placed(rest, s);
        assert(out =~= more.insert(0, v[0]));
        vstd::seq_lib::to_multiset_insert(more, 0, v[0]);
        assert(v =~= rest.insert(0, v[0]));
        vstd::seq_lib::to_multiset_insert(rest, 0, v[0]);
        assert(out.to_multiset() =~= v.to_multiset().insert(s));
        assert forall|i: int| 0 <= i < out.len() implies (#[trigger] out[i]) == s || v.contains(
            out[i],
        ) by {
            if i == 0 {
                assert(v[0] == out[0]);
            } else {
                assert(out[i] == more[i - 1]);
                if more[i - 1] != s {
                    let k = choose|k: int| 0 <= k < rest.len() && rest[k] == more[i - 1];
                    assert(v[k + 1] == out[i]);
                }
            }
        }
        assert forall|i: int, j: int| 0 <= i <= j < out.len() implies activity(#[trigger] out[i])
            >= activity(#[trigger] out[j]) by {
            if i == 0 {
                if j > 0 {
                    assert(out[j] == more[j - 1]);
                    if more[j - 1] != s {
                        let k = choose|k: int| 0 <= k < rest.len() && rest[k] == more[j - 1];
                        assert(v[k + 1] == out[j]);
                    }
                }
            } else {
                assert(out[i] == more[i - 1] && out[j] == more[j - 1]);
            }
        }
    }
}

/// The sessions are the same ones, the newest first.
pub proof fn law_the_newest_come_first(v: Seq<SessionInfo>)
    ensures
        is_newest_first(newest_first(v)),
        newest_first(v).to_multiset() == v.to_multiset(),
    decreases v.len(),
{
    broadcast use vstd::seq_lib::group_to_multiset_ensures;

    if v.len() > 0 {
        law_the_newest_come_first(v.drop_last());
        lemma_placed(newest_first(v.drop_last()), v.last());
        assert(v =~= v.drop_last().push(v.last()));
    } else {
        assert(v =~= Seq::<SessionInfo>::empty());
    }
}

/// The sessions in which something last happened at a time.
pub open spec fn of_time(v: Seq<SessionInfo>, time: int) -> Seq<SessionInfo>
    decreases v.len(),
{
    if v.len() == 0 {
        Seq::empty()
    } else if activity(v[0]) == time {
        seq![v[0]] + of_time(v.skip(1), time)
    } else {
        of_time(v.skip(1), time)
    }
}

proof fn lemma_of_time_push(v: Seq<SessionInfo>, s: SessionInfo, time: int)
    ensures
        of_time(v.push(s), time) == (if activity(s) == time {
            of_time(v, time).push(s)
        } else {
            of_time(v, time)
        }),
    decreases v.len(),
{
    if v.len() == 0 {
        reveal_with_fuel(of_time, 2);
        assert(v.push(s).skip(1) =~= Seq::<SessionInfo>::empty());
        assert(of_time(v.push(s), time) =~= (if activity(s) == time {
            of_time(v, time).push(s)
        } else {
            of_time(v, time)
        }));
    } else {
        assert(v.push(s).skip(1) =~= v.skip(1).push(s));
        lemma_of_time_push(v.skip(1), s, time);
        assert(of_time(v.push(s), time) =~= (if activity(s) == time {
            of_time(v, time).push(s)
        } else {
            of_time(v, time)
        }));
    }
}

proof fn lemma_none_of_time(v: Seq<SessionInfo>, time: int)
    requires
        forall|i: int| 0 <= i < v.len() ==> activity(#[trigger] v[i]) != time,
    ensures
        of_time(v, time) == Seq::<SessionInfo>::empty(),
    decreases v.len(),
{
    if v.len() > 0 {
        assert(activity(v[0]) != time);
        assert forall|i: int| 0 <= i < v.skip(1).len() implies activity(#[trigger] v.skip(1)[i])
            != time by {
            assert(v.skip(1)[i] == v[i + 1]);
        }
        lemma_none_of_time(v.skip(1), time);
    }
}

proof fn lemma_of_time_placed(v: Seq<SessionInfo>, s: SessionInfo, time: int)
    requires
        is_newest_first(v),
    ensures
        of_time(placed(v, s), time) == of_time(v.push(s), time),
    decreases v.len(),
{
    lemma_of_time_push(v, s, time);
    if v.len() == 0 {
        assert(placed(v, s) =~= v.push(s));
    } else if activity(v[0]) < activity(s) {
        assert(placed(v, s).skip(1) =~= v);
        if activity(s) == time {
            assert forall|i: int| 0 <= i < v.len() implies activity(#[trigger] v[i]) != time by {
                assert(activity(v[0]) >= activity(v[i]));
            }
            lemma_none_of_time(v, time);
            assert(of_time(placed(v, s), time) =~= of_time(v, time).push(s));
        }
    } else {
        let rest = v.skip(1);
        assert forall|i: int, j: int| 0 <= i <= j < rest.len() implies activity(
            #[trigger] rest[i],
        ) >= activity(#[trigger] rest[j]) by {
            assert(rest[i] == v[i + 1] && rest[j] == v[j + 1]);
        }
        lemma_of_time_placed(rest, s, time);
        lemma_of_time_push(rest, s, time);
        assert(placed(v, s).skip(1) =~= placed(rest, s));
        assert(of_time(placed(v, s), time) =~= of_time(v.push(s), time));
    }
}

/// Sessions that are as new keep their order.
pub proof fn law_ties_keep_their_order(v: Seq<SessionInfo>, time: int)
    ensures
        of_time(newest_first(v), time) == of_time(v, time),
    decreases v.len(),
{
    if v.len() > 0 {
        let rest = v.drop_last();
        law_ties_keep_their_order(rest, time);
        law_the_newest_come_first(rest);
        lemma_of_time_placed(newest_first(rest), v.last(), time);
        lemma_of_time_push(newest_first(rest), v.last(), time);
        lemma_of_time_push(rest, v.last(), time);
        assert(v =~= rest.push(v.last()));
    }
}

/// Where no session is left out, all of them are listed.
pub proof fn law_all_shows_all(v: Seq<SessionInfo>)
    ensures
        shown(v, OriginFilter::All) == v,
    decreases v.len(),
{
    if v.len() > 0 {
        law_all_shows_all(v.drop_last());
        assert(v.drop_last().push(v.last()) =~= v);
    } else {
        assert(v =~= Seq::<SessionInfo>::empty());
    }
}

/// A list shows the sessions of the kind that was asked for, and of no other.
pub proof fn law_a_filter_shows_its_kind(origin: Option<SessionOrigin>)
    ensures
        SessionsOriginArg::All.filter().shows(origin),
        SessionsOriginArg::AgentPane.filter().shows(origin) <==> origin == Some(
            SessionOrigin::AgentPane,
        ),
        SessionsOriginArg::Shell.filter().shows(origin) <==> origin != Some(
            SessionOrigin::AgentPane,
        ),
{
}

/// A session is in the list exactly where the list shows its kind.
pub proof fn law_what_is_shown_is_of_the_kind(v: Seq<SessionInfo>, filter: OriginFilter, s: SessionInfo)
    ensures
        shown(v, filter).contains(s) <==> v.contains(s) && filter.shows(s.origin),
    decreases v.len(),
{
    if v.len() > 0 {
        let rest = v.drop_last();
        law_what_is_shown_is_of_the_kind(rest, filter, s);
        let before = shown(rest, filter);
        let all = shown(v, filter);
        if v.contains(s) {
            let k = choose|k: int| 0 <= k < v.len() && v[k] == s;
            if k < rest.len() {
                assert(rest[k] == s);
            }
        }
        if rest.contains(s) {
            let k = choose|k: int| 0 <= k < rest.len() && rest[k] == s;
            assert(v[k] == s);
        }
        if before.contains(s) {
            let k = choose|k: int| 0 <= k < before.len() && before[k] == s;
            assert(all[k] == s);
        }
        if all.contains(s) {
            let k = choose|k: int| 0 <= k < all.len() && all[k] == s;
            if k < before.len() {
                assert(before[k] == s);
            } else {
                assert(v[v.len() - 1] == s);
            }
        }
        if filter.shows(v.last().origin) && s == v.last() {
            assert(all[all.len() - 1] == s);
        }
    }
}

/// A session is told by whose it is and where it runs; what is not known is a dash.
pub proof fn law_labels_say_whose_and_where(agents: AgentRegistry, other: String, distro: String)
    ensures
        source_label(Some(CliSource::Copilot), agents) == "Copilot"@,
        source_label(Some(CliSource::Claude), agents) == agents.claude.name@,
        source_label(Some(CliSource::Codex), agents) == "Codex"@,
        source_label(Some(CliSource::Gemini), agents) == "Gemini"@,
        source_label(Some(CliSource::OpenCode), agents) == "OpenCode"@,
        other@.len() > 0 ==> source_label(Some(CliSource::Unknown(other)), agents) == other@,
        source_label(None, agents) == "-"@,
        origin_text(Some(SessionOrigin::AgentPane)) == "AgentPane"@,
        origin_text(Some(SessionOrigin::Unknown)) == "Shell"@,
        origin_text(None) == "-"@,
        location_text(SessionLocation::Host) == "host"@,
        location_text(SessionLocation::Wsl { distro }) == "wsl:"@ + distro@,
{
}

/// A row begins with its number, counted from one, and ends with the title.
pub proof fn law_a_row_begins_with_its_number(
    i: int,
    s: SessionInfo,
    updated: Seq<char>,
    agents: AgentRegistry,
)
    requires
        i >= 0,
    ensures
        ({
            let line = row(i, s, updated, agents);
            let title = if s.title is Some { s.title->0@ } else { "-"@ };
            &&& decimal((i + 1) as nat).is_prefix_of(line)
            &&& (" "@ + title + "\n"@).is_suffix_of(line)
        }),
{
    let number = padded(decimal((i + 1) as nat), 4);
    let title = if s.title is Some { s.title->0@ } else { "-"@ };
    let p1 = number + " "@ + padded(byte_head(s.session_id@, 24), 24);
    let p2 = p1 + " "@ + padded(or_dash(opt_view(s.status)), 10);
    let p3 = p2 + " "@ + padded(source_label(s.cli_source, agents), 10);
    let p4 = p3 + " "@ + padded(origin_text(s.origin), 10);
    let p5 = p4 + " "@ + padded(location_text(s.location), 16);
    let p6 = p5 + " "@ + padded(or_dash(opt_view(s.pane_session_id)), 20);
    let p7 = p6 + " "@ + padded(updated, 20);
    assert(row(i, s, updated, agents) == p7 + " "@ + title + "\n"@);
    law_padding_adds_blanks(decimal((i + 1) as nat), 4);
    let n = decimal((i + 1) as nat);
    assert(n.is_prefix_of(number));
    lemma_prefix_stays(n, number, " "@, padded(byte_head(s.session_id@, 24), 24));
    lemma_prefix_stays(n, p1, " "@, padded(or_dash(opt_view(s.status)), 10));
    lemma_prefix_stays(n, p2, " "@, padded(source_label(s.cli_source, agents), 10));
    lemma_prefix_stays(n, p3, " "@, padded(origin_text(s.origin), 10));
    lemma_prefix_stays(n, p4, " "@, padded(location_text(s.location), 16));
    lemma_prefix_stays(n, p5, " "@, padded(or_dash(opt_view(s.pane_session_id)), 20));
    lemma_prefix_stays(n, p6, " "@, padded(updated, 20));
    lemma_prefix_stays(n, p7, " "@, title);
    lemma_prefix_stays(n, p7 + " "@ + title, "\n"@, Seq::empty());
    assert(p7 + " "@ + title + "\n"@ + Seq::<char>::empty() =~= p7 + " "@ + title + "\n"@);
    lemma_suffix(p7, " "@, title, "\n"@);
}

proof fn lemma_prefix_stays(head: Seq<char>, text: Seq<char>, a: Seq<char>, b: Seq<char>)
    requires
        head.is_prefix_of(text),
    ensures
        head.is_prefix_of(text + a + b),
{
    let all = text + a + b;
    assert(all.subrange(0, head.len() as int) =~= text.subrange(0, head.len() as int));
}

proof fn lemma_suffix(text: Seq<char>, a: Seq<char>, b: Seq<char>, c: Seq<char>)
    ensures
        (a + b + c).is_suffix_of(text + a + b + c),
{
    let all = text + a + b + c;
    let end = a + b + c;
    assert(all.subrange(all.len() - end.len(), all.len() as int) =~= end);
}

/// A table has a row for every session, in their order, below its heading.
pub proof fn law_a_table_goes_on_below(
    v: Seq<SessionInfo>,
    s: SessionInfo,
    updated: Seq<Seq<char>>,
    agents: AgentRegistry,
)
    requires
        updated.len() == v.len() + 1,
    ensures
        rows(Seq::empty(), updated, agents).len() == 0,
        rows(v.push(s), updated, agents) == rows(v, updated, agents) + row(
            v.len() as int,
            s,
            updated.last(),
            agents,
        ),
{
    assert(v.push(s).drop_last() =~= v);
}

/// A session says when it was last heard of: as it was told, else by the clock, and
/// else a dash.
pub proof fn law_a_session_says_when_it_was_heard_of(s: SessionInfo, text: Seq<char>)
    requires
        says_updated(s, text),
    ensures
        s.updated_at is Some ==> text == s.updated_at->0@,
        s.updated_at is None && s.last_activity_at_ms is Some ==> text == minute_stamp(
            s.last_activity_at_ms->0 as int,
        ),
        s.updated_at is None && s.last_activity_at_ms is None ==> text == "-"@,
{
}

/// A table without sessions says so, and any other begins with its heading.
pub proof fn law_a_table_begins_with_its_heading(
    text: Seq<char>,
    v: Seq<SessionInfo>,
    agents: AgentRegistry,
)
    requires
        is_table(text, v, agents),
    ensures
        v.len() == 0 ==> text == "No sessions.\n"@,
        v.len() > 0 ==> (padded("#"@, 4) + " "@ + padded("SESSION"@, 24) + " "@ + padded(
            "STATUS"@,
            10,
        ) + " "@ + padded("CLI"@, 10) + " "@ + padded("ORIGIN"@, 10) + " "@ + padded(
            "LOCATION"@,
            16,
        ) + " "@ + padded("PANE"@, 20) + " "@ + padded("UPDATED"@, 20) + " "@ + "TITLE"@
            + "\n"@).is_prefix_of(text),
{
    if v.len() > 0 {
        let updated = choose|updated: Seq<Seq<char>>|
            {
                &&& updated.len() == v.len()
                &&& forall|i: int| 0 <= i < v.len() ==> says_updated(#[trigger] v[i], updated[i])
                &&& text == table_head() + #[trigger] rows(v, updated, agents)
            };
        assert(text == table_head() + rows(v, updated, agents));
        assert(table_head().is_prefix_of(text));
    }
}

} // verus!
