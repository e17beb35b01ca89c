//! How the status of a tool call looks.

use vstd::prelude::*;
use vstd::string::*;

use crate::chat::line::Style;
use crate::text::{
    begins_ignore_case, chars_of, find_char, lower, lower_char, same_ignore_case,
    starts_with_ignore_ascii_case, string_of, trim, trimmed,
};

verus! {

/// Frames of one cycle of the activity animation.
pub const ACTIVITY_CYCLE_FRAMES: usize = 18;

/// The mark of a tool call's status.
#[derive(Clone, Copy, Debug, PartialEq, Eq, Structural)]
pub enum Marker {
    /// `○`
    Hollow,
    /// `●`
    Full,
    /// `✓`
    Check,
    /// `✗`
    Cross,
    /// `−`
    Minus,
    /// `•`
    Bullet,
    /// `·`
    Dot,
}

impl Marker {
    /// The mark as text.
    pub open spec fn shown(self) -> Seq<char> {
        match self {
            Marker::Hollow => "○"@,
            Marker::Full => "●"@,
            Marker::Check => "✓"@,
            Marker::Cross => "✗"@,
            Marker::Minus => "−"@,
            Marker::Bullet => "•"@,
            Marker::Dot => "·"@,
        }
    }

    /// The mark as text.
    pub fn as_str(self) -> (r: &'static str)
        ensures
            r@ == self.shown(),
    {
        match self {
            Marker::Hollow => "○",
            Marker::Full => "●",
            Marker::Check => "✓",
            Marker::Cross => "✗",
            Marker::Minus => "−",
            Marker::Bullet => "•",
            Marker::Dot => "·",
        }
    }
}

/// Whether a status is `name`, ASCII case ignored.
pub open spec fn status_is(status: Seq<char>, name: Seq<char>) -> bool {
    lower(status) == lower(name)
}

/// The mark, the style and the detail of a status.
pub open spec fn presented(status: Seq<char>) -> (Marker, Style, Option<Seq<char>>) {
    if status_is(status, "pending"@) {
        (Marker::Hollow, Style::ToolCallPending, None)
    } else if status_is(status, "inprogress"@) || status_is(status, "running"@) {
        (Marker::Full, Style::ToolCallRunning, None)
    } else if status_is(status, "completed"@) || status_is(status, "exited (0)"@) {
        (Marker::Check, Style::ToolCallSuccess, None)
    } else if status_is(status, "failed"@) {
        (Marker::Cross, Style::ToolCallFailure, None)
    } else if status.contains(':') {
        let at = status.index_of_first(':')->0;
        if status_is(status.take(at), "failed"@) {
            (Marker::Cross, Style::ToolCallFailure, Some(trimmed(status.skip(at + 1))))
        } else {
            (Marker::Bullet, Style::Dim, Some(status))
        }
    } else if begins_ignore_case(status, "exited ("@) {
        (Marker::Cross, Style::ToolCallFailure, Some(status))
    } else if status_is(status, "cancelled"@) || status_is(status, "canceled"@) {
        (Marker::Minus, Style::ToolCallCanceled, None)
    } else {
        (Marker::Bullet, Style::Dim, Some(status))
    }
}

/// How a tool call's status is presented: its mark, the mark's style, and the
/// words that go with it.
pub fn tool_call_presentation(status: &str) -> (r: (Marker, Style, Option<String>))
    ensures
        r.0 == presented(status@).0,
        r.1 == presented(status@).1,
        crate::text::opt_view(r.2) == presented(status@).2,
{
    if same_ignore_case(status, "pending") {
        return (Marker::Hollow, Style::ToolCallPending, None);
    }
    if same_ignore_case(status, "inprogress") || same_ignore_case(status, "running") {
        return (Marker::Full, Style::ToolCallRunning, None);
    }
    if same_ignore_case(status, "completed") || same_ignore_case(status, "exited (0)") {
        return (Marker::Check, Style::ToolCallSuccess, None);
    }
    if same_ignore_case(status, "failed") {
        return (Marker::Cross, Style::ToolCallFailure, None);
    }
    let v = chars_of(status);
    if let Some(at) = find_char(&v, ':') {
        proof {
            assert(v@.subrange(0, at as int) =~= status@.take(at as int));
            assert(v@.subrange(at + 1, v@.len() as int) =~= status@.skip(at + 1));
        }
        let kind = string_of(&v, 0, at);
        if same_ignore_case(kind.as_str(), "failed") {
            let reason = string_of(&v, at + 1, v.len());
            return (Marker::Cross, Style::ToolCallFailure, Some(trim(reason.as_str())));
        }
        return (Marker::Bullet, Style::Dim, Some(status.to_owned()));
    }
    if starts_with_ignore_ascii_case(status, "exited (") {
        return (Marker::Cross, Style::ToolCallFailure, Some(status.to_owned()));
    }
    if same_ignore_case(status, "cancelled") || same_ignore_case(status, "canceled") {
        return (Marker::Minus, Style::ToolCallCanceled, None);
    }
    (Marker::Bullet, Style::Dim, Some(status.to_owned()))
}

/// Whether a tool call with this status is still going on.
pub open spec fn active_status(status: Seq<char>) -> bool {
    ||| status_is(status, "pending"@)
    ||| status_is(status, "inprogress"@)
    ||| status_is(status, "running"@)
}

/// Whether a tool call with this status is still going on.
pub fn is_active_tool_call_status(status: &str) -> (r: bool)
    ensures
        r == active_status(status@),
{
    same_ignore_case(status, "pending") || same_ignore_case(status, "inprogress")
        || same_ignore_case(status, "running")
}

/// The dot of the breathing animation: it shrinks, then grows again.
pub open spec fn breath(frame: nat) -> Marker {
    let phase = frame % (ACTIVITY_CYCLE_FRAMES as nat);
    if phase <= 4 {
        Marker::Full
    } else if phase <= 8 {
        Marker::Bullet
    } else if phase <= 13 {
        Marker::Dot
    } else {
        Marker::Bullet
    }
}

/// The dot that an active tool call shows in a frame of the animation.
pub fn breathing_dot(frame: usize) -> (r: Marker)
    ensures
        r == breath(frame as nat),
{
    let phase: usize = frame % ACTIVITY_CYCLE_FRAMES;
    if phase <= 4 {
        Marker::Full
    } else if phase <= 8 {
        Marker::Bullet
    } else if phase <= 13 {
        Marker::Dot
    } else {
        Marker::Bullet
    }
}

/// The breathing repeats with every cycle of the animation.
pub proof fn law_breathing_repeats(frame: nat)
    ensures
        breath(frame + ACTIVITY_CYCLE_FRAMES as nat) == breath(frame),
{
    vstd::arithmetic::div_mod::lemma_mod_add_multiples_vanish(frame as int, ACTIVITY_CYCLE_FRAMES as int);
}

/// Two statuses that differ in ASCII case alone get the same mark and style,
/// and are active together.
pub proof fn law_status_case_is_ignored(a: Seq<char>, b: Seq<char>)
    requires
        lower(a) == lower(b),
    ensures
        presented(a).0 == presented(b).0,
        presented(a).1 == presented(b).1,
        active_status(a) == active_status(b),
{
    assert(a.len() == b.len()) by {
        assert(lower(a).len() == a.len());
        assert(lower(b).len() == b.len());
    }
    assert forall|i: int| 0 <= i < a.len() implies (a[i] == ':') == (b[i] == ':') by {
        assert(lower(a)[i] == crate::text::lower_char(a[i]));
        assert(lower(b)[i] == crate::text::lower_char(b[i]));
    }
    assert(a.contains(':') == b.contains(':')) by {
        if a.contains(':') {
            let k = choose|k: int| 0 <= k < a.len() && a[k] == ':';
            assert(b[k] == ':');
        }
        if b.contains(':') {
            let k = choose|k: int| 0 <= k < b.len() && b[k] == ':';
            assert(a[k] == ':');
        }
    }
    if a.contains(':') {
        a.index_of_first_ensures(':');
        b.index_of_first_ensures(':');
        let i = a.index_of_first(':')->0;
        let j = b.index_of_first(':')->0;
        assert(b[i] == ':');
        assert(a[j] == ':');
        assert(i == j);
        assert(lower(a.take(i)) =~= lower(a).take(i));
        assert(lower(b.take(i)) =~= lower(b).take(i));
    }
    let p = "exited ("@;
    if a.len() >= p.len() {
        assert(lower(a.take(p.len() as int)) =~= lower(a).take(p.len() as int));
        assert(lower(b.take(p.len() as int)) =~= lower(b).take(p.len() as int));
    }
}

// ---------------------------------------------------------------------------
// Laws
// ---------------------------------------------------------------------------

proof fn lemma_kept(name: Seq<char>)
    requires
        forall|i: int| 0 <= i < name.len() ==> !('A' <= #[trigger] name[i] <= 'Z'),
    ensures
        lower(name) == name,
{
    assert(lower(name) =~= name);
}

proof fn lemma_status_names()
    ensures
        lower("pending"@) == "pending"@ && "pending"@.len() == 7 && "pending"@[0] == 'p',
        lower("running"@) == "running"@ && "running"@.len() == 7 && "running"@[0] == 'r',
        lower("inprogress"@) == "inprogress"@ && "inprogress"@.len() == 10 && "inprogress"@[0] == 'i',
        lower("exited (0)"@) == "exited (0)"@ && "exited (0)"@.len() == 10 && "exited (0)"@[0]
            == 'e',
        lower("completed"@) == "completed"@ && "completed"@.len() == 9 && "completed"@[1] == 'o',
        lower("cancelled"@) == "cancelled"@ && "cancelled"@.len() == 9 && "cancelled"@[1] == 'a'
            && "cancelled"@[0] == 'c',
        lower("canceled"@) == "canceled"@ && "canceled"@.len() == 8 && "canceled"@[0] == 'c',
        lower("failed"@) == "failed"@ && "failed"@.len() == 6,
        forall|i: int| 0 <= i < 9 ==> #[trigger] "cancelled"@[i] != ':',
        forall|i: int| 0 <= i < 8 ==> #[trigger] "canceled"@[i] != ':',
{
    reveal_strlit("pending");
    reveal_strlit("running");
    reveal_strlit("inprogress");
    reveal_strlit("exited (0)");
    reveal_strlit("completed");
    reveal_strlit("cancelled");
    reveal_strlit("canceled");
    reveal_strlit("failed");
    lemma_kept("pending"@);
    lemma_kept("running"@);
    lemma_kept("inprogress"@);
    lemma_kept("exited (0)"@);
    lemma_kept("completed"@);
    lemma_kept("cancelled"@);
    lemma_kept("canceled"@);
    lemma_kept("failed"@);
}

/// Each status of a tool call has its own mark and colour: what runs is not taken
/// for what is done, nor what failed for what went well.
pub proof fn law_each_status_has_its_mark(status: Seq<char>)
    ensures
        lower(status) == "pending"@ ==> presented(status) == (
            Marker::Hollow,
            Style::ToolCallPending,
            None::<Seq<char>>,
        ),
        lower(status) == "running"@ || lower(status) == "inprogress"@ ==> presented(status) == (
            Marker::Full,
            Style::ToolCallRunning,
            None::<Seq<char>>,
        ),
        lower(status) == "completed"@ || lower(status) == "exited (0)"@ ==> presented(status) == (
            Marker::Check,
            Style::ToolCallSuccess,
            None::<Seq<char>>,
        ),
        lower(status) == "failed"@ ==> presented(status) == (
            Marker::Cross,
            Style::ToolCallFailure,
            None::<Seq<char>>,
        ),
        active_status(status) <==> lower(status) == "pending"@ || lower(status) == "running"@
            || lower(status) == "inprogress"@,
{
    lemma_status_names();
}

/// A call that was cancelled is neither done nor failed.
pub proof fn law_a_cancelled_call_is_marked_so(status: Seq<char>)
    requires
        lower(status) == "cancelled"@ || lower(status) == "canceled"@,
    ensures
        presented(status) == (Marker::Minus, Style::ToolCallCanceled, None::<Seq<char>>),
        !active_status(status),
{
    lemma_status_names();
    reveal_strlit("exited (");
    assert forall|i: int| 0 <= i < status.len() implies #[trigger] status[i] != ':' by {
        assert(lower(status)[i] == lower_char(status[i]));
    }
    assert(lower_char(status[0]) == lower(status)[0]);
    assert("exited ("@[0] == 'e');
    if begins_ignore_case(status, "exited ("@) {
        assert(lower(status.take(8))[0] == lower(status)[0]);
        assert(lower("exited ("@)[0] == 'e');
    }
}

/// A failure that gives its reason shows it, and a status that nobody knows is shown
/// as it stands.
pub proof fn law_a_failure_shows_its_reason(word: Seq<char>, reason: Seq<char>)
    requires
        lower(word) == "failed"@,
    ensures
        presented(word + ":"@ + reason) == (
            Marker::Cross,
            Style::ToolCallFailure,
            Some(trimmed(reason)),
        ),
{
    lemma_status_names();
    reveal_strlit(":");
    reveal_strlit("failed");
    let status = word + ":"@ + reason;
    assert(word.len() == 6) by {
        assert(lower(word).len() == word.len());
    }
    assert(status[6] == ':');
    assert(status.contains(':'));
    assert(lower(status)[6] == ':');
    assert(lower(status)[0] == 'f') by {
        assert(lower(word)[0] == lower_char(word[0]));
        assert("failed"@[0] == 'f');
    }
    assert("pending"@[0] == 'p' && "running"@[0] == 'r' && "inprogress"@[0] == 'i'
        && "exited (0)"@[0] == 'e');
    reveal_strlit("completed");
    assert("completed"@[0] == 'c');
    assert(lower(status).len() == status.len() && status.len() >= 7);
    status.index_of_first_ensures(':');
    let at = status.index_of_first(':')->0;
    assert forall|i: int| 0 <= i < 6 implies #[trigger] word[i] != ':' by {
        assert(lower(word)[i] == lower_char(word[i]));
    }
    assert(at == 6) by {
        if at < 6 {
            assert(word[at] == status[at]);
        }
        if at > 6 {
            assert(status[6] == ':');
        }
    }
    assert(status.take(6) =~= word);
    assert(status.skip(7) =~= reason);
}

} // verus!
