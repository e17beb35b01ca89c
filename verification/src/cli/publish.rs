//! Publishing events to the terminal, one after another.

use vstd::prelude::*;
use vstd::string::*;

use crate::text::{opt_view, same, views};
use crate::transcript::copy_text;

verus! {

// ---------------------------------------------------------------------------
// The queue
// ---------------------------------------------------------------------------

/// Events that wait to be published.
pub struct PublishQueue {
    waiting: Vec<String>,
}

impl View for PublishQueue {
    type V = Seq<Seq<char>>;

    closed spec fn view(&self) -> Seq<Seq<char>> {
        views(self.waiting@)
    }
}

impl PublishQueue {
    /// A queue in which nothing waits.
    pub fn new() -> (r: PublishQueue)
        ensures
            r@ == Seq::<Seq<char>>::empty(),
    {
        let r = PublishQueue { waiting: Vec::new() };
        proof {
            assert(r@ =~= Seq::<Seq<char>>::empty());
        }
        r
    }

    /// The event that has waited longest, taken from the queue.
    pub fn next(&mut self) -> (r: Option<String>)
        ensures
            match r {
                Some(payload) => old(self)@.len() > 0 && payload@ == old(self)@[0] && final(self)@
                    == old(self)@.skip(1),
                None => old(self)@.len() == 0 && final(self)@ == old(self)@,
            },
    {
        if self.waiting.len() == 0 {
            return None;
        }
        let ghost before = self.waiting@;
        let payload = self.waiting.remove(0);
        proof {
            assert(views(self.waiting@) =~= views(before).skip(1));
        }
        Some(payload)
    }

    fn add(&mut self, payload: String)
        ensures
            final(self)@ == old(self)@.push(payload@),
    {
        let ghost before = self.waiting@;
        self.waiting.push(payload);
        proof {
            assert(views(self.waiting@) =~= views(before).push(payload@));
        }
    }
}

/// Puts an event behind those that wait.
pub fn send(queue: &mut PublishQueue, json_payload: String)
    ensures
        final(queue)@ == old(queue)@.push(json_payload@),
{
    queue.add(json_payload);
}

/// The queue after events were put in one after another.
pub open spec fn sent(queue: Seq<Seq<char>>, payloads: Seq<Seq<char>>) -> Seq<Seq<char>>
    decreases payloads.len(),
{
    if payloads.len() == 0 {
        queue
    } else {
        sent(queue, payloads.drop_last()).push(payloads.last())
    }
}

/// Events are published in the order in which they were sent: what is sent comes
/// behind what waits, each behind the one before it.
pub proof fn law_events_keep_their_order(queue: Seq<Seq<char>>, payloads: Seq<Seq<char>>)
    ensures
        sent(queue, payloads) == queue + payloads,
    decreases payloads.len(),
{
    if payloads.len() > 0 {
        law_events_keep_their_order(queue, payloads.drop_last());
        assert(sent(queue, payloads) =~= queue + payloads);
    } else {
        assert(queue + payloads =~= queue);
    }
}

// ---------------------------------------------------------------------------
// The command
// ---------------------------------------------------------------------------

/// The arguments of the command that publishes what it reads.
pub open spec fn publish_arguments() -> Seq<Seq<char>> {
    seq!["publish"@, "--stdin"@]
}

/// The arguments of the command that publishes what it reads.
pub fn publish_command() -> (r: Vec<String>)
    ensures
        views(r@) == publish_arguments(),
{
    let mut args: Vec<String> = Vec::new();
    args.push("publish".to_owned());
    args.push("--stdin".to_owned());
    proof {
        assert(views(args@) =~= publish_arguments());
    }
    args
}

/// What publishing an event came to.
#[derive(Clone, Copy, Debug, PartialEq, Eq, Structural)]
pub enum PublishOutcome {
    Published,
    /// The command ended with a failure.
    Refused,
    NotStarted,
    NoInput,
    NotWritten,
    NotAwaited,
}

/// What is noted of it, where it failed.
pub open spec fn warning_of(outcome: PublishOutcome) -> Option<Seq<char>> {
    match outcome {
        PublishOutcome::Published => None,
        PublishOutcome::Refused => Some("wtcli publish failed"@),
        PublishOutcome::NotStarted => Some("failed to start wtcli publish"@),
        PublishOutcome::NoInput => Some("wtcli publish stdin was not piped"@),
        PublishOutcome::NotWritten => Some("failed writing wtcli publish payload"@),
        PublishOutcome::NotAwaited => Some("failed waiting for wtcli publish"@),
    }
}

/// What is noted of it, where it failed.
pub fn publish_warning(outcome: PublishOutcome) -> (r: Option<&'static str>)
    ensures
        match r {
            Some(s) => warning_of(outcome) == Some(s@),
            None => warning_of(outcome) is None,
        },
{
    match outcome {
        PublishOutcome::Published => None,
        PublishOutcome::Refused => Some("wtcli publish failed"),
        PublishOutcome::NotStarted => Some("failed to start wtcli publish"),
        PublishOutcome::NoInput => Some("wtcli publish stdin was not piped"),
        PublishOutcome::NotWritten => Some("failed writing wtcli publish payload"),
        PublishOutcome::NotAwaited => Some("failed waiting for wtcli publish"),
    }
}

// ---------------------------------------------------------------------------
// The method of an event
// ---------------------------------------------------------------------------

/// A member of a JSON object: its key, and its value where that is a text.
pub struct ReadMember {
    pub key: String,
    pub text: Option<String>,
}

/// Members of a JSON object, mathematically.
pub open spec fn read_members_view(v: Seq<ReadMember>) -> Seq<(Seq<char>, Option<Seq<char>>)> {
    v.map_values(|m: ReadMember| (m.key@, opt_view(m.text)))
}

/// Members of a JSON object, where there is one, mathematically.
pub open spec fn opt_members_view(v: Option<Vec<ReadMember>>) -> Option<
    Seq<(Seq<char>, Option<Seq<char>>)>,
> {
    match v {
        Some(v) => Some(read_members_view(v@)),
        None => None,
    }
}

/// The members of the JSON object that `serde_json::from_str` reads from a text,
/// each with its value where that is a text; nothing where the text is no JSON
/// object.
pub uninterp spec fn object_in(text: Seq<char>) -> Option<Seq<(Seq<char>, Option<Seq<char>>)>>;

/// `serde_json::from_str` reads a JSON document from a text. Which members it has
/// is a function of the text alone.
#[verifier::external_body]
fn read_object(text: &str) -> (r: Option<Vec<ReadMember>>)
    ensures
        opt_members_view(r) == object_in(text@),
{
    let document = serde_json::from_str::<serde_json::Value>(text).ok()?;
    let members = document.as_object()?.iter();
    Some(
        members
            .map(|(key, value)| ReadMember {
                key: key.clone(),
                text: value.as_str().map(str::to_owned),
            })
            .collect(),
    )
}

/// The text that is the member of a key: of the first, where there are several.
pub open spec fn text_of(v: Seq<(Seq<char>, Option<Seq<char>>)>, key: Seq<char>) -> Option<
    Seq<char>,
>
    decreases v.len(),
{
    if v.len() == 0 {
        None
    } else if v[0].0 == key {
        v[0].1
    } else {
        text_of(v.skip(1), key)
    }
}

/// The method of an event with those members: what stands for one that cannot be
/// read, where the event is no object or its method no text.
pub open spec fn method_in(members: Option<Seq<(Seq<char>, Option<Seq<char>>)>>) -> Seq<char> {
    match members {
        Some(members) => match text_of(members, "method"@) {
            Some(method) => method,
            None => "<unknown>"@,
        },
        None => "<unknown>"@,
    }
}

fn find_text(members: &Vec<ReadMember>, key: &str) -> (r: Option<String>)
    ensures
        opt_view(r) == text_of(read_members_view(members@), key@),
{
    let ghost all = read_members_view(members@);
    let mut i: usize = 0;
    proof {
        assert(all.skip(0) =~= all);
    }
    while i < members.len()
        invariant
            i <= members.len(),
            all == read_members_view(members@),
            text_of(all, key@) == text_of(all.skip(i as int), key@),
        decreases members.len() - i,
    {
        proof {
            assert(all.skip(i as int)[0] == all[i as int]);
            assert(all.skip(i as int).skip(1) =~= all.skip(i + 1));
        }
        if same(members[i].key.as_str(), key) {
            return copy_text(&members[i].text);
        }
        i += 1;
    }
    None
}

/// The method of an event with those members.
pub fn method_name(members: &Option<Vec<ReadMember>>) -> (r: String)
    ensures
        r@ == method_in(opt_members_view(*members)),
{
    let method = match members {
        Some(members) => find_text(members, "method"),
        None => None,
    };
    match method {
        Some(method) => method,
        None => "<unknown>".to_owned(),
    }
}

/// The method of an event, for a note on it.
pub fn event_method(json_payload: &str) -> (r: String)
    ensures
        r@ == method_in(object_in(json_payload@)),
{
    method_name(&read_object(json_payload))
}

// ---------------------------------------------------------------------------
// Laws
// ---------------------------------------------------------------------------

/// Each way in which publishing can fail has its own warning, and an event that was
/// published has none.
pub proof fn law_only_failures_are_warned_of(outcome: PublishOutcome)
    ensures
        warning_of(outcome) is None <==> outcome is Published,
        outcome is Refused ==> warning_of(outcome) == Some("wtcli publish failed"@),
        outcome is NotStarted ==> warning_of(outcome) == Some("failed to start wtcli publish"@),
        outcome is NoInput ==> warning_of(outcome) == Some("wtcli publish stdin was not piped"@),
        outcome is NotWritten ==> warning_of(outcome) == Some("failed writing wtcli publish payload"@),
        outcome is NotAwaited ==> warning_of(outcome) == Some("failed waiting for wtcli publish"@),
{
}

/// An event is known by the text of its method, the first of that name; one without
/// is not known.
pub proof fn law_an_event_is_known_by_its_method(
    v: Seq<(Seq<char>, Option<Seq<char>>)>,
    method: Seq<char>,
    i: int,
)
    ensures
        0 <= i < v.len() && v[i] == ("method"@, Some(method)) && (forall|k: int|
            0 <= k < i ==> (#[trigger] v[k]).0 != "method"@) ==> method_in(Some(v)) == method,
        (forall|k: int| 0 <= k < v.len() ==> (#[trigger] v[k]).0 != "method"@) ==> method_in(Some(v))
            == "<unknown>"@,
        method_in(None) == "<unknown>"@,
    decreases v.len(),
{
    if v.len() > 0 && v[0].0 != "method"@ {
        let rest = v.skip(1);
        assert forall|k: int| 0 <= k < rest.len() implies #[trigger] rest[k] == v[k + 1] by {}
        law_an_event_is_known_by_its_method(rest, method, i - 1);
        assert(text_of(v, "method"@) == text_of(rest, "method"@));
        if 0 < i < v.len() {
            assert(rest[i - 1] == v[i]);
        }
    }
}

} // verus!
