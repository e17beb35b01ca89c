//! JSON documents as plain values.

use vstd::prelude::*;
use vstd::string::*;

use crate::text::{
    cat3, chars_of, decimal, decimal_text, join, joined, law_joining_puts_the_separator_between,
    number_in, parse_u64, same, string_of, views,
};

verus! {

/// A JSON document. A number is kept as its text.
pub enum Json {
    Null,
    Bool(bool),
    Number(String),
    Text(String),
    List(Vec<Json>),
    Object(Vec<Member>),
}

/// A member of a JSON object.
pub struct Member {
    pub key: String,
    pub value: Json,
}

/// A member of a JSON object, mathematically.
#[verifier::ext_equal]
pub struct MemberView {
    pub key: Seq<char>,
    pub value: JsonView,
}

/// A JSON document, mathematically.
#[verifier::ext_equal]
pub enum JsonView {
    Null,
    Bool(bool),
    Number(Seq<char>),
    Text(Seq<char>),
    List(Seq<JsonView>),
    Object(Seq<MemberView>),
}

impl View for Json {
    type V = JsonView;

    open spec fn view(&self) -> JsonView
        decreases self,
    {
        match self {
            Json::Null => JsonView::Null,
            Json::Bool(b) => JsonView::Bool(*b),
            Json::Number(s) => JsonView::Number(s@),
            Json::Text(s) => JsonView::Text(s@),
            Json::List(v) => JsonView::List(
                Seq::new(
                    v@.len(),
                    |i: int|
                        if 0 <= i < v@.len() {
                            v@[i].view()
                        } else {
                            JsonView::Null
                        },
                ),
            ),
            Json::Object(v) => JsonView::Object(
                Seq::new(
                    v@.len(),
                    |i: int|
                        if 0 <= i < v@.len() {
                            MemberView { key: v@[i].key@, value: v@[i].value.view() }
                        } else {
                            MemberView { key: Seq::empty(), value: JsonView::Null }
                        },
                ),
            ),
        }
    }
}

/// The members of an object, mathematically.
pub open spec fn members_view(v: Seq<Member>) -> Seq<MemberView> {
    v.map_values(|m: Member| MemberView { key: m.key@, value: m.value@ })
}

/// The items of a list, mathematically.
pub open spec fn items_view(v: Seq<Json>) -> Seq<JsonView> {
    v.map_values(|j: Json| j@)
}

/// The view of an object is made of the views of its members.
pub proof fn lemma_object_view(v: Vec<Member>)
    ensures
        Json::Object(v)@ == JsonView::Object(members_view(v@)),
{
    assert(Json::Object(v)@->Object_0 =~= members_view(v@));
}

/// The view of a list is made of the views of its items.
pub proof fn lemma_list_view(v: Vec<Json>)
    ensures
        Json::List(v)@ == JsonView::List(items_view(v@)),
{
    assert(Json::List(v)@->List_0 =~= items_view(v@));
}

/// The member of an object with the given key: the first, where there are
/// several.
pub open spec fn member_in(v: Seq<MemberView>, key: Seq<char>) -> Option<JsonView>
    decreases v.len(),
{
    if v.len() == 0 {
        None
    } else if v[0].key == key {
        Some(v[0].value)
    } else {
        member_in(v.skip(1), key)
    }
}

impl JsonView {
    /// The member with the given key: only an object has any.
    pub open spec fn member(self, key: Seq<char>) -> Option<JsonView> {
        match self {
            JsonView::Object(v) => member_in(v, key),
            _ => None,
        }
    }

    /// The text, where the document is one.
    pub open spec fn text(self) -> Option<Seq<char>> {
        match self {
            JsonView::Text(s) => Some(s),
            _ => None,
        }
    }

    /// The boolean, where the document is one.
    pub open spec fn boolean(self) -> Option<bool> {
        match self {
            JsonView::Bool(b) => Some(b),
            _ => None,
        }
    }

    /// The member with the given key, where it is a text.
    pub open spec fn text_member(self, key: Seq<char>) -> Option<Seq<char>> {
        match self.member(key) {
            Some(j) => j.text(),
            None => None,
        }
    }

    /// The member with the given key, where it is a boolean.
    pub open spec fn bool_member(self, key: Seq<char>) -> Option<bool> {
        match self.member(key) {
            Some(j) => j.boolean(),
            None => None,
        }
    }

    /// A text or a number, as a text.
    pub open spec fn label(self) -> Option<Seq<char>> {
        match self {
            JsonView::Text(s) => Some(s),
            JsonView::Number(n) => Some(n),
            _ => None,
        }
    }

    /// The member with the given key, where it is a text or a number.
    pub open spec fn label_member(self, key: Seq<char>) -> Option<Seq<char>> {
        match self.member(key) {
            Some(j) => j.label(),
            None => None,
        }
    }

    /// The number, where the document is a whole one that is not negative and
    /// fits.
    pub open spec fn whole(self) -> Option<nat> {
        match self {
            JsonView::Number(n) => number_in(n, u64::MAX as nat),
            _ => None,
        }
    }

    /// The number, where the document is a whole one that fits.
    pub open spec fn signed(self) -> Option<int> {
        match self {
            JsonView::Number(n) => if n.len() > 0 && n[0] == '-' {
                match number_in(n.skip(1), (i64::MAX + 1) as nat) {
                    Some(m) => Some(-(m as int)),
                    None => None,
                }
            } else {
                match number_in(n, i64::MAX as nat) {
                    Some(m) => Some(m as int),
                    None => None,
                }
            },
            _ => None,
        }
    }

    /// The member with the given key, where it is a whole number that is not
    /// negative.
    pub open spec fn whole_member(self, key: Seq<char>) -> Option<nat> {
        match self.member(key) {
            Some(j) => j.whole(),
            None => None,
        }
    }

    /// The member with the given key, where it is a whole number.
    pub open spec fn signed_member(self, key: Seq<char>) -> Option<int> {
        match self.member(key) {
            Some(j) => j.signed(),
            None => None,
        }
    }

    /// The items, where the document is a list.
    pub open spec fn items(self) -> Option<Seq<JsonView>> {
        match self {
            JsonView::List(v) => Some(v),
            _ => None,
        }
    }

    /// The member with the given key, where it is a list.
    pub open spec fn list_member(self, key: Seq<char>) -> Option<Seq<JsonView>> {
        match self.member(key) {
            Some(j) => j.items(),
            None => None,
        }
    }

    /// The member with the given key, or the empty text where it is no text.
    pub open spec fn text_or_empty(self, key: Seq<char>) -> Seq<char> {
        match self.text_member(key) {
            Some(s) => s,
            None => Seq::empty(),
        }
    }
}

impl Json {
    /// The member with the given key: only an object has any.
    pub fn get(&self, key: &str) -> (r: Option<&Json>)
        ensures
            r is Some == self@.member(key@) is Some,
            r is Some ==> r->0@ == self@.member(key@)->0,
    {
        match self {
            Json::Object(v) => {
                proof {
                    lemma_object_view(*v);
                }
                let ghost all = members_view(v@);
                let mut i: usize = 0;
                proof {
                    assert(all.skip(0) =~= all);
                }
                while i < v.len()
                    invariant
                        i <= v.len(),
                        all == members_view(v@),
                        self@ == JsonView::Object(all),
                        member_in(all, key@) == member_in(all.skip(i as int), key@),
                    decreases v.len() - i,
                {
                    proof {
                        assert(all.skip(i as int)[0] == (MemberView {
                            key: v@[i as int].key@,
                            value: v@[i as int].value@,
                        }));
                        assert(all.skip(i as int).skip(1) =~= all.skip(i + 1));
                    }
                    if same(v[i].key.as_str(), key) {
                        return Some(&v[i].value);
                    }
                    i += 1;
                }
                proof {
                    assert(all.skip(v@.len() as int) =~= Seq::<MemberView>::empty());
                }
                None
            },
            _ => None,
        }
    }

    /// The text, where the document is one.
    pub fn as_str(&self) -> (r: Option<&str>)
        ensures
            r is Some == self@.text() is Some,
            r is Some ==> r->0@ == self@.text()->0,
    {
        match self {
            Json::Text(s) => Some(s.as_str()),
            _ => None,
        }
    }

    /// The boolean, where the document is one.
    pub fn as_bool(&self) -> (r: Option<bool>)
        ensures
            r == self@.boolean(),
    {
        match self {
            Json::Bool(b) => Some(*b),
            _ => None,
        }
    }

    /// The member with the given key, where it is a text.
    pub fn text_member(&self, key: &str) -> (r: Option<String>)
        ensures
            crate::text::opt_view(r) == self@.text_member(key@),
    {
        match self.get(key) {
            Some(j) => match j.as_str() {
                Some(s) => Some(s.to_owned()),
                None => None,
            },
            None => None,
        }
    }

    /// The member with the given key, where it is a boolean.
    pub fn bool_member(&self, key: &str) -> (r: Option<bool>)
        ensures
            r == self@.bool_member(key@),
    {
        match self.get(key) {
            Some(j) => j.as_bool(),
            None => None,
        }
    }

    /// A text or a number, as a text.
    pub fn to_label(&self) -> (r: Option<String>)
        ensures
            crate::text::opt_view(r) == self@.label(),
    {
        match self {
            Json::Text(s) => Some(s.clone()),
            Json::Number(n) => Some(n.clone()),
            _ => None,
        }
    }

    /// The member with the given key, where it is a text or a number.
    pub fn label_member(&self, key: &str) -> (r: Option<String>)
        ensures
            crate::text::opt_view(r) == self@.label_member(key@),
    {
        match self.get(key) {
            Some(j) => j.to_label(),
            None => None,
        }
    }

    /// The number, where the document is a whole one that is not negative and
    /// fits.
    pub fn as_u64(&self) -> (r: Option<u64>)
        ensures
            match r {
                Some(n) => self@.whole() == Some(n as nat),
                None => self@.whole() is None,
            },
    {
        match self {
            Json::Number(n) => parse_u64(n.as_str()),
            _ => None,
        }
    }

    /// The number, where the document is a whole one that fits.
    pub fn as_i64(&self) -> (r: Option<i64>)
        ensures
            match r {
                Some(n) => self@.signed() == Some(n as int),
                None => self@.signed() is None,
            },
    {
        match self {
            Json::Number(n) => {
                let v = chars_of(n.as_str());
                if v.len() > 0 && v[0] == '-' {
                    let rest = string_of(&v, 1, v.len());
                    proof {
                        assert(rest@ =~= n@.skip(1));
                    }
                    match parse_u64(rest.as_str()) {
                        Some(m) => if m < 9223372036854775808 {
                            Some(-(m as i64))
                        } else if m == 9223372036854775808 {
                            Some(i64::MIN)
                        } else {
                            None
                        },
                        None => None,
                    }
                } else {
                    match parse_u64(n.as_str()) {
                        Some(m) => if m <= 9223372036854775807 {
                            Some(m as i64)
                        } else {
                            None
                        },
                        None => None,
                    }
                }
            },
            _ => None,
        }
    }

    /// The member with the given key, where it is a whole number that is not
    /// negative.
    pub fn whole_member(&self, key: &str) -> (r: Option<u64>)
        ensures
            match r {
                Some(n) => self@.whole_member(key@) == Some(n as nat),
                None => self@.whole_member(key@) is None,
            },
    {
        match self.get(key) {
            Some(j) => j.as_u64(),
            None => None,
        }
    }

    /// The member with the given key, where it is a whole number.
    pub fn signed_member(&self, key: &str) -> (r: Option<i64>)
        ensures
            match r {
                Some(n) => self@.signed_member(key@) == Some(n as int),
                None => self@.signed_member(key@) is None,
            },
    {
        match self.get(key) {
            Some(j) => j.as_i64(),
            None => None,
        }
    }

    /// The member with the given key, where it is a list.
    pub fn list_member(&self, key: &str) -> (r: Option<&Vec<Json>>)
        ensures
            match r {
                Some(v) => self@.list_member(key@) == Some(items_view(v@)),
                None => self@.list_member(key@) is None,
            },
    {
        match self.get(key) {
            Some(Json::List(v)) => {
                proof {
                    lemma_list_view(*v);
                }
                Some(v)
            },
            _ => None,
        }
    }

    /// The member with the given key, or the empty text where it is no text.
    pub fn text_or_empty(&self, key: &str) -> (r: String)
        ensures
            r@ == self@.text_or_empty(key@),
    {
        match self.text_member(key) {
            Some(s) => s,
            None => String::new(),
        }
    }

    /// Whether there is a member with the given key.
    pub fn has(&self, key: &str) -> (r: bool)
        ensures
            r == self@.member(key@) is Some,
    {
        self.get(key).is_some()
    }

    /// A text.
    pub fn of_text(s: &str) -> (r: Json)
        ensures
            r@ == JsonView::Text(s@),
    {
        Json::Text(s.to_owned())
    }

    /// A text, or null where there is none.
    pub fn of_opt_text(s: &Option<String>) -> (r: Json)
        ensures
            r@ == opt_text(crate::text::opt_view(*s)),
    {
        match s {
            Some(s) => Json::Text(s.clone()),
            None => Json::Null,
        }
    }

    /// A number.
    pub fn of_number(n: u64) -> (r: Json)
        ensures
            r@ == JsonView::Number(decimal(n as nat)),
    {
        Json::Number(decimal_text(n))
    }

    /// An object of the given members.
    pub fn of_members(v: Vec<Member>) -> (r: Json)
        ensures
            r@ == JsonView::Object(members_view(v@)),
    {
        proof {
            lemma_object_view(v);
        }
        Json::Object(v)
    }

    /// A list of the given items.
    pub fn of_items(v: Vec<Json>) -> (r: Json)
        ensures
            r@ == JsonView::List(items_view(v@)),
    {
        proof {
            lemma_list_view(v);
        }
        Json::List(v)
    }
}

// ---------------------------------------------------------------------------
// Documents as text
// ---------------------------------------------------------------------------

/// A digit of a number to the base sixteen.
pub open spec fn hex_digit(n: nat) -> char {
    if n < 10 {
        (0x30 + n) as char
    } else {
        (0x57 + n) as char
    }
}

/// A character as it is written within quotation marks: the quotation mark, the
/// backslash and the control characters are escaped, all others stand for
/// themselves.
pub open spec fn escaped(c: char) -> Seq<char> {
    if c == '"' || c == '\\' {
        seq!['\\', c]
    } else if c == '\n' {
        seq!['\\', 'n']
    } else if c == '\r' {
        seq!['\\', 'r']
    } else if c == '\t' {
        seq!['\\', 't']
    } else if c as u32 == 0x08 {
        seq!['\\', 'b']
    } else if c as u32 == 0x0c {
        seq!['\\', 'f']
    } else if (c as u32) < 0x20 {
        seq!['\\', 'u', '0', '0', hex_digit(c as nat / 16), hex_digit(c as nat % 16)]
    } else {
        seq![c]
    }
}

/// A text as it is written within quotation marks.
pub open spec fn escaped_text(s: Seq<char>) -> Seq<char>
    decreases s.len(),
{
    if s.len() == 0 {
        Seq::empty()
    } else {
        escaped_text(s.drop_last()) + escaped(s.last())
    }
}

/// A text in quotation marks.
pub open spec fn quoted(s: Seq<char>) -> Seq<char> {
    "\""@ + escaped_text(s) + "\""@
}

impl JsonView {
    /// The document as text, without white space between its parts.
    pub open spec fn written(self) -> Seq<char>
        decreases self,
    {
        match self {
            JsonView::Null => "null"@,
            JsonView::Bool(b) => if b {
                "true"@
            } else {
                "false"@
            },
            JsonView::Number(n) => n,
            JsonView::Text(s) => quoted(s),
            JsonView::List(v) => "["@ + joined(items_written(v), ","@) + "]"@,
            JsonView::Object(v) => "{"@ + joined(members_written(v), ","@) + "}"@,
        }
    }
}

/// The items of a list as texts.
pub open spec fn items_written(v: Seq<JsonView>) -> Seq<Seq<char>>
    decreases v,
{
    if v.len() == 0 {
        Seq::empty()
    } else {
        items_written(v.drop_last()).push(v[v.len() - 1].written())
    }
}

/// The members of an object as texts: each key, a colon and the value.
pub open spec fn members_written(v: Seq<MemberView>) -> Seq<Seq<char>>
    decreases v,
{
    if v.len() == 0 {
        Seq::empty()
    } else {
        members_written(v.drop_last()).push(
            quoted(v[v.len() - 1].key) + ":"@ + v[v.len() - 1].value.written(),
        )
    }
}

/// `serde_json::to_string` of a text is the text in quotation marks: a quotation
/// mark and a backslash stand behind a backslash, a control character is written
/// by its letter where it has one and by its number where it has none, and every
/// other character is left as it is. Writing a text cannot fail.
#[verifier::external_body]
fn quote(s: &str) -> (r: String)
    ensures
        r@ == quoted(s@),
{
    serde_json::to_string(s).unwrap_or_default()
}

impl Json {
    /// The document as text, without white space between its parts. A number is
    /// the text it was kept as, and members stand in their order.
    pub fn to_text(&self) -> (r: String)
        ensures
            r@ == self@.written(),
        decreases self,
    {
        match self {
            Json::Null => "null".to_owned(),
            Json::Bool(b) => if *b {
                "true".to_owned()
            } else {
                "false".to_owned()
            },
            Json::Number(n) => n.clone(),
            Json::Text(s) => quote(s.as_str()),
            Json::List(v) => {
                let mut parts: Vec<String> = Vec::new();
                let mut i: usize = 0;
                let ghost all = items_view(v@);
                proof {
                    assert(views(parts@) =~= items_written(all.take(0)));
                }
                while i < v.len()
                    invariant
                        *self == Json::List(*v),
                        i <= v@.len(),
                        all == items_view(v@),
                        views(parts@) == items_written(all.take(i as int)),
                    decreases v.len() - i,
                {
                    proof {
                        assert(decreases_to!(*self => self->List_0));
                        assert(decreases_to!(self->List_0 => v@));
                        assert(decreases_to!(v@ => v@[i as int]));
                    }
                    let text = v[i].to_text();
                    let ghost before = parts@;
                    parts.push(text);
                    proof {
                        assert(views(parts@) =~= views(before).push(all[i as int].written()));
                        assert(all.take(i + 1).drop_last() =~= all.take(i as int));
                    }
                    i += 1;
                }
                let inner = join(&parts, ",");
                proof {
                    lemma_list_view(*v);
                    assert(all.take(i as int) =~= all);
                }
                cat3("[", inner.as_str(), "]")
            },
            Json::Object(v) => {
                let mut parts: Vec<String> = Vec::new();
                let mut i: usize = 0;
                let ghost all = members_view(v@);
                proof {
                    assert(views(parts@) =~= members_written(all.take(0)));
                }
                while i < v.len()
                    invariant
                        *self == Json::Object(*v),
                        i <= v@.len(),
                        all == members_view(v@),
                        views(parts@) == members_written(all.take(i as int)),
                    decreases v.len() - i,
                {
                    proof {
                        assert(decreases_to!(*self => self->Object_0));
                        assert(decreases_to!(self->Object_0 => v@));
                        assert(decreases_to!(v@ => v@[i as int]));
                        assert(decreases_to!(v@[i as int] => v@[i as int].value));
                    }
                    let key = quote(v[i].key.as_str());
                    let value = v[i].value.to_text();
                    let text = cat3(key.as_str(), ":", value.as_str());
                    let ghost before = parts@;
                    parts.push(text);
                    proof {
                        assert(views(parts@) =~= views(before).push(text@));
                        assert(all.take(i + 1).drop_last() =~= all.take(i as int));
                    }
                    i += 1;
                }
                let inner = join(&parts, ",");
                proof {
                    lemma_object_view(*v);
                    assert(all.take(i as int) =~= all);
                }
                cat3("{", inner.as_str(), "}")
            },
        }
    }
}

/// A text, or null where there is none.
pub open spec fn opt_text(s: Option<Seq<char>>) -> JsonView {
    match s {
        Some(s) => JsonView::Text(s),
        None => JsonView::Null,
    }
}

/// A member.
pub open spec fn entry(key: Seq<char>, value: JsonView) -> MemberView {
    MemberView { key, value }
}

/// Adds a member to an object.
pub fn put(members: &mut Vec<Member>, key: &str, value: Json)
    ensures
        members_view(final(members)@) == members_view(old(members)@).push(
            MemberView { key: key@, value: value@ },
        ),
{
    members.push(Member { key: key.to_owned(), value });
    proof {
        assert(members_view(members@) =~= members_view(old(members)@).push(
            MemberView { key: key@, value: value@ },
        ));
    }
}

/// No members.
pub fn no_members() -> (r: Vec<Member>)
    ensures
        members_view(r@) == Seq::<MemberView>::empty(),
{
    let r: Vec<Member> = Vec::new();
    proof {
        assert(members_view(r@) =~= Seq::<MemberView>::empty());
    }
    r
}

/// An event for the terminal: its method and its parameters.
pub open spec fn event_view(method: Seq<char>, params: JsonView) -> JsonView {
    JsonView::Object(
        seq![
            entry("type"@, JsonView::Text("event"@)),
            entry("method"@, JsonView::Text(method)),
            entry("params"@, params),
        ],
    )
}

/// An event for the terminal.
pub fn event(method: &str, params: Json) -> (r: Json)
    ensures
        r@ == event_view(method@, params@),
{
    let mut members = no_members();
    put(&mut members, "type", Json::of_text("event"));
    put(&mut members, "method", Json::of_text(method));
    put(&mut members, "params", params);
    proof {
        assert(members_view(members@) =~= seq![
            entry("type"@, JsonView::Text("event"@)),
            entry("method"@, JsonView::Text(method@)),
            entry("params"@, params@),
        ]);
    }
    Json::of_members(members)
}

// ---------------------------------------------------------------------------
// Laws
// ---------------------------------------------------------------------------

proof fn lemma_first_member(v: Seq<MemberView>, key: Seq<char>, i: int)
    requires
        0 <= i < v.len(),
        v[i].key == key,
        forall|k: int| 0 <= k < i ==> (#[trigger] v[k]).key != key,
    ensures
        member_in(v, key) == Some(v[i].value),
    decreases v.len(),
{
    if i > 0 {
        assert(v[0].key != key);
        let rest = v.skip(1);
        assert(rest[i - 1] == v[i]);
        assert forall|k: int| 0 <= k < i - 1 implies (#[trigger] rest[k]).key != key by {
            assert(rest[k] == v[k + 1]);
        }
        lemma_first_member(rest, key, i - 1);
    }
}

proof fn lemma_no_member(v: Seq<MemberView>, key: Seq<char>)
    requires
        forall|k: int| 0 <= k < v.len() ==> (#[trigger] v[k]).key != key,
    ensures
        member_in(v, key) is None,
    decreases v.len(),
{
    if v.len() > 0 {
        assert(v[0].key != key);
        let rest = v.skip(1);
        assert forall|k: int| 0 <= k < rest.len() implies (#[trigger] rest[k]).key != key by {
            assert(rest[k] == v[k + 1]);
        }
        lemma_no_member(rest, key);
    }
}

/// A member is read by its name: the first of that name counts, and where there is
/// none nothing is read.
pub proof fn law_a_member_is_read_by_its_name(v: Seq<MemberView>, key: Seq<char>, i: int)
    ensures
        0 <= i < v.len() && v[i].key == key && (forall|k: int|
            0 <= k < i ==> (#[trigger] v[k]).key != key) ==> JsonView::Object(v).member(key) == Some(
            v[i].value,
        ),
        (forall|k: int| 0 <= k < v.len() ==> (#[trigger] v[k]).key != key) ==> JsonView::Object(
            v,
        ).member(key) is None,
{
    if 0 <= i < v.len() && v[i].key == key && (forall|k: int|
        0 <= k < i ==> (#[trigger] v[k]).key != key) {
        lemma_first_member(v, key, i);
    }
    if forall|k: int| 0 <= k < v.len() ==> (#[trigger] v[k]).key != key {
        lemma_no_member(v, key);
    }
}

/// A member is read as what it is: a text is no number, and a flag is neither.
/// What can be either, as an id can, is read from both.
pub proof fn law_a_member_is_read_as_what_it_is(j: JsonView, key: Seq<char>, s: Seq<char>, b: bool)
    ensures
        j.text_member(key) == Some(s) <==> j.member(key) == Some(JsonView::Text(s)),
        j.bool_member(key) == Some(b) <==> j.member(key) == Some(JsonView::Bool(b)),
        j.label_member(key) == Some(s) <==> j.member(key) == Some(JsonView::Text(s)) || j.member(key)
            == Some(JsonView::Number(s)),
        !(j is Object) ==> j.member(key) is None,
        j.text_or_empty(key) == s && s.len() > 0 ==> j.text_member(key) == Some(s),
        j.text_member(key) is None ==> j.text_or_empty(key).len() == 0,
{
}

/// What is written of a text is written character by character: those that mean
/// something to a reader are escaped, and the others stand for themselves.
pub proof fn law_texts_are_escaped_one_by_one(s: Seq<char>, c: char)
    ensures
        escaped_text(s.push(c)) == escaped_text(s) + escaped(c),
        c as u32 >= 0x20 && c != '"' && c != '\\' ==> escaped(c) == seq![c],
        c == '"' ==> escaped(c) == seq!['\\', '"'],
        c == '\\' ==> escaped(c) == seq!['\\', '\\'],
        c == '\n' ==> escaped(c) == seq!['\\', 'n'],
        c == '\r' ==> escaped(c) == seq!['\\', 'r'],
        c == '\t' ==> escaped(c) == seq!['\\', 't'],
        (c as u32) < 0x20 ==> escaped(c).len() >= 2 && escaped(c)[0] == '\\',
        forall|i: int| 0 <= i < escaped(c).len() ==> (#[trigger] escaped(c)[i]) as u32 >= 0x20,
{
    assert(s.push(c).drop_last() =~= s);
}

/// Nothing that is written of a text ends it early or breaks its line.
pub proof fn law_a_written_text_stays_on_its_line(s: Seq<char>)
    ensures
        forall|i: int|
            0 <= i < escaped_text(s).len() ==> (#[trigger] escaped_text(s)[i]) as u32 >= 0x20,
        quoted(s) == "\""@ + escaped_text(s) + "\""@,
    decreases s.len(),
{
    if s.len() > 0 {
        let rest = s.drop_last();
        law_a_written_text_stays_on_its_line(rest);
        law_texts_are_escaped_one_by_one(rest, s.last());
        assert(rest.push(s.last()) =~= s);
    }
}

/// Values are written as what they are, lists and objects in their order.
pub proof fn law_values_are_written_as_what_they_are(
    s: Seq<char>,
    a: JsonView,
    b: JsonView,
    k: Seq<char>,
    l: Seq<char>,
)
    ensures
        JsonView::Null.written() == "null"@,
        JsonView::Bool(true).written() == "true"@,
        JsonView::Bool(false).written() == "false"@,
        JsonView::Number(s).written() == s,
        JsonView::Text(s).written() == "\""@ + escaped_text(s) + "\""@,
        JsonView::List(Seq::empty()).written() == "["@ + "]"@,
        JsonView::List(seq![a]).written() == "["@ + a.written() + "]"@,
        JsonView::List(seq![a, b]).written() == "["@ + (a.written() + ","@ + b.written()) + "]"@,
        JsonView::Object(Seq::empty()).written() == "{"@ + "}"@,
        JsonView::Object(seq![MemberView { key: k, value: a }]).written() == "{"@ + (quoted(k)
            + ":"@ + a.written()) + "}"@,
        JsonView::Object(
            seq![MemberView { key: k, value: a }, MemberView { key: l, value: b }],
        ).written() == "{"@ + (quoted(k) + ":"@ + a.written() + ","@ + (quoted(l) + ":"@
            + b.written())) + "}"@,
{
    reveal_with_fuel(items_written, 3);
    reveal_with_fuel(members_written, 3);
    reveal_with_fuel(joined, 3);
    let one = seq![a];
    let two = seq![a, b];
    let m = MemberView { key: k, value: a };
    let n = MemberView { key: l, value: b };
    assert(one.drop_last() =~= Seq::empty());
    assert(two.drop_last() =~= one);
    assert(seq![m].drop_last() =~= Seq::empty());
    assert(seq![m, n].drop_last() =~= seq![m]);
    assert(items_written(one) =~= seq![a.written()]);
    assert(items_written(two) =~= seq![a.written(), b.written()]);
    assert(members_written(seq![m]) =~= seq![quoted(k) + ":"@ + a.written()]);
    assert(members_written(seq![m, n]) =~= seq![
        quoted(k) + ":"@ + a.written(),
        quoted(l) + ":"@ + b.written(),
    ]);
    law_joining_puts_the_separator_between(a.written(), b.written(), ","@);
    law_joining_puts_the_separator_between(
        quoted(k) + ":"@ + a.written(),
        quoted(l) + ":"@ + b.written(),
        ","@,
    );
    assert("["@ + Seq::<char>::empty() + "]"@ =~= "["@ + "]"@);
    assert("{"@ + Seq::<char>::empty() + "}"@ =~= "{"@ + "}"@);
}

/// An event says that it is one, by its method and with its parameters.
pub proof fn law_an_event_says_its_method(method: Seq<char>, params: JsonView)
    ensures
        event_view(method, params).text_member("type"@) == Some("event"@),
        event_view(method, params).text_member("method"@) == Some(method),
        event_view(method, params).member("params"@) == Some(params),
{
    reveal_strlit("type");
    reveal_strlit("method");
    reveal_strlit("params");
    assert("type"@.len() == 4 && "method"@.len() == 6 && "params"@.len() == 6);
    assert("method"@[0] == 'm' && "params"@[0] == 'p');
    let v = event_view(method, params)->Object_0;
    law_a_member_is_read_by_its_name(v, "type"@, 0);
    law_a_member_is_read_by_its_name(v, "method"@, 1);
    law_a_member_is_read_by_its_name(v, "params"@, 2);
}

} // verus!
