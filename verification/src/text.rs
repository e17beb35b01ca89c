//! Text as a sequence of characters: the string operations the rest of the
//! library is written with, each tied to a spec function over `Seq<char>`.

use vstd::prelude::*;
use vstd::string::*;

verus! {

/// `String::push` appends one character to the end of the string.
pub assume_specification[ String::push ](s: &mut String, c: char)
    ensures
        final(s)@ == old(s)@.push(c),
;

/// The views of a slice of strings.
pub open spec fn views(v: Seq<String>) -> Seq<Seq<char>> {
    v.map_values(|s: String| s@)
}

/// The view of an optional string.
pub open spec fn opt_view(v: Option<String>) -> Option<Seq<char>> {
    match v {
        Some(s) => Some(s@),
        None => None,
    }
}

/// The characters of `s`.
pub fn chars_of(s: &str) -> (r: Vec<char>)
    ensures
        r@ == s@,
{
    let mut out: Vec<char> = Vec::new();
    for c in it: s.chars()
        invariant
            it.seq() == s@,
            out@ == s@.take(it.index() as int),
    {
        out.push(c);
        proof {
            assert(s@.take(it.index() + 1) == s@.take(it.index() as int).push(s@[it.index() as int]));
        }
    }
    proof {
        assert(s@.take(s@.len() as int) == s@);
    }
    out
}

/// The string made of the characters `v[from..to]`.
pub fn string_of(v: &Vec<char>, from: usize, to: usize) -> (r: String)
    requires
        from <= to <= v.len(),
    ensures
        r@ == v@.subrange(from as int, to as int),
{
    let mut out = String::new();
    let mut i: usize = from;
    while i < to
        invariant
            from <= i <= to <= v.len(),
            out@ == v@.subrange(from as int, i as int),
        decreases to - i,
    {
        out.push(v[i]);
        proof {
            assert(v@.subrange(from as int, i + 1) == v@.subrange(from as int, i as int).push(v@[i as int]));
        }
        i += 1;
    }
    out
}

/// Whether two texts are the same.
pub fn same(a: &str, b: &str) -> (r: bool)
    ensures
        r == (a@ == b@),
{
    a.to_owned() == b.to_owned()
}

/// Whether an optional text is present and is `b`.
pub fn holds_text(a: &Option<String>, b: &str) -> (r: bool)
    ensures
        r == (opt_view(*a) == Some(b@)),
{
    match a {
        Some(a) => same(a.as_str(), b),
        None => false,
    }
}

/// Whether two optional texts are the same.
pub fn same_opt(a: &Option<String>, b: &Option<String>) -> (r: bool)
    ensures
        r == (opt_view(*a) == opt_view(*b)),
{
    match (a, b) {
        (Some(a), Some(b)) => same(a.as_str(), b.as_str()),
        (None, None) => true,
        _ => false,
    }
}

/// `a` followed by `b`.
pub fn cat(a: &str, b: &str) -> (r: String)
    ensures
        r@ == a@ + b@,
{
    let mut out = a.to_owned();
    out.append(b);
    out
}

/// `a`, `b` and `c` in a row.
pub fn cat3(a: &str, b: &str, c: &str) -> (r: String)
    ensures
        r@ == a@ + b@ + c@,
{
    let mut out = a.to_owned();
    out.append(b);
    out.append(c);
    out
}

// ---------------------------------------------------------------------------
// Characters
// ---------------------------------------------------------------------------

/// The characters with Unicode's `White_Space` property.
pub open spec fn is_white(c: char) -> bool {
    ||| '\u{9}' <= c <= '\u{d}'
    ||| c == ' '
    ||| c == '\u{85}'
    ||| c == '\u{a0}'
    ||| c == '\u{1680}'
    ||| '\u{2000}' <= c <= '\u{200a}'
    ||| c == '\u{2028}'
    ||| c == '\u{2029}'
    ||| c == '\u{202f}'
    ||| c == '\u{205f}'
    ||| c == '\u{3000}'
}

/// Whether `c` is white space.
pub fn white(c: char) -> (r: bool)
    ensures
        r == is_white(c),
{
    ('\u{9}' <= c && c <= '\u{d}') || c == ' ' || c == '\u{85}' || c == '\u{a0}' || c
        == '\u{1680}' || ('\u{2000}' <= c && c <= '\u{200a}') || c == '\u{2028}' || c
        == '\u{2029}' || c == '\u{202f}' || c == '\u{205f}' || c == '\u{3000}'
}

/// `c` with an ASCII capital letter turned into its small letter.
pub open spec fn lower_char(c: char) -> char {
    if 'A' <= c <= 'Z' {
        (c as u32 + 32) as char
    } else {
        c
    }
}

/// `s` with every ASCII capital letter turned into its small letter.
pub open spec fn lower(s: Seq<char>) -> Seq<char> {
    s.map_values(|c: char| lower_char(c))
}

/// The small letter of an ASCII capital, any other character as it is.
pub fn to_lower_char(c: char) -> (r: char)
    ensures
        r == lower_char(c),
{
    if 'A' <= c && c <= 'Z' {
        ((c as u8) + 32) as char
    } else {
        c
    }
}

/// `s` in ASCII lower case.
pub fn to_lower(s: &str) -> (r: String)
    ensures
        r@ == lower(s@),
{
    let v = chars_of(s);
    let mut out = String::new();
    let mut i: usize = 0;
    while i < v.len()
        invariant
            i <= v.len(),
            v@ == s@,
            out@ == lower(s@.take(i as int)),
        decreases v.len() - i,
    {
        out.push(to_lower_char(v[i]));
        proof {
            assert(lower(s@.take(i + 1)) =~= lower(s@.take(i as int)).push(lower_char(s@[i as int])));
        }
        i += 1;
    }
    proof {
        assert(s@.take(s@.len() as int) == s@);
    }
    out
}

/// Whether two texts are the same when ASCII case is ignored.
pub fn same_ignore_case(a: &str, b: &str) -> (r: bool)
    ensures
        r == (lower(a@) == lower(b@)),
{
    to_lower(a) == to_lower(b)
}

/// Whether `value` begins with `prefix` when ASCII case is ignored.
pub open spec fn begins_ignore_case(value: Seq<char>, prefix: Seq<char>) -> bool {
    value.len() >= prefix.len() && lower(value.take(prefix.len() as int)) == lower(prefix)
}

/// Whether `value` begins with `prefix` when ASCII case is ignored.
pub fn starts_with_ignore_ascii_case(value: &str, prefix: &str) -> (r: bool)
    ensures
        r == begins_ignore_case(value@, prefix@),
{
    let v = chars_of(value);
    let p = chars_of(prefix);
    if v.len() < p.len() {
        return false;
    }
    let head = string_of(&v, 0, p.len());
    proof {
        assert(value@.subrange(0, prefix@.len() as int) == value@.take(prefix@.len() as int));
    }
    same_ignore_case(head.as_str(), prefix)
}

// ---------------------------------------------------------------------------
// Ends of a text
// ---------------------------------------------------------------------------

/// `s` without the white space at its end.
pub open spec fn trimmed_end(s: Seq<char>) -> Seq<char>
    decreases s.len(),
{
    if s.len() > 0 && is_white(s.last()) {
        trimmed_end(s.drop_last())
    } else {
        s
    }
}

/// `s` without the white space at its start.
pub open spec fn trimmed_start(s: Seq<char>) -> Seq<char>
    decreases s.len(),
{
    if s.len() > 0 && is_white(s[0]) {
        trimmed_start(s.skip(1))
    } else {
        s
    }
}

/// `s` without the white space at its two ends.
pub open spec fn trimmed(s: Seq<char>) -> Seq<char> {
    trimmed_end(trimmed_start(s))
}

/// Every character of `s` is white space.
pub open spec fn all_white(s: Seq<char>) -> bool {
    forall|i: int| 0 <= i < s.len() ==> is_white(#[trigger] s[i])
}

/// A text is blank exactly when nothing is left of it once trimmed.
pub proof fn lemma_trimmed_blank(s: Seq<char>)
    ensures
        (trimmed(s).len() == 0) == all_white(s),
{
    lemma_trimmed_start_blank(s);
    lemma_trimmed_end_blank(trimmed_start(s));
}

proof fn lemma_trimmed_start_blank(s: Seq<char>)
    ensures
        all_white(s) == all_white(trimmed_start(s)),
    decreases s.len(),
{
    if s.len() > 0 && is_white(s[0]) {
        lemma_trimmed_start_blank(s.skip(1));
        assert(all_white(s.skip(1)) ==> all_white(s)) by {
            if all_white(s.skip(1)) {
                assert forall|i: int| 0 <= i < s.len() implies is_white(#[trigger] s[i]) by {
                    if i > 0 {
                        assert(s.skip(1)[i - 1] == s[i]);
                    }
                }
            }
        }
        assert(all_white(s) ==> all_white(s.skip(1)));
    }
}

proof fn lemma_trimmed_end_blank(s: Seq<char>)
    ensures
        (trimmed_end(s).len() == 0) == all_white(s),
    decreases s.len(),
{
    if s.len() > 0 && is_white(s.last()) {
        lemma_trimmed_end_blank(s.drop_last());
        assert(all_white(s.drop_last()) ==> all_white(s)) by {
            if all_white(s.drop_last()) {
                assert forall|i: int| 0 <= i < s.len() implies is_white(#[trigger] s[i]) by {
                    if i < s.len() - 1 {
                        assert(s.drop_last()[i] == s[i]);
                    }
                }
            }
        }
    }
}

/// `s` without the white space at its end.
pub fn trim_end(s: &str) -> (r: String)
    ensures
        r@ == trimmed_end(s@),
{
    let v = chars_of(s);
    let mut n: usize = v.len();
    proof {
        assert(s@.take(s@.len() as int) == s@);
    }
    while n > 0 && white(v[n - 1])
        invariant
            n <= v.len(),
            v@ == s@,
            trimmed_end(s@) == trimmed_end(s@.take(n as int)),
        decreases n,
    {
        proof {
            assert(s@.take(n as int).drop_last() == s@.take(n - 1));
        }
        n -= 1;
    }
    proof {
        assert(v@.subrange(0, n as int) == s@.take(n as int));
    }
    string_of(&v, 0, n)
}

/// `s` without the white space at its two ends.
pub fn trim(s: &str) -> (r: String)
    ensures
        r@ == trimmed(s@),
{
    let v = chars_of(s);
    let mut i: usize = 0;
    proof {
        assert(s@.skip(0) == s@);
    }
    while i < v.len() && white(v[i])
        invariant
            i <= v.len(),
            v@ == s@,
            trimmed_start(s@) == trimmed_start(s@.skip(i as int)),
        decreases v.len() - i,
    {
        proof {
            assert(s@.skip(i as int).skip(1) == s@.skip(i + 1));
        }
        i += 1;
    }
    proof {
        assert(v@.subrange(i as int, v@.len() as int) == s@.skip(i as int));
    }
    let head = string_of(&v, i, v.len());
    trim_end(head.as_str())
}

/// Whether `s` holds nothing but white space.
pub fn is_blank(s: &str) -> (r: bool)
    ensures
        r == all_white(s@),
{
    let t = trim(s);
    proof {
        lemma_trimmed_blank(s@);
    }
    chars_of(t.as_str()).len() == 0
}

/// Whether `s` has no characters.
pub fn is_empty_text(s: &str) -> (r: bool)
    ensures
        r == (s@.len() == 0),
{
    chars_of(s).len() == 0
}

// ---------------------------------------------------------------------------
// Searching
// ---------------------------------------------------------------------------

/// Whether `needle` stands in `hay` at position `i`.
pub open spec fn occurs_at(hay: Seq<char>, needle: Seq<char>, i: int) -> bool {
    0 <= i && i + needle.len() <= hay.len() && hay.subrange(i, i + needle.len()) == needle
}

/// Whether `needle` stands somewhere in `hay`.
pub open spec fn occurs(hay: Seq<char>, needle: Seq<char>) -> bool {
    exists|i: int| occurs_at(hay, needle, i)
}

/// Whether `needle` stands in `v` at position `i`.
fn matches_at(v: &Vec<char>, p: &Vec<char>, i: usize) -> (r: bool)
    requires
        i + p.len() <= v.len(),
    ensures
        r == occurs_at(v@, p@, i as int),
{
    let mut j: usize = 0;
    while j < p.len()
        invariant
            j <= p.len(),
            i + p.len() <= v.len(),
            forall|k: int| 0 <= k < j ==> v@[i + k] == p@[k],
        decreases p.len() - j,
    {
        if v[i + j] != p[j] {
            proof {
                assert(v@.subrange(i as int, i + p@.len())[j as int] == v@[i + j]);
            }
            return false;
        }
        j += 1;
    }
    proof {
        assert(v@.subrange(i as int, i + p@.len()) =~= p@);
    }
    true
}

/// Whether `needle` stands somewhere in `hay`.
pub fn contains(hay: &str, needle: &str) -> (r: bool)
    ensures
        r == occurs(hay@, needle@),
{
    let v = chars_of(hay);
    let p = chars_of(needle);
    if v.len() < p.len() {
        return false;
    }
    let last: usize = v.len() - p.len();
    let mut i: usize = 0;
    while i <= last
        invariant
            i <= last + 1,
            last == v.len() - p.len(),
            v@ == hay@,
            p@ == needle@,
            forall|k: int| 0 <= k < i ==> !occurs_at(hay@, needle@, k),
        decreases last + 1 - i,
    {
        if matches_at(&v, &p, i) {
            return true;
        }
        if i == last {
            proof {
                assert forall|k: int| !occurs_at(hay@, needle@, k) by {
                    if k == i {
                    }
                }
            }
            return false;
        }
        i += 1;
    }
    false
}

/// Whether `s` begins with `prefix`.
pub open spec fn begins(s: Seq<char>, prefix: Seq<char>) -> bool {
    s.len() >= prefix.len() && s.take(prefix.len() as int) == prefix
}

/// What follows `prefix` in `s`, where `s` begins with it.
pub fn strip_prefix(s: &str, prefix: &str) -> (r: Option<String>)
    ensures
        r is Some == begins(s@, prefix@),
        begins(s@, prefix@) ==> r->0@ == s@.skip(prefix@.len() as int),
{
    let v = chars_of(s);
    let p = chars_of(prefix);
    if v.len() < p.len() {
        return None;
    }
    proof {
        assert(s@.subrange(0, prefix@.len() as int) == s@.take(prefix@.len() as int));
        assert(s@.subrange(prefix@.len() as int, s@.len() as int) == s@.skip(prefix@.len() as int));
    }
    if matches_at(&v, &p, 0) {
        Some(string_of(&v, p.len(), v.len()))
    } else {
        None
    }
}

/// Whether `s` begins with `prefix`.
pub fn starts_with(s: &str, prefix: &str) -> (r: bool)
    ensures
        r == begins(s@, prefix@),
{
    strip_prefix(s, prefix).is_some()
}

/// `s` with every `from` replaced by `to`.
pub open spec fn replaced(s: Seq<char>, from: char, to: char) -> Seq<char> {
    s.map_values(|c: char| if c == from { to } else { c })
}

/// `s` with every `from` replaced by `to`.
pub fn replace_char(s: &str, from: char, to: char) -> (r: String)
    ensures
        r@ == replaced(s@, from, to),
{
    let v = chars_of(s);
    let mut out = String::new();
    let mut i: usize = 0;
    while i < v.len()
        invariant
            i <= v.len(),
            v@ == s@,
            out@ == replaced(s@.take(i as int), from, to),
        decreases v.len() - i,
    {
        let c = v[i];
        out.push(if c == from { to } else { c });
        proof {
            assert(replaced(s@.take(i + 1), from, to) =~= replaced(s@.take(i as int), from, to).push(
                if c == from { to } else { c },
            ));
        }
        i += 1;
    }
    proof {
        assert(s@.take(s@.len() as int) == s@);
    }
    out
}

/// Where `c` first stands in `s`, if it does.
pub fn find_char(s: &Vec<char>, c: char) -> (r: Option<usize>)
    ensures
        r is Some == s@.contains(c),
        r is Some ==> r->0 == s@.index_of_first(c)->0 && r->0 < s.len() && s@[r->0 as int] == c && !s@.take(r->0 as int).contains(c),
{
    let mut i: usize = 0;
    while i < s.len()
        invariant
            i <= s.len(),
            forall|k: int| 0 <= k < i ==> s@[k] != c,
        decreases s.len() - i,
    {
        if s[i] == c {
            proof {
                s@.index_of_first_ensures(c);
                assert(s@.contains(c));
            }
            return Some(i);
        }
        i += 1;
    }
    None
}

// ---------------------------------------------------------------------------
// Splitting and joining
// ---------------------------------------------------------------------------

/// The pieces of `s` between the places where `sep` stands: one more than
/// there are such places.
pub open spec fn split_on(s: Seq<char>, sep: char) -> Seq<Seq<char>>
    decreases s.len(),
{
    if s.len() == 0 {
        seq![Seq::<char>::empty()]
    } else {
        let before = split_on(s.drop_last(), sep);
        if s.last() == sep {
            before.push(Seq::<char>::empty())
        } else {
            before.drop_last().push(before.last().push(s.last()))
        }
    }
}

/// `parts` in a row, with `sep` between neighbours.
pub open spec fn joined(parts: Seq<Seq<char>>, sep: Seq<char>) -> Seq<char>
    decreases parts.len(),
{
    if parts.len() == 0 {
        Seq::empty()
    } else if parts.len() == 1 {
        parts[0]
    } else {
        joined(parts.drop_last(), sep) + sep + parts.last()
    }
}

/// Growing the last piece grows what the pieces make up.
pub proof fn lemma_joined_grow_last(parts: Seq<Seq<char>>, sep: Seq<char>, c: char)
    requires
        parts.len() > 0,
    ensures
        joined(parts.drop_last().push(parts.last().push(c)), sep) == joined(parts, sep).push(c),
{
    let grown = parts.drop_last().push(parts.last().push(c));
    assert(grown.drop_last() == parts.drop_last());
    if parts.len() == 1 {
        assert(grown[0] == parts[0].push(c));
    } else {
        assert(joined(grown, sep) == joined(parts.drop_last(), sep) + sep + parts.last().push(c));
        assert(joined(parts.drop_last(), sep) + sep + parts.last().push(c) =~= joined(parts, sep).push(c));
    }
}

/// Splitting a text and joining the pieces again gives the text back, and no
/// piece holds the separator.
pub proof fn law_split_then_join(s: Seq<char>, sep: char)
    ensures
        split_on(s, sep).len() >= 1,
        joined(split_on(s, sep), seq![sep]) == s,
        forall|i: int| 0 <= i < split_on(s, sep).len() ==> !(#[trigger] split_on(s, sep)[i]).contains(sep),
    decreases s.len(),
{
    let parts = split_on(s, sep);
    if s.len() > 0 {
        law_split_then_join(s.drop_last(), sep);
        let before = split_on(s.drop_last(), sep);
        assert(s == s.drop_last().push(s.last()));
        if s.last() == sep {
            assert(parts.drop_last() == before);
            assert(joined(parts, seq![sep]) =~= joined(before, seq![sep]) + seq![sep] + Seq::<char>::empty());
        } else {
            lemma_joined_grow_last(before, seq![sep], s.last());
            assert forall|i: int| 0 <= i < parts.len() implies !(#[trigger] parts[i]).contains(sep) by {
                if i < before.len() - 1 {
                    assert(parts[i] == before[i]);
                } else {
                    assert(parts[i] == before.last().push(s.last()));
                    assert(!before[before.len() - 1].contains(sep));
                    if parts[i].contains(sep) {
                        let k = choose|k: int| 0 <= k < parts[i].len() && parts[i][k] == sep;
                        assert(before.last()[k] == sep);
                    }
                }
            }
        }
    }
}

/// A text without the separator is one piece.
pub proof fn lemma_split_single(s: Seq<char>, sep: char)
    requires
        !s.contains(sep),
    ensures
        split_on(s, sep) == seq![s],
    decreases s.len(),
{
    if s.len() > 0 {
        assert(!s.drop_last().contains(sep)) by {
            if s.drop_last().contains(sep) {
                let k = choose|k: int| 0 <= k < s.drop_last().len() && s.drop_last()[k] == sep;
                assert(s[k] == sep);
            }
        }
        lemma_split_single(s.drop_last(), sep);
        assert(s.contains(s.last()));
        assert(s.drop_last().push(s.last()) =~= s);
        assert(split_on(s, sep) =~= seq![s]);
    } else {
        assert(s =~= Seq::<char>::empty());
    }
}

/// The pieces of `s` between the places where `sep` stands.
pub fn split(s: &str, sep: char) -> (r: Vec<String>)
    ensures
        views(r@) == split_on(s@, sep),
        r.len() >= 1,
{
    let v = chars_of(s);
    let mut out: Vec<String> = Vec::new();
    let mut start: usize = 0;
    let mut i: usize = 0;
    proof {
        assert(s@.take(0) == Seq::<char>::empty());
    }
    while i < v.len()
        invariant
            start <= i <= v.len(),
            v@ == s@,
            split_on(s@.take(i as int), sep) == views(out@).push(s@.subrange(start as int, i as int)),
        decreases v.len() - i,
    {
        proof {
            assert(s@.take(i + 1).drop_last() == s@.take(i as int));
            assert(s@.take(i + 1).last() == s@[i as int]);
        }
        if v[i] == sep {
            let ghost old_out = out@;
            out.push(string_of(&v, start, i));
            proof {
                assert(views(out@) =~= views(old_out).push(s@.subrange(start as int, i as int)));
                assert(s@.subrange(i + 1, i + 1) =~= Seq::<char>::empty());
            }
            i += 1;
            start = i;
        } else {
            proof {
                let p = views(out@).push(s@.subrange(start as int, i as int));
                assert(p.drop_last() =~= views(out@));
                assert(s@.subrange(start as int, i + 1) =~= s@.subrange(start as int, i as int).push(s@[i as int]));
            }
            i += 1;
        }
    }
    let ghost old_out = out@;
    out.push(string_of(&v, start, v.len()));
    proof {
        assert(s@.take(s@.len() as int) == s@);
        assert(views(out@) =~= views(old_out).push(s@.subrange(start as int, s@.len() as int)));
    }
    out
}

/// `s` without one carriage return at its end, where it has one.
pub open spec fn without_cr(s: Seq<char>) -> Seq<char> {
    if s.len() > 0 && s.last() == '\r' {
        s.drop_last()
    } else {
        s
    }
}

/// The lines of a text: the pieces between line feeds, with the carriage
/// return before a line feed dropped, and no line after a final line feed.
pub open spec fn lines_of(s: Seq<char>) -> Seq<Seq<char>> {
    let parts = split_on(s, '\n');
    let ended = parts.drop_last().map_values(|p: Seq<char>| without_cr(p));
    if parts.last().len() == 0 {
        ended
    } else {
        ended.push(parts.last())
    }
}

/// The lines of `s`.
pub fn lines(s: &str) -> (r: Vec<String>)
    ensures
        views(r@) == lines_of(s@),
{
    let mut parts = split(s, '\n');
    let ghost all = views(parts@);
    let last = parts.pop().unwrap();
    proof {
        assert(views(parts@) =~= all.drop_last());
        assert(last@ == all.last());
    }
    let mut out: Vec<String> = Vec::new();
    let mut i: usize = 0;
    while i < parts.len()
        invariant
            i <= parts.len(),
            views(out@) == views(parts@).take(i as int).map_values(|p: Seq<char>| without_cr(p)),
        decreases parts.len() - i,
    {
        let v = chars_of(parts[i].as_str());
        let keep: usize = if v.len() > 0 && v[v.len() - 1] == '\r' {
            v.len() - 1
        } else {
            v.len()
        };
        let ghost old_out = out@;
        out.push(string_of(&v, 0, keep));
        proof {
            assert(v@.subrange(0, keep as int) =~= without_cr(v@));
            assert(views(out@) =~= views(old_out).push(without_cr(v@)));
            assert(views(parts@).take(i + 1) =~= views(parts@).take(i as int).push(v@));
            assert(views(out@) =~= views(parts@).take(i + 1).map_values(|p: Seq<char>| without_cr(p)));
        }
        i += 1;
    }
    proof {
        assert(views(parts@).take(parts@.len() as int) =~= views(parts@));
    }
    let ghost ended = views(out@);
    let ghost old_out = out@;
    if !is_empty_text(last.as_str()) {
        out.push(last);
        proof {
            assert(views(out@) =~= views(old_out).push(last@));
        }
    }
    out
}

/// The text made of `parts` with `sep` between neighbours.
pub fn join(parts: &Vec<String>, sep: &str) -> (r: String)
    ensures
        r@ == joined(views(parts@), sep@),
{
    let mut out = String::new();
    let mut i: usize = 0;
    while i < parts.len()
        invariant
            i <= parts.len(),
            out@ == joined(views(parts@).take(i as int), sep@),
        decreases parts.len() - i,
    {
        let ghost before = out@;
        if i > 0 {
            out.append(sep);
        }
        out.append(parts[i].as_str());
        proof {
            let t = views(parts@).take(i + 1);
            assert(t.drop_last() =~= views(parts@).take(i as int));
            assert(t.last() == parts@[i as int]@);
            if i == 0 {
                assert(before =~= Seq::<char>::empty());
                assert(out@ =~= parts@[0]@);
            }
        }
        i += 1;
    }
    proof {
        assert(views(parts@).take(parts@.len() as int) =~= views(parts@));
    }
    out
}

// ---------------------------------------------------------------------------
// Numbers
// ---------------------------------------------------------------------------

/// The decimal digit of `d`.
pub open spec fn digit(d: nat) -> char {
    if d == 0 {
        '0'
    } else if d == 1 {
        '1'
    } else if d == 2 {
        '2'
    } else if d == 3 {
        '3'
    } else if d == 4 {
        '4'
    } else if d == 5 {
        '5'
    } else if d == 6 {
        '6'
    } else if d == 7 {
        '7'
    } else if d == 8 {
        '8'
    } else {
        '9'
    }
}

/// `n` written in decimal.
pub open spec fn decimal(n: nat) -> Seq<char>
    decreases n,
{
    if n < 10 {
        seq![digit(n)]
    } else {
        decimal(n / 10).push(digit(n % 10))
    }
}

/// A signed number written in decimal.
pub open spec fn decimal_int(n: int) -> Seq<char> {
    if n < 0 {
        seq!['-'] + decimal((-n) as nat)
    } else {
        decimal(n as nat)
    }
}

/// The number that a row of decimal digits stands for.
pub open spec fn digits_value(s: Seq<char>) -> nat
    decreases s.len(),
{
    if s.len() == 0 {
        0
    } else {
        10 * digits_value(s.drop_last()) + (s.last() as u32 - '0' as u32) as nat
    }
}

/// Reading back what `decimal` wrote gives the number.
pub proof fn law_decimal_reads_back(n: nat)
    ensures
        digits_value(decimal(n)) == n,
        decimal(n).len() >= 1,
        forall|i: int| 0 <= i < decimal(n).len() ==> '0' <= #[trigger] decimal(n)[i] <= '9',
    decreases n,
{
    reveal_with_fuel(digits_value, 2);
    if n >= 10 {
        law_decimal_reads_back(n / 10);
        assert(decimal(n).drop_last() =~= decimal(n / 10));
    } else {
        assert(decimal(n).drop_last() =~= Seq::<char>::empty());
    }
}

fn digit_char(d: u64) -> (r: char)
    requires
        d < 10,
    ensures
        r == digit(d as nat),
{
    match d {
        0 => '0',
        1 => '1',
        2 => '2',
        3 => '3',
        4 => '4',
        5 => '5',
        6 => '6',
        7 => '7',
        8 => '8',
        _ => '9',
    }
}

/// `n` written in decimal.
pub fn decimal_text(n: u64) -> (r: String)
    ensures
        r@ == decimal(n as nat),
    decreases n,
{
    if n < 10 {
        let mut out = String::new();
        out.push(digit_char(n));
        proof {
            assert(out@ =~= seq![digit(n as nat)]);
        }
        out
    } else {
        let mut out = decimal_text(n / 10);
        out.push(digit_char(n % 10));
        out
    }
}

/// A signed number written in decimal.
pub fn decimal_int_text(n: i64) -> (r: String)
    ensures
        r@ == decimal_int(n as int),
{
    if n < 0 {
        let magnitude: u64 = (-(n as i128)) as u64;
        let mut out = String::new();
        out.push('-');
        let digits = decimal_text(magnitude);
        out.append(digits.as_str());
        proof {
            assert(out@ =~= seq!['-'] + decimal((-n) as nat));
        }
        out
    } else {
        decimal_text(n as u64)
    }
}

/// `s` followed by as many spaces as bring it to `width` characters.
pub open spec fn padded(s: Seq<char>, width: nat) -> Seq<char> {
    if s.len() >= width {
        s
    } else {
        s + Seq::new((width - s.len()) as nat, |i: int| ' ')
    }
}

/// `s` padded on the right with spaces to `width` characters.
pub fn pad_right(s: &str, width: usize) -> (r: String)
    ensures
        r@ == padded(s@, width as nat),
{
    let n: usize = chars_of(s).len();
    let mut out = s.to_owned();
    let mut i: usize = n;
    while i < width
        invariant
            n == s@.len(),
            i >= n,
            i <= width || i == n,
            out@ == s@ + Seq::new((i - n) as nat, |k: int| ' '),
        decreases width - i,
    {
        let ghost before = out@;
        out.push(' ');
        proof {
            assert(before.push(' ') =~= s@ + Seq::new((i + 1 - n) as nat, |k: int| ' '));
        }
        i += 1;
    }
    proof {
        if n >= width {
            assert(out@ =~= s@);
        }
    }
    out
}

// ---------------------------------------------------------------------------
// Numbers read from text
// ---------------------------------------------------------------------------

/// A text of decimal digits, at least one.
pub open spec fn is_digits(s: Seq<char>) -> bool {
    s.len() > 0 && forall|i: int| 0 <= i < s.len() ==> '0' <= #[trigger] s[i] <= '9'
}

/// The number that a text stands for, where it is one that fits.
pub open spec fn number_in(s: Seq<char>, max: nat) -> Option<nat> {
    if is_digits(s) && digits_value(s) <= max {
        Some(digits_value(s))
    } else {
        None
    }
}

proof fn lemma_digits_grow(s: Seq<char>, i: int)
    requires
        is_digits(s),
        0 <= i <= s.len(),
    ensures
        digits_value(s.take(i)) <= digits_value(s),
    decreases s.len() - i,
{
    if i < s.len() {
        lemma_digits_grow(s, i + 1);
        assert(s.take(i + 1).drop_last() =~= s.take(i));
        assert(s.take(i + 1).last() == s[i]);
    } else {
        assert(s.take(i) =~= s);
    }
}

/// The number that a text stands for, where it is one that fits.
pub fn parse_u64(s: &str) -> (r: Option<u64>)
    ensures
        match r {
            Some(n) => number_in(s@, u64::MAX as nat) == Some(n as nat),
            None => number_in(s@, u64::MAX as nat) is None,
        },
{
    let v = chars_of(s);
    if v.len() == 0 {
        return None;
    }
    let mut k: usize = 0;
    while k < v.len()
        invariant
            k <= v@.len(),
            v@ == s@,
            forall|i: int| 0 <= i < k ==> '0' <= #[trigger] v@[i] <= '9',
        decreases v.len() - k,
    {
        let c = v[k];
        if c < '0' || c > '9' {
            proof {
                assert(!('0' <= s@[k as int] <= '9'));
            }
            return None;
        }
        k += 1;
    }
    let mut n: u64 = 0;
    let mut i: usize = 0;
    proof {
        assert(v@.take(0) =~= Seq::<char>::empty());
    }
    while i < v.len()
        invariant
            i <= v@.len(),
            v@ == s@,
            is_digits(s@),
            n == digits_value(v@.take(i as int)),
        decreases v.len() - i,
    {
        let d: u64 = (v[i] as u32 - '0' as u32) as u64;
        proof {
            assert(v@.take(i + 1).drop_last() =~= v@.take(i as int));
            assert(v@.take(i + 1).last() == v@[i as int]);
            lemma_digits_grow(s@, i + 1);
        }
        n = match n.checked_mul(10) {
            Some(m) => match m.checked_add(d) {
                Some(m) => m,
                None => {
                    return None;
                },
            },
            None => {
                return None;
            },
        };
        i += 1;
    }
    proof {
        assert(v@.take(i as int) =~= s@);
    }
    Some(n)
}

// ---------------------------------------------------------------------------
// Order
// ---------------------------------------------------------------------------

/// Whether a text comes before another: by the first character in which they
/// differ, the shorter one first where they do not.
pub open spec fn precedes(a: Seq<char>, b: Seq<char>) -> bool
    decreases a.len(),
{
    if b.len() == 0 {
        false
    } else if a.len() == 0 {
        true
    } else if a[0] != b[0] {
        (a[0] as int) < (b[0] as int)
    } else {
        precedes(a.skip(1), b.skip(1))
    }
}

/// No text comes before itself.
pub proof fn lemma_precedes_irreflexive(a: Seq<char>)
    ensures
        !precedes(a, a),
    decreases a.len(),
{
    if a.len() > 0 {
        lemma_precedes_irreflexive(a.skip(1));
    }
}

/// Coming before is transitive.
pub proof fn lemma_precedes_transitive(a: Seq<char>, b: Seq<char>, c: Seq<char>)
    requires
        precedes(a, b),
        precedes(b, c),
    ensures
        precedes(a, c),
    decreases a.len(),
{
    if a.len() > 0 && a[0] == b[0] && b[0] == c[0] {
        lemma_precedes_transitive(a.skip(1), b.skip(1), c.skip(1));
    }
}

/// Of two texts that differ, one comes before the other.
pub proof fn lemma_precedes_total(a: Seq<char>, b: Seq<char>)
    ensures
        a == b || precedes(a, b) || precedes(b, a),
    decreases a.len(),
{
    if a.len() > 0 && b.len() > 0 && a[0] == b[0] {
        lemma_precedes_total(a.skip(1), b.skip(1));
        if a.skip(1) == b.skip(1) {
            assert(a =~= seq![a[0]] + a.skip(1));
            assert(b =~= seq![b[0]] + b.skip(1));
        }
    } else if a.len() == 0 && b.len() == 0 {
        assert(a =~= b);
    }
}

/// A text comes before another where they first differ in a smaller character.
pub proof fn lemma_precedes_at(a: Seq<char>, b: Seq<char>, i: int)
    requires
        0 <= i < a.len(),
        i < b.len(),
        forall|k: int| 0 <= k < i ==> a[k] == b[k],
        (a[i] as int) < (b[i] as int),
    ensures
        precedes(a, b),
    decreases i,
{
    if i > 0 {
        assert(a[0] == b[0]);
        assert forall|k: int| 0 <= k < i - 1 implies a.skip(1)[k] == b.skip(1)[k] by {
            assert(a.skip(1)[k] == a[k + 1]);
            assert(b.skip(1)[k] == b[k + 1]);
        }
        lemma_precedes_at(a.skip(1), b.skip(1), i - 1);
    }
}

// ---------------------------------------------------------------------------
// Laws
// ---------------------------------------------------------------------------

proof fn lemma_split_behind(line: Seq<char>, sep: char, rest: Seq<char>)
    requires
        !line.contains(sep),
    ensures
        split_on(line.push(sep) + rest, sep) == seq![line] + split_on(rest, sep),
    decreases rest.len(),
{
    let whole = line.push(sep) + rest;
    law_split_then_join(rest, sep);
    if rest.len() == 0 {
        assert(whole =~= line.push(sep));
        assert(whole.drop_last() =~= line);
        lemma_split_single(line, sep);
        assert(split_on(whole, sep) =~= seq![line] + split_on(rest, sep));
    } else {
        assert(whole.drop_last() =~= line.push(sep) + rest.drop_last());
        lemma_split_behind(line, sep, rest.drop_last());
        law_split_then_join(rest.drop_last(), sep);
        let before = split_on(rest.drop_last(), sep);
        assert((seq![line] + before).drop_last() =~= seq![line] + before.drop_last());
        assert(split_on(whole, sep) =~= seq![line] + split_on(rest, sep));
    }
}

/// A line feed, alone or behind a carriage return, ends a line and is not part of
/// it; what follows is lines again. A text without line feeds is one line, and
/// the empty text is none.
pub proof fn law_line_feeds_end_lines(line: Seq<char>, rest: Seq<char>)
    requires
        !line.contains('\n'),
    ensures
        lines_of(Seq::<char>::empty()) == Seq::<Seq<char>>::empty(),
        line.len() > 0 ==> lines_of(line) == seq![line],
        line.len() == 0 || line.last() != '\r' ==> lines_of(line.push('\n') + rest) == seq![line]
            + lines_of(rest),
        lines_of(line.push('\r').push('\n') + rest) == seq![line] + lines_of(rest),
{
    lemma_split_single(line, '\n');
    lemma_split_single(Seq::<char>::empty(), '\n');
    assert(lines_of(Seq::<char>::empty()) =~= Seq::<Seq<char>>::empty());
    assert(lines_of(line) =~= if line.len() > 0 {
        seq![line]
    } else {
        Seq::<Seq<char>>::empty()
    });
    law_split_then_join(rest, '\n');
    lemma_lines_behind(line, rest);
    let returned = line.push('\r');
    assert(!returned.contains('\n')) by {
        if returned.contains('\n') {
            let k = choose|k: int| 0 <= k < returned.len() && returned[k] == '\n';
            assert(line[k] == '\n');
        }
    }
    lemma_lines_behind(returned, rest);
    assert(without_cr(returned) =~= line);
}

proof fn lemma_lines_behind(line: Seq<char>, rest: Seq<char>)
    requires
        !line.contains('\n'),
    ensures
        lines_of(line.push('\n') + rest) == seq![without_cr(line)] + lines_of(rest),
{
    lemma_split_behind(line, '\n', rest);
    law_split_then_join(rest, '\n');
    let parts = split_on(rest, '\n');
    let all = seq![line] + parts;
    let f = |p: Seq<char>| without_cr(p);
    assert(all.drop_last() =~= seq![line] + parts.drop_last());
    assert(all.drop_last().map_values(f) =~= seq![without_cr(line)] + parts.drop_last().map_values(f));
    assert(all.last() == parts.last());
    assert(lines_of(line.push('\n') + rest) =~= seq![without_cr(line)] + lines_of(rest));
}

proof fn lemma_trimmed_start(s: Seq<char>) -> (i: int)
    ensures
        0 <= i <= s.len(),
        trimmed_start(s) == s.skip(i),
        forall|k: int| 0 <= k < i ==> is_white(#[trigger] s[k]),
        i < s.len() ==> !is_white(s[i]),
    decreases s.len(),
{
    if s.len() > 0 && is_white(s[0]) {
        let i = lemma_trimmed_start(s.skip(1));
        assert(s.skip(1).skip(i) =~= s.skip(i + 1));
        assert forall|k: int| 0 <= k < i + 1 implies is_white(#[trigger] s[k]) by {
            if k > 0 {
                assert(s.skip(1)[k - 1] == s[k]);
            }
        }
        if i + 1 < s.len() {
            assert(s.skip(1)[i] == s[i + 1]);
        }
        i + 1
    } else {
        assert(s.skip(0) =~= s);
        0
    }
}

proof fn lemma_trimmed_end(s: Seq<char>) -> (n: int)
    ensures
        0 <= n <= s.len(),
        trimmed_end(s) == s.take(n),
        forall|k: int| n <= k < s.len() ==> is_white(#[trigger] s[k]),
        n > 0 ==> !is_white(s[n - 1]),
    decreases s.len(),
{
    if s.len() > 0 && is_white(s.last()) {
        let n = lemma_trimmed_end(s.drop_last());
        assert(s.drop_last().take(n) =~= s.take(n));
        assert forall|k: int| n <= k < s.len() implies is_white(#[trigger] s[k]) by {
            if k < s.len() - 1 {
                assert(s.drop_last()[k] == s[k]);
            }
        }
        n
    } else {
        assert(s.take(s.len() as int) =~= s);
        s.len() as int
    }
}

/// Trimming takes white space from the two ends of a text and nothing else: what
/// is left is a piece of the text, all around it is white, and it begins and ends
/// with something that is not.
pub proof fn law_trimming_takes_white_ends(s: Seq<char>)
    ensures
        exists|i: int, j: int|
            0 <= i <= j <= s.len() && trimmed(s) == #[trigger] s.subrange(i, j) && all_white(
                s.take(i),
            ) && all_white(s.skip(j)),
        trimmed(s).len() > 0 ==> !is_white(trimmed(s)[0]) && !is_white(trimmed(s).last()),
{
    let i = lemma_trimmed_start(s);
    let rest = s.skip(i);
    let n = lemma_trimmed_end(rest);
    assert(rest.take(n) =~= s.subrange(i, i + n));
    assert forall|k: int| 0 <= k < s.take(i).len() implies is_white(#[trigger] s.take(i)[k]) by {
        assert(s.take(i)[k] == s[k]);
    }
    assert forall|k: int| 0 <= k < s.skip(i + n).len() implies is_white(
        #[trigger] s.skip(i + n)[k],
    ) by {
        assert(s.skip(i + n)[k] == rest[n + k]);
    }
    if n > 0 {
        assert(rest[0] == s[i]);
    }
}

/// A padded text is the text with blanks behind it, as many as it takes to reach
/// the width.
pub proof fn law_padding_adds_blanks(s: Seq<char>, width: nat)
    ensures
        padded(s, width).len() == (if s.len() < width {
            width
        } else {
            s.len()
        }),
        padded(s, width).take(s.len() as int) == s,
        forall|i: int|
            s.len() <= i < padded(s, width).len() ==> #[trigger] padded(s, width)[i] == ' ',
{
    assert(padded(s, width).take(s.len() as int) =~= s);
}

/// Texts are joined in their order with the separator between them, and nowhere
/// else.
pub proof fn law_joining_puts_the_separator_between(a: Seq<char>, b: Seq<char>, sep: Seq<char>)
    ensures
        joined(Seq::empty(), sep) == Seq::<char>::empty(),
        joined(seq![a], sep) == a,
        joined(seq![a, b], sep) == a + sep + b,
{
    reveal_with_fuel(joined, 3);
    assert(seq![a, b].drop_last() =~= seq![a]);
}

/// One more text comes behind the others, after a separator.
pub proof fn law_joining_goes_on_behind(v: Seq<Seq<char>>, last: Seq<char>, sep: Seq<char>)
    requires
        v.len() > 0,
    ensures
        joined(v.push(last), sep) == joined(v, sep) + sep + last,
{
    assert(v.push(last).drop_last() =~= v);
}

/// Capitals of ASCII become small and nothing else changes, so that doing it twice is
/// doing it once.
pub proof fn law_small_letters_stay_small(s: Seq<char>, i: int)
    requires
        0 <= i < s.len(),
    ensures
        lower(s).len() == s.len(),
        'A' <= s[i] <= 'Z' ==> 'a' <= lower(s)[i] <= 'z' && lower(s)[i] as u32 == s[i] as u32 + 32,
        !('A' <= s[i] <= 'Z') ==> lower(s)[i] == s[i],
        lower(lower(s)) == lower(s),
{
    assert(lower(lower(s)) =~= lower(s));
}

/// A character is replaced wherever it stands, and no other is.
pub proof fn law_one_character_is_replaced(s: Seq<char>, from: char, to: char, i: int)
    requires
        0 <= i < s.len(),
    ensures
        replaced(s, from, to).len() == s.len(),
        s[i] == from ==> replaced(s, from, to)[i] == to,
        s[i] != from ==> replaced(s, from, to)[i] == s[i],
{
}

/// Texts are in the order of their first difference, and a text comes before what it
/// begins.
pub proof fn law_texts_are_in_the_order_of_their_first_difference(
    head: Seq<char>,
    a: char,
    b: char,
    rest: Seq<char>,
    other: Seq<char>,
)
    ensures
        (a as int) < (b as int) ==> precedes(head.push(a) + rest, head.push(b) + other),
        precedes(head, head.push(a) + rest),
        !precedes(head, head),
    decreases head.len(),
{
    lemma_precedes_irreflexive(head);
    let x = head.push(a) + rest;
    let y = head.push(b) + other;
    if head.len() == 0 {
        assert(x[0] == a && y[0] == b);
    } else {
        law_texts_are_in_the_order_of_their_first_difference(head.skip(1), a, b, rest, other);
        assert(x.skip(1) =~= head.skip(1).push(a) + rest);
        assert(y.skip(1) =~= head.skip(1).push(b) + other);
        assert(x[0] == head[0] && y[0] == head[0]);
    }
}

/// A negative number is written with its sign before it.
pub proof fn law_a_sign_stands_before_its_number(n: nat)
    ensures
        decimal_int(n as int) == decimal(n),
        n > 0 ==> decimal_int(-(n as int)) == seq!['-'] + decimal(n),
        number_in(decimal(n), n) == Some(n),
{
    law_decimal_reads_back(n);
    lemma_decimal_is_digits(n);
}

proof fn lemma_decimal_is_digits(n: nat)
    ensures
        is_digits(decimal(n)),
    decreases n,
{
    if n >= 10 {
        lemma_decimal_is_digits(n / 10);
        let s = decimal(n / 10);
        assert forall|i: int| 0 <= i < decimal(n).len() implies '0' <= #[trigger] decimal(n)[i]
            <= '9' by {
            if i < s.len() {
                assert(decimal(n)[i] == s[i]);
            }
        }
    }
}

} // verus!
