//! How many bytes texts take, and parts of texts that take no more than some.

use vstd::prelude::*;

use crate::text::{chars_of, string_of};

verus! {

/// The bytes of a character in UTF-8.
pub open spec fn char_bytes(c: char) -> nat {
    if (c as int) < 0x80 {
        1
    } else if (c as int) < 0x800 {
        2
    } else if (c as int) < 0x10000 {
        3
    } else {
        4
    }
}

/// The bytes of a text in UTF-8.
pub open spec fn byte_len(s: Seq<char>) -> nat
    decreases s.len(),
{
    if s.len() == 0 {
        0
    } else {
        byte_len(s.drop_last()) + char_bytes(s.last())
    }
}

/// The longest end of a text that takes no more than some bytes.
pub open spec fn byte_tail(s: Seq<char>, max: nat) -> Seq<char>
    decreases s.len(),
{
    if byte_len(s) <= max {
        s
    } else {
        byte_tail(s.skip(1), max)
    }
}

/// The longest beginning of a text that takes no more than some bytes.
pub open spec fn byte_head(s: Seq<char>, max: nat) -> Seq<char>
    decreases s.len(),
{
    if byte_len(s) <= max {
        s
    } else {
        byte_head(s.drop_last(), max)
    }
}

/// The bytes of two texts in a row.
pub proof fn lemma_byte_len_adds_up(a: Seq<char>, b: Seq<char>)
    ensures
        byte_len(a + b) == byte_len(a) + byte_len(b),
    decreases b.len(),
{
    if b.len() == 0 {
        assert(a + b =~= a);
    } else {
        assert((a + b).drop_last() =~= a + b.drop_last());
        lemma_byte_len_adds_up(a, b.drop_last());
    }
}

proof fn lemma_first_byte(s: Seq<char>)
    requires
        s.len() > 0,
    ensures
        byte_len(s) == char_bytes(s[0]) + byte_len(s.skip(1)),
{
    assert(s =~= seq![s[0]] + s.skip(1));
    lemma_byte_len_adds_up(seq![s[0]], s.skip(1));
    assert(byte_len(seq![s[0]]) == char_bytes(s[0])) by {
        reveal_with_fuel(byte_len, 2);
        assert(seq![s[0]].drop_last() =~= Seq::<char>::empty());
    }
}

/// The bytes of a text, between its length and four times that.
pub proof fn lemma_byte_len_bounds(s: Seq<char>)
    ensures
        s.len() <= byte_len(s) <= 4 * s.len(),
    decreases s.len(),
{
    if s.len() > 0 {
        lemma_byte_len_bounds(s.drop_last());
    }
}

fn bytes_of(c: char) -> (r: u64)
    ensures
        r == char_bytes(c),
{
    let code: u32 = c as u32;
    if code < 0x80 {
        1
    } else if code < 0x800 {
        2
    } else if code < 0x10000 {
        3
    } else {
        4
    }
}

fn total_bytes(v: &Vec<char>) -> (r: u128)
    ensures
        r == byte_len(v@),
{
    let mut total: u128 = 0;
    let mut i: usize = 0;
    proof {
        assert(v@.take(0) =~= Seq::<char>::empty());
    }
    while i < v.len()
        invariant
            i <= v@.len(),
            total == byte_len(v@.take(i as int)),
            total <= 4 * i,
        decreases v.len() - i,
    {
        proof {
            assert(v@.take(i + 1).drop_last() =~= v@.take(i as int));
        }
        total = total + bytes_of(v[i]) as u128;
        i += 1;
    }
    proof {
        assert(v@.take(i as int) =~= v@);
    }
    total
}

/// Whether a text takes no more than some bytes.
pub fn fits_bytes(s: &str, max: usize) -> (r: bool)
    ensures
        r == (byte_len(s@) <= max),
{
    let v = chars_of(s);
    total_bytes(&v) <= max as u128
}

/// The longest end of a text that takes no more than some bytes.
pub fn tail_within(s: &str, max: usize) -> (r: String)
    ensures
        r@ == byte_tail(s@, max as nat),
{
    let v = chars_of(s);
    let mut left: u128 = total_bytes(&v);
    let mut i: usize = 0;
    proof {
        assert(v@.skip(0) =~= v@);
    }
    while left > max as u128
        invariant
            i <= v@.len(),
            left == byte_len(v@.skip(i as int)),
            byte_tail(v@, max as nat) == byte_tail(v@.skip(i as int), max as nat),
        decreases v.len() - i,
    {
        proof {
            assert(i < v@.len()) by {
                if i == v@.len() {
                    assert(v@.skip(i as int) =~= Seq::<char>::empty());
                }
            }
            lemma_first_byte(v@.skip(i as int));
            assert(v@.skip(i as int).skip(1) =~= v@.skip(i + 1));
        }
        left = left - bytes_of(v[i]) as u128;
        i += 1;
    }
    proof {
        assert(v@.subrange(i as int, v@.len() as int) =~= v@.skip(i as int));
    }
    string_of(&v, i, v.len())
}

/// The longest beginning of a text that takes no more than some bytes.
pub fn head_within(s: &str, max: usize) -> (r: String)
    ensures
        r@ == byte_head(s@, max as nat),
{
    let v = chars_of(s);
    let mut left: u128 = total_bytes(&v);
    let mut i: usize = v.len();
    proof {
        assert(v@.take(i as int) =~= v@);
    }
    while left > max as u128
        invariant
            i <= v@.len(),
            left == byte_len(v@.take(i as int)),
            byte_head(v@, max as nat) == byte_head(v@.take(i as int), max as nat),
        decreases i,
    {
        proof {
            assert(i > 0) by {
                if i == 0 {
                    assert(v@.take(0) =~= Seq::<char>::empty());
                }
            }
            assert(v@.take(i as int).drop_last() =~= v@.take(i - 1));
        }
        i -= 1;
        left = left - bytes_of(v[i]) as u128;
    }
    proof {
        assert(v@.subrange(0, i as int) =~= v@.take(i as int));
    }
    string_of(&v, 0, i)
}

/// The end of a text that takes no more than some bytes does, and with one more
/// character it would not.
pub proof fn law_tail_is_the_longest(s: Seq<char>, max: nat)
    ensures
        ({
            let tail = byte_tail(s, max);
            &&& byte_len(tail) <= max
            &&& tail.len() <= s.len()
            &&& tail == s.skip(s.len() - tail.len())
            &&& tail.len() < s.len() ==> byte_len(s.skip(s.len() - tail.len() - 1)) > max
        }),
    decreases s.len(),
{
    if byte_len(s) <= max {
        assert(s.skip(0) =~= s);
    } else {
        let rest = s.skip(1);
        law_tail_is_the_longest(rest, max);
        let tail = byte_tail(rest, max);
        assert(rest.skip(rest.len() - tail.len()) =~= s.skip(s.len() - tail.len()));
        if tail.len() < rest.len() {
            assert(rest.skip(rest.len() - tail.len() - 1) =~= s.skip(s.len() - tail.len() - 1));
        } else {
            assert(s.skip(0) =~= s);
        }
    }
}

// ---------------------------------------------------------------------------
// Laws
// ---------------------------------------------------------------------------

/// The head of a text is the longest that fits: it begins the text, and one more
/// character would be too much.
pub proof fn law_head_is_the_longest(s: Seq<char>, max: nat)
    ensures
        byte_head(s, max).is_prefix_of(s),
        byte_len(byte_head(s, max)) <= max,
        byte_head(s, max).len() < s.len() ==> byte_len(s.take(byte_head(s, max).len() + 1int)) > max,
    decreases s.len(),
{
    if byte_len(s) <= max {
        assert(s.is_prefix_of(s));
    } else {
        let rest = s.drop_last();
        law_head_is_the_longest(rest, max);
        let head = byte_head(rest, max);
        assert(head.is_prefix_of(s)) by {
            assert(rest.subrange(0, head.len() as int) =~= s.subrange(0, head.len() as int));
        }
        if head.len() < rest.len() {
            assert(s.take(head.len() + 1int) =~= rest.take(head.len() + 1int));
        } else {
            assert(s.take(head.len() + 1int) =~= s);
        }
    }
}

/// A character takes as many bytes as its encoding has.
pub proof fn law_characters_take_one_to_four_bytes(c: char)
    ensures
        (c as int) < 0x80 <==> char_bytes(c) == 1,
        0x80 <= (c as int) < 0x800 <==> char_bytes(c) == 2,
        0x800 <= (c as int) < 0x10000 <==> char_bytes(c) == 3,
        (c as int) >= 0x10000 <==> char_bytes(c) == 4,
        byte_len(seq![c]) == char_bytes(c),
        byte_len(Seq::<char>::empty()) == 0,
{
    reveal_with_fuel(byte_len, 2);
    assert(seq![c].drop_last() =~= Seq::<char>::empty());
}

} // verus!
