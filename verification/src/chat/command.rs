//! The command of a tool call as rows: one for each of its statements.

use vstd::prelude::*;

use crate::text::{
    all_white, cat, cat3, chars_of, decimal, decimal_text, is_empty_text, joined,
    lemma_joined_grow_last, lemma_trimmed_blank, string_of, trim, trimmed, views,
};

verus! {

/// The most statements of a command that are shown.
pub const MAX_COMMAND_STATEMENTS: usize = 6;

/// What surrounds a place of a command.
#[verifier::ext_equal]
pub struct Nesting {
    /// The quotation mark that is open.
    pub quote: Option<char>,
    /// Whether the character before takes the meaning off the next one.
    pub escaped: bool,
    /// How many brackets are open.
    pub depth: nat,
}

/// Whether a character opens a bracket.
pub open spec fn opens(c: char) -> bool {
    c == '(' || c == '{' || c == '['
}

/// Whether a character closes a bracket.
pub open spec fn closes(c: char) -> bool {
    c == ')' || c == '}' || c == ']'
}

/// Whether a character is a quotation mark.
pub open spec fn quotes(c: char) -> bool {
    c == '\'' || c == '"'
}

impl Nesting {
    /// What surrounds the place behind a character.
    pub open spec fn past(self, c: char) -> Nesting {
        if self.escaped {
            Nesting { escaped: false, ..self }
        } else if c == '`' && self.quote != Some('\'') {
            Nesting { escaped: true, ..self }
        } else if self.quote is Some {
            if self.quote == Some(c) {
                Nesting { quote: None, ..self }
            } else {
                self
            }
        } else if quotes(c) {
            Nesting { quote: Some(c), ..self }
        } else if opens(c) {
            Nesting { depth: self.depth + 1, ..self }
        } else if closes(c) && self.depth > 0 {
            Nesting { depth: (self.depth - 1) as nat, ..self }
        } else {
            self
        }
    }
}

/// Nothing surrounds the place.
pub open spec fn top_level() -> Nesting {
    Nesting { quote: None, escaped: false, depth: 0 }
}

/// What surrounds the end of a text.
pub open spec fn nesting(s: Seq<char>) -> Nesting
    decreases s.len(),
{
    if s.len() == 0 {
        top_level()
    } else {
        nesting(s.drop_last()).past(s.last())
    }
}

/// The pieces of a command between the semicolons at its top level.
pub open spec fn pieces(s: Seq<char>) -> Seq<Seq<char>>
    decreases s.len(),
{
    if s.len() == 0 {
        seq![Seq::<char>::empty()]
    } else {
        let before = pieces(s.drop_last());
        if s.last() == ';' && nesting(s.drop_last()) == top_level() {
            before.push(Seq::<char>::empty())
        } else {
            before.drop_last().push(before.last().push(s.last()))
        }
    }
}

/// The pieces that are not blank, without the white space at their ends.
pub open spec fn non_blank(parts: Seq<Seq<char>>) -> Seq<Seq<char>>
    decreases parts.len(),
{
    if parts.len() == 0 {
        Seq::empty()
    } else if trimmed(parts.last()).len() == 0 {
        non_blank(parts.drop_last())
    } else {
        non_blank(parts.drop_last()).push(trimmed(parts.last()))
    }
}

/// The statements of a command.
pub open spec fn statements(command: Seq<char>) -> Seq<Seq<char>> {
    non_blank(pieces(command))
}

/// The row of a statement.
pub open spec fn statement_row(statement: Seq<char>) -> Seq<char> {
    "    $ "@ + statement
}

/// The row that stands for the statements that are not shown.
pub open spec fn folded_row(n: nat) -> Seq<char> {
    "    +"@ + decimal(n) + " more"@
}

/// The rows of a command: one for each of its statements, as far as they are
/// shown, and one for all the others.
pub open spec fn command_rows(command: Seq<char>) -> Seq<Seq<char>> {
    let all = statements(command).map_values(|s: Seq<char>| statement_row(s));
    if all.len() <= MAX_COMMAND_STATEMENTS {
        all
    } else {
        all.take(MAX_COMMAND_STATEMENTS as int).push(
            folded_row((all.len() - MAX_COMMAND_STATEMENTS) as nat),
        )
    }
}

fn split_statements(command: &str) -> (r: Vec<String>)
    ensures
        views(r@) == pieces(command@),
{
    let v = chars_of(command);
    let mut out: Vec<String> = Vec::new();
    let mut start: usize = 0;
    let mut i: usize = 0;
    let mut quote: Option<char> = None;
    let mut escaped: bool = false;
    let mut depth: usize = 0;
    proof {
        assert(command@.take(0) =~= Seq::<char>::empty());
        assert(views(out@).push(command@.subrange(0, 0)) =~= pieces(command@.take(0)));
    }
    while i < v.len()
        invariant
            start <= i <= v.len(),
            v@ == command@,
            depth <= i,
            nesting(command@.take(i as int)) == (Nesting { quote, escaped, depth: depth as nat }),
            pieces(command@.take(i as int)) == views(out@).push(
                command@.subrange(start as int, i as int),
            ),
        decreases v.len() - i,
    {
        let c = v[i];
        let splits = match quote {
            Some(_) => false,
            None => c == ';' && !escaped && depth == 0,
        };
        let ghost old_out = out@;
        let ghost old_start = start as int;
        proof {
            assert(command@.take(i + 1).drop_last() =~= command@.take(i as int));
            assert(command@.take(i + 1).last() == c);
        }
        if splits {
            out.push(string_of(&v, start, i));
            start = i + 1;
            proof {
                assert(views(out@) =~= views(old_out).push(
                    command@.subrange(old_start, i as int),
                ));
                assert(command@.subrange(i + 1, i + 1) =~= Seq::<char>::empty());
            }
        } else {
            proof {
                let p = views(out@).push(command@.subrange(start as int, i as int));
                assert(p.drop_last() =~= views(out@));
                assert(command@.subrange(start as int, i + 1) =~= command@.subrange(
                    start as int,
                    i as int,
                ).push(c));
            }
        }
        if escaped {
            escaped = false;
        } else if c == '`' && !is_single_quote(quote) {
            escaped = true;
        } else if let Some(open) = quote {
            if open == c {
                quote = None;
            }
        } else if c == '\'' || c == '"' {
            quote = Some(c);
        } else if c == '(' || c == '{' || c == '[' {
            depth += 1;
        } else if (c == ')' || c == '}' || c == ']') && depth > 0 {
            depth -= 1;
        }
        i += 1;
    }
    let ghost old_out = out@;
    out.push(string_of(&v, start, v.len()));
    proof {
        assert(command@.take(command@.len() as int) =~= command@);
        assert(views(out@) =~= views(old_out).push(
            command@.subrange(start as int, command@.len() as int),
        ));
    }
    out
}

fn is_single_quote(quote: Option<char>) -> (r: bool)
    ensures
        r == (quote == Some('\'')),
{
    match quote {
        Some(c) => c == '\'',
        None => false,
    }
}

/// The rows of a command: each statement on a row of its own, and a long
/// remainder folded into one.
pub fn command_display_lines(command: &str) -> (r: Vec<String>)
    ensures
        views(r@) == command_rows(command@),
{
    let parts = split_statements(command);
    let mut rows: Vec<String> = Vec::new();
    let mut count: u64 = 0;
    let mut i: usize = 0;
    let ghost row = |s: Seq<char>| statement_row(s);
    proof {
        assert(views(parts@).take(0) =~= Seq::<Seq<char>>::empty());
        assert(views(rows@) =~= Seq::<Seq<char>>::empty());
    }
    while i < parts.len()
        invariant
            i <= parts.len(),
            count <= i,
            row == (|s: Seq<char>| statement_row(s)),
            count == non_blank(views(parts@).take(i as int)).len(),
            views(rows@) == non_blank(views(parts@).take(i as int)).map_values(row).take(
                if count <= MAX_COMMAND_STATEMENTS {
                    count as int
                } else {
                    MAX_COMMAND_STATEMENTS as int
                },
            ),
        decreases parts.len() - i,
    {
        let statement = trim(parts[i].as_str());
        let ghost before = non_blank(views(parts@).take(i as int));
        let ghost after = non_blank(views(parts@).take(i + 1));
        proof {
            assert(views(parts@).take(i + 1).drop_last() =~= views(parts@).take(i as int));
            assert(views(parts@).take(i + 1).last() == parts@[i as int]@);
        }
        if !is_empty_text(statement.as_str()) {
            let ghost old_rows = rows@;
            proof {
                assert(after == before.push(statement@));
                assert(after.map_values(row) =~= before.map_values(row).push(
                    statement_row(statement@),
                ));
            }
            if count < MAX_COMMAND_STATEMENTS as u64 {
                rows.push(cat("    $ ", statement.as_str()));
                proof {
                    assert(views(rows@) =~= views(old_rows).push(statement_row(statement@)));
                    assert(views(rows@) =~= after.map_values(row).take(count + 1));
                }
            } else {
                proof {
                    assert(views(rows@) =~= after.map_values(row).take(
                        MAX_COMMAND_STATEMENTS as int,
                    ));
                }
            }
            count += 1;
        }
        i += 1;
    }
    proof {
        assert(views(parts@).take(i as int) =~= pieces(command@));
    }
    let ghost all = statements(command@).map_values(row);
    if count > MAX_COMMAND_STATEMENTS as u64 {
        let ghost old_rows = rows@;
        let hidden = decimal_text(count - MAX_COMMAND_STATEMENTS as u64);
        rows.push(cat3("    +", hidden.as_str(), " more"));
        proof {
            assert(views(rows@) =~= views(old_rows).push(
                folded_row((all.len() - MAX_COMMAND_STATEMENTS) as nat),
            ));
        }
    } else {
        proof {
            assert(all.take(count as int) =~= all);
        }
    }
    rows
}

// ---------------------------------------------------------------------------
// Laws
// ---------------------------------------------------------------------------

/// Splitting a command loses nothing of it: its pieces with semicolons between
/// them are the command.
pub proof fn law_pieces_make_up_the_command(command: Seq<char>)
    ensures
        pieces(command).len() >= 1,
        joined(pieces(command), seq![';']) == command,
    decreases command.len(),
{
    let parts = pieces(command);
    if command.len() > 0 {
        law_pieces_make_up_the_command(command.drop_last());
        let before = pieces(command.drop_last());
        assert(command =~= command.drop_last().push(command.last()));
        if command.last() == ';' && nesting(command.drop_last()) == top_level() {
            assert(parts.drop_last() =~= before);
            assert(joined(parts, seq![';']) =~= joined(before, seq![';']) + seq![';']
                + Seq::<char>::empty());
        } else {
            lemma_joined_grow_last(before, seq![';'], command.last());
        }
    } else {
        assert(command =~= Seq::<char>::empty());
    }
}

/// A command without a semicolon is one piece.
proof fn lemma_one_piece(command: Seq<char>)
    requires
        !command.contains(';'),
    ensures
        pieces(command).len() == 1,
    decreases command.len(),
{
    if command.len() > 0 {
        assert(!command.drop_last().contains(';')) by {
            if command.drop_last().contains(';') {
                let k = choose|k: int|
                    0 <= k < command.drop_last().len() && command.drop_last()[k] == ';';
                assert(command[k] == ';');
            }
        }
        lemma_one_piece(command.drop_last());
        assert(command.contains(command.last()));
    }
}

/// A command of one statement, and so any that holds no semicolon, is one row:
/// the statement behind a dollar sign.
pub proof fn law_one_statement_is_one_row(command: Seq<char>)
    requires
        pieces(command).len() == 1 || !command.contains(';'),
        !all_white(command),
    ensures
        command_rows(command) == seq![statement_row(trimmed(command))],
{
    if !command.contains(';') {
        lemma_one_piece(command);
    }
    law_pieces_make_up_the_command(command);
    lemma_trimmed_blank(command);
    let parts = pieces(command);
    assert(parts =~= seq![command]);
    assert(parts.drop_last() =~= Seq::<Seq<char>>::empty());
    assert(non_blank(parts.drop_last()) =~= Seq::<Seq<char>>::empty());
    assert(statements(command) =~= seq![trimmed(command)]);
    assert(command_rows(command) =~= seq![statement_row(trimmed(command))]);
}

proof fn lemma_nesting_behind(head: Seq<char>, tail: Seq<char>)
    requires
        nesting(head) == top_level(),
    ensures
        nesting(head + tail) == nesting(tail),
    decreases tail.len(),
{
    if tail.len() > 0 {
        lemma_nesting_behind(head, tail.drop_last());
        assert((head + tail).drop_last() =~= head + tail.drop_last());
    } else {
        assert(head + tail =~= head);
    }
}

proof fn lemma_pieces_behind(head: Seq<char>, tail: Seq<char>)
    requires
        nesting(head) == top_level(),
    ensures
        pieces(head.push(';') + tail) == pieces(head) + pieces(tail),
    decreases tail.len(),
{
    let opened = head.push(';');
    assert(opened.drop_last() =~= head);
    law_pieces_make_up_the_command(tail);
    if tail.len() > 0 {
        lemma_pieces_behind(head, tail.drop_last());
        lemma_nesting_behind(opened, tail.drop_last());
        law_pieces_make_up_the_command(tail.drop_last());
        assert((opened + tail).drop_last() =~= opened + tail.drop_last());
        let before = pieces(tail.drop_last());
        assert((pieces(head) + before).drop_last() =~= pieces(head) + before.drop_last());
        assert(pieces(opened + tail) =~= pieces(head) + pieces(tail));
    } else {
        assert(opened + tail =~= opened);
        assert(pieces(opened) =~= pieces(head) + pieces(tail));
    }
}

proof fn lemma_non_blank_in_a_row(a: Seq<Seq<char>>, b: Seq<Seq<char>>)
    ensures
        non_blank(a + b) == non_blank(a) + non_blank(b),
    decreases b.len(),
{
    if b.len() > 0 {
        lemma_non_blank_in_a_row(a, b.drop_last());
        assert((a + b).drop_last() =~= a + b.drop_last());
        assert(non_blank(a + b) =~= non_blank(a) + non_blank(b));
    } else {
        assert(a + b =~= a);
        assert(non_blank(a) + non_blank(b) =~= non_blank(a));
    }
}

/// A semicolon at the top level chains commands: the statements of the one are
/// followed by those of the other.
pub proof fn law_chained_statements_follow_each_other(first: Seq<char>, second: Seq<char>)
    requires
        nesting(first) == top_level(),
    ensures
        statements(first.push(';') + second) == statements(first) + statements(second),
{
    lemma_pieces_behind(first, second);
    lemma_non_blank_in_a_row(pieces(first), pieces(second));
}

/// Two statements with a semicolon between them are two rows.
pub proof fn law_two_statements_are_two_rows(first: Seq<char>, second: Seq<char>)
    requires
        nesting(first) == top_level(),
        pieces(first).len() == 1,
        pieces(second).len() == 1,
        !all_white(first),
        !all_white(second),
    ensures
        command_rows(first.push(';') + second) == seq![
            statement_row(trimmed(first)),
            statement_row(trimmed(second)),
        ],
{
    law_chained_statements_follow_each_other(first, second);
    law_one_statement_is_one_row(first);
    law_one_statement_is_one_row(second);
    let row = |s: Seq<char>| statement_row(s);
    let a = statements(first);
    let b = statements(second);
    lemma_trimmed_blank(first);
    lemma_trimmed_blank(second);
    law_pieces_make_up_the_command(first);
    law_pieces_make_up_the_command(second);
    assert(pieces(first) =~= seq![first]);
    assert(pieces(second) =~= seq![second]);
    reveal_with_fuel(non_blank, 2);
    assert(pieces(first).drop_last() =~= Seq::<Seq<char>>::empty());
    assert(pieces(second).drop_last() =~= Seq::<Seq<char>>::empty());
    assert(a =~= seq![trimmed(first)]);
    assert(b =~= seq![trimmed(second)]);
    assert((a + b).map_values(row) =~= seq![
        statement_row(trimmed(first)),
        statement_row(trimmed(second)),
    ]);
}

/// What stands in quotation marks or brackets is not split: a character that
/// comes while something is open, be it a semicolon, belongs to the piece before
/// it.
pub proof fn law_only_the_top_level_splits(command: Seq<char>)
    requires
        command.len() > 0,
        nesting(command.drop_last()) != top_level(),
    ensures
        pieces(command).len() == pieces(command.drop_last()).len(),
        pieces(command).last() == pieces(command.drop_last()).last().push(command.last()),
{
    law_pieces_make_up_the_command(command.drop_last());
}

/// However many statements a command has, its rows stay few, and where some are
/// not shown the last row says how many.
pub proof fn law_command_rows_are_bounded(command: Seq<char>)
    ensures
        command_rows(command).len() <= MAX_COMMAND_STATEMENTS + 1,
        statements(command).len() > MAX_COMMAND_STATEMENTS ==> command_rows(command).last()
            == folded_row((statements(command).len() - MAX_COMMAND_STATEMENTS) as nat),
{
}

} // verus!
