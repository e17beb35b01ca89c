//! The commands that are typed behind a slash.

use vstd::prelude::*;
use vstd::string::*;

use crate::tab::PanePosition;
use crate::text::{
    begins_ignore_case, chars_of, is_white, lower, occurs, same, same_ignore_case,
    starts_with_ignore_ascii_case, string_of, to_lower, trim, trimmed, white,
};

verus! {

/// What a command does.
#[derive(Clone, Copy, Debug, PartialEq, Eq, Structural)]
pub enum CommandKind {
    Help,
    Clear,
    New,
    Stop,
    Sessions,
    Restart,
    Fix,
    Model,
    Config,
    Move,
    Agent,
}

/// A command that is known.
#[derive(Clone, Copy, Debug, PartialEq, Eq)]
pub struct CommandSpec {
    pub name: &'static str,
    pub kind: CommandKind,
}

impl CommandKind {
    /// The name of the command.
    pub open spec fn name(self) -> Seq<char> {
        match self {
            CommandKind::Help => "help"@,
            CommandKind::Clear => "clear"@,
            CommandKind::New => "new"@,
            CommandKind::Stop => "stop"@,
            CommandKind::Sessions => "sessions"@,
            CommandKind::Restart => "restart"@,
            CommandKind::Fix => "fix"@,
            CommandKind::Model => "model"@,
            CommandKind::Config => "config"@,
            CommandKind::Move => "move"@,
            CommandKind::Agent => "agent"@,
        }
    }

    /// The name of the command.
    pub fn as_str(self) -> (r: &'static str)
        ensures
            r@ == self.name(),
    {
        match self {
            CommandKind::Help => "help",
            CommandKind::Clear => "clear",
            CommandKind::New => "new",
            CommandKind::Stop => "stop",
            CommandKind::Sessions => "sessions",
            CommandKind::Restart => "restart",
            CommandKind::Fix => "fix",
            CommandKind::Model => "model",
            CommandKind::Config => "config",
            CommandKind::Move => "move",
            CommandKind::Agent => "agent",
        }
    }
}

/// The commands, in the order in which they are listed.
pub open spec fn command_kinds() -> Seq<CommandKind> {
    seq![
        CommandKind::Help,
        CommandKind::Clear,
        CommandKind::New,
        CommandKind::Stop,
        CommandKind::Sessions,
        CommandKind::Restart,
        CommandKind::Fix,
        CommandKind::Model,
        CommandKind::Config,
        CommandKind::Move,
        CommandKind::Agent,
    ]
}

/// The commands, in the order in which they are listed.
pub fn all_commands() -> (r: Vec<CommandKind>)
    ensures
        r@ == command_kinds(),
{
    let mut v: Vec<CommandKind> = Vec::new();
    v.push(CommandKind::Help);
    v.push(CommandKind::Clear);
    v.push(CommandKind::New);
    v.push(CommandKind::Stop);
    v.push(CommandKind::Sessions);
    v.push(CommandKind::Restart);
    v.push(CommandKind::Fix);
    v.push(CommandKind::Model);
    v.push(CommandKind::Config);
    v.push(CommandKind::Move);
    v.push(CommandKind::Agent);
    v
}

/// Whether a command is the one that a name means: case is ignored, and of
/// several the first counts.
pub open spec fn names_command(name: Seq<char>, kind: CommandKind) -> bool {
    exists|i: int|
        0 <= i < command_kinds().len() && #[trigger] command_kinds()[i] == kind && lower(
            kind.name(),
        ) == lower(name) && forall|k: int|
            0 <= k < i ==> lower((#[trigger] command_kinds()[k]).name()) != lower(name)
}

/// No command has the name.
pub open spec fn names_no_command(name: Seq<char>) -> bool {
    forall|i: int|
        0 <= i < command_kinds().len() ==> lower((#[trigger] command_kinds()[i]).name()) != lower(
            name,
        )
}

/// The command of a name, ASCII case ignored.
pub fn lookup(name: &str) -> (r: Option<CommandSpec>)
    ensures
        match r {
            Some(spec) => names_command(name@, spec.kind) && spec.name@ == spec.kind.name(),
            None => names_no_command(name@),
        },
{
    let all = all_commands();
    let mut i: usize = 0;
    while i < all.len()
        invariant
            i <= all.len(),
            all@ == command_kinds(),
            forall|k: int| 0 <= k < i ==> lower((#[trigger] command_kinds()[k]).name()) != lower(name@),
        decreases all.len() - i,
    {
        let kind = all[i];
        if same_ignore_case(kind.as_str(), name) {
            proof {
                assert(command_kinds()[i as int] == kind);
            }
            return Some(CommandSpec { name: kind.as_str(), kind });
        }
        i += 1;
    }
    None
}

/// No two commands have the same name, so a name means at most one of them.
pub proof fn law_command_names_differ(name: Seq<char>, a: CommandKind, b: CommandKind)
    requires
        names_command(name, a),
        names_command(name, b),
    ensures
        a == b,
{
    let i = choose|i: int|
        0 <= i < command_kinds().len() && #[trigger] command_kinds()[i] == a && lower(a.name())
            == lower(name) && forall|k: int|
            0 <= k < i ==> lower((#[trigger] command_kinds()[k]).name()) != lower(name);
    let j = choose|j: int|
        0 <= j < command_kinds().len() && #[trigger] command_kinds()[j] == b && lower(b.name())
            == lower(name) && forall|k: int|
            0 <= k < j ==> lower((#[trigger] command_kinds()[k]).name()) != lower(name);
    if i < j {
        assert(lower(command_kinds()[i].name()) != lower(name));
    } else if j < i {
        assert(lower(command_kinds()[j].name()) != lower(name));
    }
}

// ---------------------------------------------------------------------------
// What was typed
// ---------------------------------------------------------------------------

/// A command with what was typed behind it.
#[derive(Debug, PartialEq, Eq)]
pub struct ParsedCommand {
    pub kind: CommandKind,
    pub spec: CommandSpec,
    pub rest: String,
}

/// What an input means.
#[derive(Debug, PartialEq, Eq)]
pub enum ParseOutcome {
    Command(ParsedCommand),
    /// A word behind a slash that is no command.
    Unknown(String),
    NotCommand,
}

/// How many characters stand before the first white space.
pub open spec fn word_length(s: Seq<char>) -> nat
    decreases s.len(),
{
    if s.len() == 0 || is_white(s[0]) {
        0
    } else {
        1 + word_length(s.skip(1))
    }
}

/// The first word of an input, white space before it ignored.
pub open spec fn first_word(input: Seq<char>) -> Seq<char> {
    let s = trimmed(input);
    s.take(word_length(s) as int)
}

/// What follows the first word.
pub open spec fn after_first_word(input: Seq<char>) -> Seq<char> {
    let s = trimmed(input);
    trimmed(s.skip(word_length(s) as int))
}

/// Whether a word is an attempt at a command: a slash with something behind it
/// that is not a slash itself.
pub open spec fn attempts_command(word: Seq<char>) -> bool {
    word.len() >= 2 && word[0] == '/' && word[1] != '/'
}

proof fn lemma_word_length(s: Seq<char>)
    ensures
        word_length(s) <= s.len(),
    decreases s.len(),
{
    if s.len() > 0 && !is_white(s[0]) {
        lemma_word_length(s.skip(1));
    }
}

fn split_first_word(input: &str) -> (r: (String, String))
    ensures
        r.0@ == first_word(input@),
        r.1@ == after_first_word(input@),
{
    let s = trim(input);
    let v = chars_of(s.as_str());
    let mut n: usize = 0;
    proof {
        assert(v@.skip(0) =~= v@);
    }
    while n < v.len() && !white(v[n])
        invariant
            n <= v.len(),
            word_length(v@) == n + word_length(v@.skip(n as int)),
        decreases v.len() - n,
    {
        proof {
            assert(v@.skip(n as int)[0] == v@[n as int]);
            assert(v@.skip(n as int).skip(1) =~= v@.skip(n + 1));
        }
        n += 1;
    }
    proof {
        if n < v@.len() {
            assert(v@.skip(n as int)[0] == v@[n as int]);
        }
        assert(word_length(v@) == n);
        assert(v@.subrange(0, n as int) =~= v@.take(n as int));
        assert(v@.subrange(n as int, v@.len() as int) =~= v@.skip(n as int));
    }
    let word = string_of(&v, 0, n);
    let tail = string_of(&v, n, v.len());
    (word, trim(tail.as_str()))
}

/// Whether an input means this: a command with its arguments, an attempt at one
/// that is not known, or a prompt.
pub open spec fn means(input: Seq<char>, outcome: ParseOutcome) -> bool {
    match outcome {
        ParseOutcome::NotCommand => !attempts_command(first_word(input)),
        ParseOutcome::Unknown(word) => attempts_command(first_word(input)) && word@ == first_word(
            input,
        ) && names_no_command(first_word(input).skip(1)),
        ParseOutcome::Command(c) => attempts_command(first_word(input)) && names_command(
            first_word(input).skip(1),
            c.kind,
        ) && c.is_typed(c.kind, after_first_word(input)),
    }
}

impl ParsedCommand {
    /// Whether this is the command with that behind it.
    pub open spec fn is_typed(self, kind: CommandKind, rest: Seq<char>) -> bool {
        self.kind == kind && self.spec.kind == kind && self.spec.name@ == kind.name() && self.rest@
            == rest
    }

    /// A command with something behind it.
    pub fn typed(kind: CommandKind, rest: String) -> (r: ParsedCommand)
        ensures
            r.is_typed(kind, rest@),
    {
        ParsedCommand { kind, spec: CommandSpec { name: kind.as_str(), kind }, rest }
    }
}

/// Says what an input means.
pub fn classify(input: &str) -> (r: ParseOutcome)
    ensures
        means(input@, r),
{
    let (word, rest) = split_first_word(input);
    let v = chars_of(word.as_str());
    if v.len() < 2 || v[0] != '/' || v[1] == '/' {
        return ParseOutcome::NotCommand;
    }
    let name = string_of(&v, 1, v.len());
    proof {
        assert(v@.subrange(1, v@.len() as int) =~= word@.skip(1));
    }
    match lookup(name.as_str()) {
        Some(spec) => ParseOutcome::Command(ParsedCommand { kind: spec.kind, spec, rest }),
        None => ParseOutcome::Unknown(word),
    }
}

// ---------------------------------------------------------------------------
// Positions of the pane
// ---------------------------------------------------------------------------

/// A word for a position of the pane.
#[derive(Clone, Copy, Debug, PartialEq, Eq)]
pub struct MovePosition {
    pub name: &'static str,
    pub alias: &'static str,
    pub position: PanePosition,
}

/// How many words for positions there are.
pub const MOVE_POSITION_COUNT: usize = 4;

/// The word for the `i`-th position.
pub open spec fn move_word(i: int) -> Seq<char> {
    if i == 0 {
        "left"@
    } else if i == 1 {
        "right"@
    } else if i == 2 {
        "up"@
    } else {
        "down"@
    }
}

/// The letter for the `i`-th position.
pub open spec fn move_letter(i: int) -> Seq<char> {
    if i == 0 {
        "l"@
    } else if i == 1 {
        "r"@
    } else if i == 2 {
        "u"@
    } else {
        "d"@
    }
}

/// The `i`-th position.
pub open spec fn move_target(i: int) -> PanePosition {
    if i == 0 {
        PanePosition::Left
    } else if i == 1 {
        PanePosition::Right
    } else if i == 2 {
        PanePosition::Up
    } else {
        PanePosition::Bottom
    }
}

/// The words for the positions of the pane, in the order in which they are
/// offered.
pub fn move_positions() -> (r: Vec<MovePosition>)
    ensures
        r@.len() == MOVE_POSITION_COUNT,
        forall|i: int|
            0 <= i < MOVE_POSITION_COUNT ==> (#[trigger] r@[i]).name@ == move_word(i) && r@[i].alias@
                == move_letter(i) && r@[i].position == move_target(i),
{
    let mut v: Vec<MovePosition> = Vec::new();
    v.push(MovePosition { name: "left", alias: "l", position: PanePosition::Left });
    v.push(MovePosition { name: "right", alias: "r", position: PanePosition::Right });
    v.push(MovePosition { name: "up", alias: "u", position: PanePosition::Up });
    v.push(MovePosition { name: "down", alias: "d", position: PanePosition::Bottom });
    v
}

/// Whether an argument means the `i`-th position.
pub open spec fn means_position(arg: Seq<char>, i: int) -> bool {
    lower(trimmed(arg)) == lower(move_word(i)) || lower(trimmed(arg)) == lower(move_letter(i))
}

/// The position that an argument means: the first that fits.
pub open spec fn resolved_position(arg: Seq<char>) -> Option<PanePosition> {
    if means_position(arg, 0) {
        Some(PanePosition::Left)
    } else if means_position(arg, 1) {
        Some(PanePosition::Right)
    } else if means_position(arg, 2) {
        Some(PanePosition::Up)
    } else if means_position(arg, 3) {
        Some(PanePosition::Bottom)
    } else {
        None
    }
}

/// The position that an argument means.
pub fn resolve_position(arg: &str) -> (r: Option<PanePosition>)
    ensures
        r == resolved_position(arg@),
{
    let word = trim(arg);
    if same_ignore_case(word.as_str(), "left") || same_ignore_case(word.as_str(), "l") {
        Some(PanePosition::Left)
    } else if same_ignore_case(word.as_str(), "right") || same_ignore_case(word.as_str(), "r") {
        Some(PanePosition::Right)
    } else if same_ignore_case(word.as_str(), "up") || same_ignore_case(word.as_str(), "u") {
        Some(PanePosition::Up)
    } else if same_ignore_case(word.as_str(), "down") || same_ignore_case(word.as_str(), "d") {
        Some(PanePosition::Bottom)
    } else {
        None
    }
}

/// The positions whose word begins with what was typed, in their order.
pub open spec fn position_candidates(prefix: Seq<char>) -> Seq<int> {
    seq![0int, 1int, 2int, 3int].filter(|i: int| begins_ignore_case(move_word(i), prefix))
}

/// The positions whose word begins with what was typed.
pub fn matching_positions(prefix: &str) -> (r: Vec<MovePosition>)
    ensures
        r@.len() == position_candidates(prefix@).len(),
        forall|k: int|
            0 <= k < r@.len() ==> (#[trigger] r@[k]).name@ == move_word(position_candidates(prefix@)[k])
                && r@[k].position == move_target(position_candidates(prefix@)[k]),
{
    let all = move_positions();
    let ghost p = |i: int| begins_ignore_case(move_word(i), prefix@);
    let ghost idx = seq![0int, 1int, 2int, 3int];
    let mut out: Vec<MovePosition> = Vec::new();
    let mut i: usize = 0;
    proof {
        assert(idx.take(0).filter(p).len() == 0);
    }
    while i < all.len()
        invariant
            i <= all.len(),
            all@.len() == MOVE_POSITION_COUNT,
            idx == seq![0int, 1int, 2int, 3int],
            p == (|i: int| begins_ignore_case(move_word(i), prefix@)),
            forall|i: int|
                0 <= i < MOVE_POSITION_COUNT ==> (#[trigger] all@[i]).name@ == move_word(i)
                    && all@[i].position == move_target(i),
            out@.len() == idx.take(i as int).filter(p).len(),
            forall|k: int|
                0 <= k < out@.len() ==> (#[trigger] out@[k]).name@ == move_word(
                    idx.take(i as int).filter(p)[k],
                ) && out@[k].position == move_target(idx.take(i as int).filter(p)[k]),
        decreases all.len() - i,
    {
        proof {
            assert(idx.take(i + 1) =~= idx.take(i as int).push(i as int));
            idx.take(i as int).lemma_filter_push(i as int, p);
        }
        if starts_with_ignore_ascii_case(all[i].name, prefix) {
            out.push(all[i]);
        }
        i += 1;
    }
    proof {
        assert(idx.take(4) =~= idx);
    }
    out
}

// ---------------------------------------------------------------------------
// The popup
// ---------------------------------------------------------------------------

/// What is being completed.
pub enum Completion {
    /// The name of a command, from the part that was typed.
    Name(String),
    /// The argument of a command, from the part that was typed.
    Argument { kind: CommandKind, prefix: String },
    Nothing,
}

/// The first word of an input that begins at its first character.
pub open spec fn leading_word(input: Seq<char>) -> Seq<char> {
    input.take(word_length(input) as int)
}

/// Whether the cursor is still in the name of a command.
pub open spec fn completes_name(input: Seq<char>) -> bool {
    input.len() >= 1 && input[0] == '/' && word_length(input) == input.len() && (input.len() == 1
        || input[1] != '/')
}

/// Whether an argument of the command is being typed.
pub open spec fn completes_argument(input: Seq<char>, kind: CommandKind) -> bool {
    attempts_command(leading_word(input)) && word_length(input) < input.len() && names_command(
        leading_word(input).skip(1),
        kind,
    )
}

/// Says what of an input can be completed.
pub fn completion(input: &str) -> (r: Completion)
    ensures
        match r {
            Completion::Name(part) => completes_name(input@) && part@ == input@.skip(1),
            Completion::Argument { kind, prefix } => completes_argument(input@, kind) && prefix@
                == trimmed(input@.skip(word_length(input@) as int)),
            Completion::Nothing => !completes_name(input@) && (!attempts_command(
                leading_word(input@),
            ) || word_length(input@) == input@.len() || names_no_command(
                leading_word(input@).skip(1),
            )),
        },
{
    let v = chars_of(input);
    let mut n: usize = 0;
    proof {
        assert(v@.skip(0) =~= v@);
    }
    while n < v.len() && !white(v[n])
        invariant
            n <= v.len(),
            word_length(v@) == n + word_length(v@.skip(n as int)),
        decreases v.len() - n,
    {
        proof {
            assert(v@.skip(n as int)[0] == v@[n as int]);
            assert(v@.skip(n as int).skip(1) =~= v@.skip(n + 1));
        }
        n += 1;
    }
    proof {
        if n < v@.len() {
            assert(v@.skip(n as int)[0] == v@[n as int]);
        }
        assert(word_length(v@) == n);
        assert(v@.subrange(0, n as int) =~= leading_word(v@));
    }
    if v.len() == 0 || v[0] != '/' {
        return Completion::Nothing;
    }
    if n == v.len() {
        if v.len() > 1 && v[1] == '/' {
            return Completion::Nothing;
        }
        proof {
            assert(v@.subrange(1, v@.len() as int) =~= input@.skip(1));
        }
        return Completion::Name(string_of(&v, 1, v.len()));
    }
    if n < 2 || v[1] == '/' {
        return Completion::Nothing;
    }
    let name = string_of(&v, 1, n);
    proof {
        assert(v@.subrange(1, n as int) =~= leading_word(input@).skip(1));
        assert(v@.subrange(n as int, v@.len() as int) =~= input@.skip(n as int));
    }
    match lookup(name.as_str()) {
        Some(spec) => {
            let tail = string_of(&v, n, v.len());
            Completion::Argument { kind: spec.kind, prefix: trim(tail.as_str()) }
        },
        None => Completion::Nothing,
    }
}

/// The commands whose name holds what was typed, case ignored, in their order.
pub open spec fn command_candidates(part: Seq<char>) -> Seq<CommandKind> {
    command_kinds().filter(|k: CommandKind| occurs(lower(k.name()), lower(part)))
}

/// The commands whose name holds what was typed.
pub fn matching_commands(part: &str) -> (r: Vec<CommandKind>)
    ensures
        r@ == command_candidates(part@),
{
    let all = all_commands();
    let typed = to_lower(part);
    let ghost p = |k: CommandKind| occurs(lower(k.name()), lower(part@));
    let mut out: Vec<CommandKind> = Vec::new();
    let mut i: usize = 0;
    proof {
        assert(out@ =~= all@.take(0).filter(p));
    }
    while i < all.len()
        invariant
            i <= all.len(),
            typed@ == lower(part@),
            p == (|k: CommandKind| occurs(lower(k.name()), lower(part@))),
            out@ == all@.take(i as int).filter(p),
        decreases all.len() - i,
    {
        proof {
            assert(all@.take(i + 1) =~= all@.take(i as int).push(all@[i as int]));
            all@.take(i as int).lemma_filter_push(all@[i as int], p);
        }
        let name = to_lower(all[i].as_str());
        if crate::text::contains(name.as_str(), typed.as_str()) {
            out.push(all[i]);
        }
        i += 1;
    }
    proof {
        assert(all@.take(all@.len() as int) =~= all@);
    }
    out
}

/// An input means one thing.
pub proof fn law_an_input_means_one_thing(input: Seq<char>, a: ParseOutcome, b: ParseOutcome)
    requires
        means(input, a),
        means(input, b),
    ensures
        a is NotCommand == b is NotCommand,
        a is Unknown == b is Unknown,
        a is Unknown ==> a->Unknown_0@ == b->Unknown_0@,
        a is Command ==> a->Command_0.kind == b->Command_0.kind && a->Command_0.rest@
            == b->Command_0.rest@,
{
    let name = first_word(input).skip(1);
    if a is Command && b is Command {
        law_command_names_differ(name, a->Command_0.kind, b->Command_0.kind);
    }
    if a is Command && b is Unknown {
        lemma_named(name, a->Command_0.kind);
    }
    if b is Command && a is Unknown {
        lemma_named(name, b->Command_0.kind);
    }
}

/// A name of a command is no name of none.
pub proof fn lemma_named(name: Seq<char>, kind: CommandKind)
    requires
        names_command(name, kind),
    ensures
        !names_no_command(name),
{
    let i = choose|i: int|
        0 <= i < command_kinds().len() && #[trigger] command_kinds()[i] == kind && lower(
            kind.name(),
        ) == lower(name) && forall|k: int|
            0 <= k < i ==> lower((#[trigger] command_kinds()[k]).name()) != lower(name);
    assert(lower(command_kinds()[i].name()) == lower(name));
}

// ---------------------------------------------------------------------------
// Laws
// ---------------------------------------------------------------------------

/// A position is meant by its word or by the first letter of that.
pub proof fn law_positions_are_meant_by_word_or_letter(arg: Seq<char>)
    ensures
        trimmed(arg) == "left"@ || trimmed(arg) == "l"@ ==> resolved_position(arg) == Some(
            PanePosition::Left,
        ),
        trimmed(arg) == "right"@ || trimmed(arg) == "r"@ ==> resolved_position(arg) == Some(
            PanePosition::Right,
        ),
        trimmed(arg) == "up"@ || trimmed(arg) == "u"@ ==> resolved_position(arg) == Some(
            PanePosition::Up,
        ),
        trimmed(arg) == "down"@ || trimmed(arg) == "d"@ ==> resolved_position(arg) == Some(
            PanePosition::Bottom,
        ),
        trimmed(arg).len() == 0 ==> resolved_position(arg) is None,
{
    reveal_strlit("left");
    reveal_strlit("right");
    reveal_strlit("up");
    reveal_strlit("down");
    reveal_strlit("l");
    reveal_strlit("r");
    reveal_strlit("u");
    reveal_strlit("d");
    assert(lower("left"@).len() == 4 && lower("left"@)[0] == 'l');
    assert(lower("right"@).len() == 5);
    assert(lower("up"@).len() == 2);
    assert(lower("down"@).len() == 4 && lower("down"@)[0] == 'd');
    assert(lower("l"@).len() == 1 && lower("l"@)[0] == 'l');
    assert(lower("r"@).len() == 1 && lower("r"@)[0] == 'r');
    assert(lower("u"@).len() == 1 && lower("u"@)[0] == 'u');
    assert(lower("d"@).len() == 1 && lower("d"@)[0] == 'd');
    assert(lower(trimmed(arg)).len() == trimmed(arg).len());
}

/// A command is known by its name behind a slash, and what follows is handed to it.
/// What does not begin so is no command, nor is what begins with two.
pub proof fn law_a_command_stands_behind_one_slash(input: Seq<char>, outcome: ParseOutcome)
    requires
        means(input, outcome),
    ensures
        ({
            let word = first_word(input);
            let slash = word.len() >= 2 && word[0] == '/' && word[1] != '/';
            &&& !slash <==> outcome is NotCommand
            &&& outcome is Command ==> lower(outcome->Command_0.kind.name()) == lower(word.skip(1))
                && outcome->Command_0.rest@ == after_first_word(input)
            &&& outcome is Unknown ==> outcome->Unknown_0@ == word
        }),
{
}

/// Every command has its name.
pub proof fn law_commands_have_their_names()
    ensures
        CommandKind::Help.name() == "help"@,
        CommandKind::Clear.name() == "clear"@,
        CommandKind::New.name() == "new"@,
        CommandKind::Stop.name() == "stop"@,
        CommandKind::Sessions.name() == "sessions"@,
        CommandKind::Restart.name() == "restart"@,
        CommandKind::Fix.name() == "fix"@,
        CommandKind::Model.name() == "model"@,
        CommandKind::Config.name() == "config"@,
        CommandKind::Move.name() == "move"@,
        CommandKind::Agent.name() == "agent"@,
        command_kinds().len() == 11,
{
}

/// A word ends where the first blank stands.
pub proof fn law_a_word_ends_at_the_first_blank(s: Seq<char>)
    ensures
        word_length(s) <= s.len(),
        forall|i: int| 0 <= i < word_length(s) ==> !is_white(#[trigger] s[i]),
        word_length(s) < s.len() ==> is_white(s[word_length(s) as int]),
    decreases s.len(),
{
    if s.len() > 0 && !is_white(s[0]) {
        let rest = s.skip(1);
        law_a_word_ends_at_the_first_blank(rest);
        assert forall|i: int| 0 <= i < word_length(s) implies !is_white(#[trigger] s[i]) by {
            if i > 0 {
                assert(rest[i - 1] == s[i]);
            }
        }
        if word_length(s) < s.len() {
            assert(rest[word_length(rest) as int] == s[word_length(s) as int]);
        }
    }
}

} // verus!
