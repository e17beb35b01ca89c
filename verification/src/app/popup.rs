//! The popup that completes what is typed behind a slash.

use vstd::prelude::*;
use vstd::string::*;

use crate::app::effect::{KeyCode, KeyEvent};
use crate::app::state::{App, AppView, AvailableAgent};
use crate::commands::{
    attempts_command, classify, command_candidates, completes_argument, completes_name, completion,
    law_command_names_differ, leading_word, lemma_named, matching_commands, matching_positions,
    means, move_target, move_word, names_no_command, position_candidates, word_length, CommandKind,
    Completion, MovePosition, ParseOutcome, ParsedCommand,
};
use crate::tab::{PanePosition, TabSession, TabView};
use crate::text::{
    begins_ignore_case, cat, chars_of, lower, opt_view, starts_with_ignore_ascii_case, string_of,
    trimmed,
};

verus! {

/// The agents whose id begins with what was typed, case ignored, in their
/// order.
pub open spec fn agent_candidates(agents: Seq<AvailableAgent>, prefix: Seq<char>) -> Seq<
    AvailableAgent,
> {
    agents.filter(|a: AvailableAgent| begins_ignore_case(a.id@, prefix))
}

/// The agents whose id begins with what was typed.
pub fn matching_agents(agents: &Vec<AvailableAgent>, prefix: &str) -> (r: Vec<AvailableAgent>)
    ensures
        r@ == agent_candidates(agents@, prefix@),
{
    let ghost p = |a: AvailableAgent| begins_ignore_case(a.id@, prefix@);
    let mut out: Vec<AvailableAgent> = Vec::new();
    let mut i: usize = 0;
    proof {
        assert(out@ =~= agents@.take(0).filter(p));
    }
    while i < agents.len()
        invariant
            i <= agents.len(),
            p == (|a: AvailableAgent| begins_ignore_case(a.id@, prefix@)),
            out@ == agents@.take(i as int).filter(p),
        decreases agents.len() - i,
    {
        proof {
            assert(agents@.take(i + 1) =~= agents@.take(i as int).push(agents@[i as int]));
            agents@.take(i as int).lemma_filter_push(agents@[i as int], p);
        }
        if starts_with_ignore_ascii_case(agents[i].id.as_str(), prefix) {
            out.push(agents[i].clone());
        }
        i += 1;
    }
    proof {
        assert(agents@.take(agents@.len() as int) =~= agents@);
    }
    out
}

/// What was typed behind a command.
pub open spec fn typed_argument(input: Seq<char>) -> Seq<char> {
    trimmed(input.skip(word_length(input) as int))
}

/// Whether there is something to complete: a command whose name holds what was
/// typed, or an argument of a command that takes one from a list.
pub open spec fn popup_open(input: Seq<char>, agents: Seq<AvailableAgent>) -> bool {
    if completes_name(input) {
        command_candidates(input.skip(1)).len() > 0
    } else if completes_argument(input, CommandKind::Agent) {
        agent_candidates(agents, typed_argument(input)).len() > 0
    } else if completes_argument(input, CommandKind::Move) {
        position_candidates(typed_argument(input)).len() > 0
    } else {
        false
    }
}

/// Whether there is something to complete.
pub fn popup_visible(input: &str, agents: &Vec<AvailableAgent>) -> (r: bool)
    ensures
        r == popup_open(input@, agents@),
{
    match completion(input) {
        Completion::Name(part) => matching_commands(part.as_str()).len() > 0,
        Completion::Argument { kind, prefix } => {
            proof {
                if completes_argument(input@, CommandKind::Agent) {
                    law_command_names_differ(
                        leading_word(input@).skip(1),
                        kind,
                        CommandKind::Agent,
                    );
                }
                if completes_argument(input@, CommandKind::Move) {
                    law_command_names_differ(leading_word(input@).skip(1), kind, CommandKind::Move);
                }
            }
            match kind {
                CommandKind::Agent => matching_agents(agents, prefix.as_str()).len() > 0,
                CommandKind::Move => matching_positions(prefix.as_str()).len() > 0,
                _ => false,
            }
        },
        Completion::Nothing => {
            proof {
                lemma_named_argument(input@);
            }
            false
        },
    }
}

impl AppView {
    /// Whether the command popup is open over the tab in front.
    pub open spec fn command_popup_open(self) -> bool {
        popup_open(self.current_tab().input, self.agent.available)
    }
}

impl App {
    /// Whether the command popup is open over the tab in front.
    pub fn command_popup_visible(&self) -> (r: bool)
        ensures
            r == self@.command_popup_open(),
    {
        match self.current_tab() {
            Some(tab) => popup_visible(tab.input.as_str(), &self.agent.available),
            None => {
                let empty = String::new();
                popup_visible(empty.as_str(), &self.agent.available)
            },
        }
    }
}

// ---------------------------------------------------------------------------
// What the popup offers
// ---------------------------------------------------------------------------

/// What can be put in the place of what was typed.
pub enum PopupCandidates {
    Commands(Vec<CommandKind>),
    Positions(Vec<MovePosition>),
    Agents(Vec<AvailableAgent>),
}

/// The popup.
pub struct CommandPopupState {
    pub candidates: PopupCandidates,
    pub selected: usize,
}

impl TabView {
    /// The positions that can be put in the place of what was typed.
    pub open spec fn positions(self) -> Seq<int> {
        if completes_argument(self.input, CommandKind::Move) {
            position_candidates(typed_argument(self.input))
        } else {
            Seq::empty()
        }
    }

    /// The agents that can be put in the place of what was typed.
    pub open spec fn agents(self, available: Seq<AvailableAgent>) -> Seq<AvailableAgent> {
        if completes_argument(self.input, CommandKind::Agent) {
            agent_candidates(available, typed_argument(self.input))
        } else {
            Seq::empty()
        }
    }

    /// The tab after a character was typed at the cursor.
    pub open spec fn typed_into(self, c: char) -> TabView {
        let at = if self.cursor <= self.input.len() {
            self.cursor as int
        } else {
            self.input.len() as int
        };
        TabView {
            input: self.input.take(at).push(c) + self.input.skip(at),
            cursor: (at + 1) as usize,
            command_selected: 0,
            ..self
        }
    }
}

proof fn lemma_one_command(input: Seq<char>, a: CommandKind, b: CommandKind)
    requires
        completes_argument(input, a),
        completes_argument(input, b),
    ensures
        a == b,
{
    law_command_names_differ(leading_word(input).skip(1), a, b);
}

proof fn lemma_named_argument(input: Seq<char>)
    requires
        names_no_command(leading_word(input).skip(1)) || !attempts_command(leading_word(input))
            || word_length(input) == input.len(),
    ensures
        forall|kind: CommandKind| !completes_argument(input, kind),
{
    assert forall|kind: CommandKind| !completes_argument(input, kind) by {
        if completes_argument(input, kind) {
            lemma_named(leading_word(input).skip(1), kind);
        }
    }
}

/// What of a command's argument was typed, where that command's is being typed.
fn argument_of(input: &str, wanted: CommandKind) -> (r: Option<String>)
    ensures
        match r {
            Some(prefix) => completes_argument(input@, wanted) && prefix@ == typed_argument(input@),
            None => !completes_argument(input@, wanted),
        },
{
    match completion(input) {
        Completion::Argument { kind, prefix } => {
            if kind == wanted {
                Some(prefix)
            } else {
                proof {
                    if completes_argument(input@, wanted) {
                        lemma_one_command(input@, kind, wanted);
                    }
                }
                None
            }
        },
        Completion::Name(_) => None,
        Completion::Nothing => {
            proof {
                lemma_named_argument(input@);
            }
            None
        },
    }
}

impl TabSession {
    /// Types a character at the cursor.
    pub fn insert_input_char(&mut self, c: char)
        requires
            old(self)@.input.len() < usize::MAX,
        ensures
            final(self)@ == old(self)@.typed_into(c),
    {
        let v = chars_of(self.input.as_str());
        let at: usize = if self.cursor <= v.len() {
            self.cursor
        } else {
            v.len()
        };
        let mut text = string_of(&v, 0, at);
        text.push(c);
        let tail = string_of(&v, at, v.len());
        proof {
            assert(v@.subrange(0, at as int) =~= v@.take(at as int));
            assert(v@.subrange(at as int, v@.len() as int) =~= v@.skip(at as int));
        }
        self.input = cat(text.as_str(), tail.as_str());
        self.cursor = at + 1;
        self.command_selected = 0;
    }

    /// Moves the cursor to the left.
    pub fn move_cursor_left(&mut self)
        ensures
            final(self)@ == (TabView {
                cursor: if old(self)@.cursor == 0 {
                    0
                } else {
                    (old(self)@.cursor - 1) as usize
                },
                ..old(self)@
            }),
    {
        self.cursor = self.cursor.saturating_sub(1);
    }

    /// The positions that can be put in the place of what was typed.
    pub fn move_position_candidates(&self) -> (r: Vec<MovePosition>)
        ensures
            r@.len() == self@.positions().len(),
            forall|k: int|
                0 <= k < r@.len() ==> (#[trigger] r@[k]).name@ == move_word(self@.positions()[k])
                    && r@[k].position == move_target(self@.positions()[k]),
    {
        match argument_of(self.input.as_str(), CommandKind::Move) {
            Some(prefix) => matching_positions(prefix.as_str()),
            None => Vec::new(),
        }
    }

    /// The position that is highlighted.
    pub fn selected_move_position(&self) -> (r: Option<MovePosition>)
        ensures
            match r {
                Some(p) => self.command_selected < self@.positions().len() && p.name@ == move_word(
                    self@.positions()[self.command_selected as int],
                ) && p.position == move_target(self@.positions()[self.command_selected as int]),
                None => self.command_selected >= self@.positions().len(),
            },
    {
        let all = self.move_position_candidates();
        if self.command_selected < all.len() {
            Some(all[self.command_selected])
        } else {
            None
        }
    }
}

impl AppView {
    /// The agents that can be put in the place of what was typed.
    pub open spec fn front_agents(self) -> Seq<AvailableAgent> {
        self.current_tab().agents(self.agent.available)
    }

    /// The agent that is highlighted.
    pub open spec fn highlighted_agent(self) -> Option<AvailableAgent> {
        let k = self.current_tab().command_selected;
        if k < self.front_agents().len() {
            Some(self.front_agents()[k as int])
        } else {
            None
        }
    }

    /// What is left to type of the highlighted agent: nothing is hinted at
    /// unless the cursor stands behind what was typed.
    pub open spec fn ghost_suffix(self) -> Option<Seq<char>> {
        let tab = self.current_tab();
        match self.highlighted_agent() {
            Some(agent) if tab.cursor == tab.input.len() && agent.id@.len() > typed_argument(
                tab.input,
            ).len() => Some(agent.id@.skip(typed_argument(tab.input).len() as int)),
            _ => None,
        }
    }

    /// How many candidates the popup offers.
    pub open spec fn popup_rows(self) -> nat {
        let input = self.current_tab().input;
        if completes_name(input) {
            command_candidates(input.skip(1)).len()
        } else if completes_argument(input, CommandKind::Agent) {
            self.front_agents().len()
        } else {
            self.current_tab().positions().len()
        }
    }

    /// Whether the popup is in this state.
    pub open spec fn popup_is(self, state: CommandPopupState) -> bool {
        let tab = self.current_tab();
        &&& state.selected == tab.command_selected
        &&& match state.candidates {
            PopupCandidates::Commands(v) => completes_name(tab.input) && v@ == command_candidates(
                tab.input.skip(1),
            ),
            PopupCandidates::Agents(v) => completes_argument(tab.input, CommandKind::Agent) && v@
                == self.front_agents(),
            PopupCandidates::Positions(v) => completes_argument(tab.input, CommandKind::Move)
                && v@.len() == tab.positions().len() && forall|k: int|
                0 <= k < v@.len() ==> (#[trigger] v@[k]).name@ == move_word(tab.positions()[k])
                    && v@[k].position == move_target(tab.positions()[k]),
        }
    }

    /// The pane with the highlight of the popup elsewhere.
    pub open spec fn popup_row_set(self, row: usize) -> AppView {
        self.with_current(TabView { command_selected: row, ..self.current_tab() })
    }

    /// The pane after a key over the popup: the arrows move the highlight as
    /// far as there are candidates.
    pub open spec fn popup_key(self, key: KeyEvent) -> AppView {
        let row = self.current_tab().command_selected;
        match key.code {
            KeyCode::Down if row + 1 < self.popup_rows() => self.popup_row_set((row + 1) as usize),
            KeyCode::Up if row > 0 => self.popup_row_set((row - 1) as usize),
            _ => self,
        }
    }
}

/// An empty input completes nothing.
proof fn lemma_nothing_typed(v: AppView)
    requires
        v.current_tab().input.len() == 0,
    ensures
        !v.command_popup_open(),
        v.front_agents().len() == 0,
        v.current_tab().positions().len() == 0,
        v.popup_rows() == 0,
{
    let input = v.current_tab().input;
    assert(leading_word(input).len() == 0);
    assert(!completes_argument(input, CommandKind::Agent));
    assert(!completes_argument(input, CommandKind::Move));
}

impl App {
    /// What the popup offers, where it is open.
    pub fn command_popup_state(&self) -> (r: Option<CommandPopupState>)
        ensures
            match r {
                Some(state) => self@.command_popup_open() && self@.popup_is(state),
                None => !self@.command_popup_open(),
            },
    {
        let tab = match self.current_tab() {
            Some(tab) => tab,
            None => {
                proof {
                    lemma_nothing_typed(self@);
                }
                return None;
            },
        };
        if !popup_visible(tab.input.as_str(), &self.agent.available) {
            return None;
        }
        let selected: usize = tab.command_selected;
        match completion(tab.input.as_str()) {
            Completion::Name(part) => Some(
                CommandPopupState {
                    candidates: PopupCandidates::Commands(matching_commands(part.as_str())),
                    selected,
                },
            ),
            Completion::Argument { kind, prefix } => {
                proof {
                    if completes_argument(tab.input@, CommandKind::Agent) {
                        lemma_one_command(tab.input@, kind, CommandKind::Agent);
                    }
                    if completes_argument(tab.input@, CommandKind::Move) {
                        lemma_one_command(tab.input@, kind, CommandKind::Move);
                    }
                }
                if kind == CommandKind::Agent {
                    Some(
                        CommandPopupState {
                            candidates: PopupCandidates::Agents(
                                matching_agents(&self.agent.available, prefix.as_str()),
                            ),
                            selected,
                        },
                    )
                } else if kind == CommandKind::Move {
                    Some(
                        CommandPopupState {
                            candidates: PopupCandidates::Positions(tab.move_position_candidates()),
                            selected,
                        },
                    )
                } else {
                    None
                }
            },
            Completion::Nothing => {
                proof {
                    lemma_named_argument(tab.input@);
                }
                None
            },
        }
    }

    fn agents_in_front(&self) -> (r: Vec<AvailableAgent>)
        ensures
            r@ == self@.front_agents(),
    {
        let tab = match self.current_tab() {
            Some(tab) => tab,
            None => {
                proof {
                    lemma_nothing_typed(self@);
                }
                return Vec::new();
            },
        };
        match argument_of(tab.input.as_str(), CommandKind::Agent) {
            Some(prefix) => matching_agents(&self.agent.available, prefix.as_str()),
            None => Vec::new(),
        }
    }

    /// The agent that is highlighted.
    pub fn selected_agent_command_candidate(&self) -> (r: Option<AvailableAgent>)
        ensures
            r == self@.highlighted_agent(),
    {
        let all = self.agents_in_front();
        let row: usize = match self.current_tab() {
            Some(tab) => tab.command_selected,
            None => 0,
        };
        if row < all.len() {
            Some(all[row].clone())
        } else {
            None
        }
    }

    /// What is left to type of the highlighted agent.
    pub fn command_ghost_suffix(&self) -> (r: Option<String>)
        ensures
            opt_view(r) == self@.ghost_suffix(),
    {
        let agent = match self.selected_agent_command_candidate() {
            Some(agent) => agent,
            None => {
                return None;
            },
        };
        let tab = match self.current_tab() {
            Some(tab) => tab,
            None => {
                proof {
                    lemma_nothing_typed(self@);
                }
                return None;
            },
        };
        let typed = match argument_of(tab.input.as_str(), CommandKind::Agent) {
            Some(prefix) => chars_of(prefix.as_str()).len(),
            None => {
                return None;
            },
        };
        let all = chars_of(agent.id.as_str());
        if tab.cursor != chars_of(tab.input.as_str()).len() || all.len() <= typed {
            return None;
        }
        proof {
            assert(all@.subrange(typed as int, all@.len() as int) =~= agent.id@.skip(typed as int));
        }
        Some(string_of(&all, typed, all.len()))
    }

    fn popup_row_count(&self) -> (r: usize)
        ensures
            r == self@.popup_rows(),
    {
        let tab = match self.current_tab() {
            Some(tab) => tab,
            None => {
                proof {
                    lemma_nothing_typed(self@);
                }
                return 0;
            },
        };
        if let Completion::Name(part) = completion(tab.input.as_str()) {
            return matching_commands(part.as_str()).len();
        }
        if argument_of(tab.input.as_str(), CommandKind::Agent).is_some() {
            self.agents_in_front().len()
        } else {
            tab.move_position_candidates().len()
        }
    }

    /// Moves the highlight of the popup by an arrow key.
    pub fn handle_popup_key(&mut self, key: KeyEvent)
        ensures
            final(self)@ == old(self)@.popup_key(key),
    {
        let rows: usize = self.popup_row_count();
        let row: usize = match self.current_tab() {
            Some(tab) => tab.command_selected,
            None => 0,
        };
        match key.code {
            KeyCode::Down => {
                if row < rows && row + 1 < rows {
                    let tab = self.current_tab_mut();
                    tab.command_selected = row + 1;
                }
            },
            KeyCode::Up => {
                if row > 0 {
                    let tab = self.current_tab_mut();
                    tab.command_selected = row - 1;
                }
            },
            _ => {},
        }
    }
}

// ---------------------------------------------------------------------------
// What Enter means
// ---------------------------------------------------------------------------

/// Whether this is the agent command that Enter gives: the highlighted agent
/// counts in the place of what was typed.
pub open spec fn agent_entered(
    input: Seq<char>,
    highlighted: Option<AvailableAgent>,
    command: Option<ParsedCommand>,
) -> bool {
    if completes_argument(input, CommandKind::Agent) && highlighted is Some {
        command is Some && command->0.is_typed(CommandKind::Agent, highlighted->0.id@)
    } else {
        match command {
            Some(c) => c.kind == CommandKind::Agent && means(input, ParseOutcome::Command(c)),
            None => exists|other: ParseOutcome| #[trigger]
                means(input, other) && (other is Command ==> other->Command_0.kind
                    != CommandKind::Agent),
        }
    }
}

/// The agent command that Enter gives.
pub fn agent_command_on_enter(input: &str, highlighted: Option<&AvailableAgent>) -> (r: Option<
    ParsedCommand,
>)
    ensures
        agent_entered(
            input@,
            match highlighted {
                Some(agent) => Some(*agent),
                None => None,
            },
            r,
        ),
{
    if let Some(agent) = highlighted {
        if argument_of(input, CommandKind::Agent).is_some() {
            return Some(ParsedCommand::typed(CommandKind::Agent, agent.id.clone()));
        }
    }
    let outcome = classify(input);
    let ghost found = outcome;
    match outcome {
        ParseOutcome::Command(c) => {
            if c.kind == CommandKind::Agent {
                Some(c)
            } else {
                proof {
                    assert(means(input@, found));
                }
                None
            }
        },
        _ => {
            proof {
                assert(means(input@, found));
            }
            None
        },
    }
}

impl AppView {
    /// Whether this is what Enter means: a position or an agent that is
    /// highlighted counts in the place of what was typed.
    pub open spec fn enter_means(self, outcome: ParseOutcome) -> bool {
        let tab = self.current_tab();
        if tab.command_selected < tab.positions().len() {
            outcome is Command && outcome->Command_0.is_typed(
                CommandKind::Move,
                move_word(tab.positions()[tab.command_selected as int]),
            )
        } else if self.highlighted_agent() is Some {
            outcome is Command && outcome->Command_0.is_typed(
                CommandKind::Agent,
                self.highlighted_agent()->0.id@,
            )
        } else {
            means(tab.input, outcome)
        }
    }
}

impl App {
    /// What Enter means.
    pub fn entered(&self) -> (r: ParseOutcome)
        ensures
            self@.enter_means(r),
    {
        let tab = match self.current_tab() {
            Some(tab) => tab,
            None => {
                proof {
                    lemma_nothing_typed(self@);
                }
                let empty = String::new();
                return classify(empty.as_str());
            },
        };
        if let Some(position) = tab.selected_move_position() {
            return ParseOutcome::Command(
                ParsedCommand::typed(CommandKind::Move, position.name.to_owned()),
            );
        }
        let highlighted = self.selected_agent_command_candidate();
        if highlighted.is_some() {
            if let Some(c) = agent_command_on_enter(tab.input.as_str(), highlighted.as_ref()) {
                return ParseOutcome::Command(c);
            }
        }
        classify(tab.input.as_str())
    }
}

/// The hint is what is missing of the agent: behind what was typed it gives the
/// agent's id again, case aside.
pub proof fn law_hint_completes_the_agent(v: AppView)
    requires
        v.ghost_suffix() is Some,
    ensures
        v.highlighted_agent() is Some,
        lower(typed_argument(v.current_tab().input) + v.ghost_suffix()->0) == lower(
            v.highlighted_agent()->0.id@,
        ),
{
    let tab = v.current_tab();
    let typed = typed_argument(tab.input);
    let p = |a: AvailableAgent| begins_ignore_case(a.id@, typed);
    let agent = v.highlighted_agent()->0;
    v.agent.available.lemma_filter_contains_rev(p, agent);
    v.agent.available.filter_lemma(p);
    assert(begins_ignore_case(agent.id@, typed));
    assert(lower(typed + agent.id@.skip(typed.len() as int)) =~= lower(agent.id@)) by {
        assert(lower(agent.id@.take(typed.len() as int)) == lower(typed));
        assert forall|i: int| 0 <= i < agent.id@.len() implies #[trigger] lower(
            typed + agent.id@.skip(typed.len() as int),
        )[i] == lower(agent.id@)[i] by {
            if i < typed.len() {
                assert(lower(typed)[i] == lower(agent.id@.take(typed.len() as int))[i]);
            }
        }
    }
}

// ---------------------------------------------------------------------------
// Laws
// ---------------------------------------------------------------------------

/// A character that is typed goes in where the cursor stands, which then stands behind
/// it; what was there before and behind stays.
pub proof fn law_typing_goes_in_at_the_cursor(tab: TabView, c: char, i: int)
    requires
        tab.cursor <= tab.input.len() < usize::MAX,
    ensures
        ({
            let after = tab.typed_into(c);
            &&& after.input.len() == tab.input.len() + 1
            &&& after.input[tab.cursor as int] == c
            &&& 0 <= i < tab.cursor ==> after.input[i] == tab.input[i]
            &&& tab.cursor <= i < tab.input.len() ==> after.input[i + 1] == tab.input[i]
            &&& after.cursor == tab.cursor + 1
            &&& after.command_selected == 0
            &&& after.messages == tab.messages && after.turn == tab.turn
        }),
{
}

/// The arrows move the highlight by one row and keep it on the list.
pub proof fn law_arrows_move_the_highlight(v: AppView, key: KeyEvent)
    requires
        v.popup_rows() <= usize::MAX,
    ensures
        ({
            let row = v.current_tab().command_selected;
            let after = v.popup_key(key).current_tab().command_selected;
            &&& key.code == KeyCode::Down && row + 1 < v.popup_rows() ==> after == row + 1
            &&& key.code == KeyCode::Down && row + 1 >= v.popup_rows() ==> after == row
            &&& key.code == KeyCode::Up && row > 0 ==> after == row - 1
            &&& key.code == KeyCode::Up && row == 0 ==> after == 0
            &&& key.code != KeyCode::Down && key.code != KeyCode::Up ==> v.popup_key(key) == v
            &&& v.popup_key(key).current_tab().input == v.current_tab().input
            &&& v.popup_key(key).effects == v.effects
        }),
{
}

/// Agents are offered whose id begins with what was typed, and no others.
pub proof fn law_agents_are_offered_by_what_was_typed(
    agents: Seq<AvailableAgent>,
    prefix: Seq<char>,
    a: AvailableAgent,
)
    ensures
        agent_candidates(agents, prefix).contains(a) <==> agents.contains(a) && a.id@.len()
            >= prefix.len() && lower(a.id@.take(prefix.len() as int)) == lower(prefix),
{
    let p = |a: AvailableAgent| begins_ignore_case(a.id@, prefix);
    let offered = agents.filter(p);
    agents.filter_lemma(p);
    if offered.contains(a) {
        agents.lemma_filter_contains_rev(p, a);
        let k = choose|k: int| 0 <= k < offered.len() && offered[k] == a;
        assert(p(offered[k]));
    }
    if agents.contains(a) && p(a) {
        let k = choose|k: int| 0 <= k < agents.len() && agents[k] == a;
        assert(p(agents[k]));
    }
}

/// Enter takes what is highlighted: a position before an agent, and what was typed
/// where nothing is.
pub proof fn law_enter_takes_what_is_highlighted(v: AppView, outcome: ParseOutcome)
    requires
        v.enter_means(outcome),
    ensures
        ({
            let tab = v.current_tab();
            let row = tab.command_selected;
            let places = row < tab.positions().len();
            let agent = v.highlighted_agent();
            &&& places ==> outcome is Command && outcome->Command_0.kind is Move
                && outcome->Command_0.rest@ == move_word(tab.positions()[row as int])
            &&& !places && agent is Some ==> outcome is Command && outcome->Command_0.kind is Agent
                && outcome->Command_0.rest@ == agent->0.id@
            &&& !places && agent is None ==> means(tab.input, outcome)
            &&& agent is Some ==> row < v.front_agents().len() && agent->0
                == v.front_agents()[row as int]
        }),
{
}

/// Positions are offered by their words, each for the side that it names.
pub proof fn law_positions_name_their_sides(i: int)
    requires
        0 <= i < 4,
    ensures
        i == 0 ==> move_word(i) == "left"@ && move_target(i) is Left,
        i == 1 ==> move_word(i) == "right"@ && move_target(i) is Right,
        i == 2 ==> move_word(i) == "up"@ && move_target(i) is Up,
        i == 3 ==> move_word(i) == "down"@ && move_target(i) is Bottom,
        (PanePosition::Left).name() == "left"@,
        (PanePosition::Right).name() == "right"@,
        (PanePosition::Up).name() == "up"@,
        (PanePosition::Bottom).name() == "bottom"@,
{
}

/// The popup shows what can be completed, with the highlighted row: commands while
/// the name is typed, and then what the command takes.
pub proof fn law_the_popup_shows_what_can_be_completed(v: AppView, state: CommandPopupState)
    requires
        v.popup_is(state),
    ensures
        state.selected == v.current_tab().command_selected,
        match state.candidates {
            PopupCandidates::Commands(c) => completes_name(v.current_tab().input) && c@
                == command_candidates(v.current_tab().input.skip(1)),
            PopupCandidates::Agents(a) => completes_argument(
                v.current_tab().input,
                CommandKind::Agent,
            ) && a@ == v.front_agents(),
            PopupCandidates::Positions(p) => completes_argument(
                v.current_tab().input,
                CommandKind::Move,
            ) && p@.len() == v.current_tab().positions().len(),
        },
{
}

} // verus!
