//! Which rows of the conversation are drawn, and what of them can be clicked.

use vstd::prelude::*;

use crate::app::state::{App, AppView, Rect};
use crate::chat::line::{lines_view, span_of, Line, LineView, Span, Style};
use crate::chat::message::ChatLabels;
use crate::chat::turn::{
    build_completed_turn_lines_with_prompt_rows, less, turn_geometry, PromptRowGeometry,
};
use crate::chat::view::{
    block, blocks_from, build_pending_stream_lines, greets, is_streaming_message, message_block,
    pending_rows, turn_block, turns_from,
};
use crate::chat::wrap::{
    at_least_one, capped, law_height_adds_up, lines_height, rendered_lines_height,
};
use crate::tab::{TabSession, TabView};

verus! {

// ---------------------------------------------------------------------------
// Gathering rows from the bottom
// ---------------------------------------------------------------------------

/// A sum that stops at the greatest number.
pub open spec fn more(a: usize, b: usize) -> usize {
    capped((a + b) as nat)
}

/// How many rows are gathered: those in sight, those scrolled past, and some
/// to spare.
pub open spec fn wanted_rows(visible: usize, offset: usize) -> usize {
    more(more(visible, offset), 32)
}

/// The turn that has to be scrolled into sight.
pub open spec fn selection_target(tab: TabView) -> Option<usize> {
    match tab.selected_completed_turn_idx {
        Some(i) if tab.completed_turn_selection_visible_pending && i < tab.completed_turns.len() =>
            Some(i),
        _ => None,
    }
}

/// Rows of messages above others: from the `n`-th message upwards, until there
/// are enough. Also tells whether messages are left out.
pub open spec fn gathered(
    tab: TabView,
    n: int,
    below: Seq<LineView>,
    wanted: usize,
    may_stop: bool,
    wrap_width: usize,
    labels: ChatLabels,
) -> (Seq<LineView>, bool)
    decreases n,
{
    if n <= 0 {
        (below, false)
    } else if tab.streaming_index() == Some(n - 1) {
        gathered(tab, n - 1, below, wanted, may_stop, wrap_width, labels)
    } else {
        let rows = block(tab, n - 1, wrap_width, labels) + below;
        if may_stop && rows.len() >= wanted {
            (rows, true)
        } else {
            gathered(tab, n - 1, rows, wanted, may_stop, wrap_width, labels)
        }
    }
}

/// Where a turn lies among the rows.
pub struct TurnPlace {
    pub turn_index: usize,
    /// The rows of the terminal below the turn.
    pub rows_below: usize,
    /// The rows of the terminal that the turn takes.
    pub turn_height: usize,
    pub expanded: bool,
    pub prompt_rows: Vec<PromptRowGeometry>,
}

/// Where a turn lies among the rows, mathematically.
#[verifier::ext_equal]
pub struct PlaceView {
    pub turn_index: usize,
    pub rows_below: usize,
    pub turn_height: usize,
    pub expanded: bool,
    pub prompt_rows: Seq<PromptRowGeometry>,
}

impl View for TurnPlace {
    type V = PlaceView;

    open spec fn view(&self) -> PlaceView {
        PlaceView {
            turn_index: self.turn_index,
            rows_below: self.rows_below,
            turn_height: self.turn_height,
            expanded: self.expanded,
            prompt_rows: self.prompt_rows@,
        }
    }
}

/// Places, mathematically.
pub open spec fn places_view(v: Seq<TurnPlace>) -> Seq<PlaceView> {
    v.map_values(|p: TurnPlace| p@)
}

/// The rows that were gathered so far.
#[verifier::ext_equal]
pub struct GatherView {
    pub rows: Seq<LineView>,
    /// The rows of the terminal that they take.
    pub height: usize,
    pub offset: usize,
    pub wanted: usize,
    /// The turn that has to be in sight is among them, or there is none.
    pub reached: bool,
    /// Something above them is left out.
    pub truncated: bool,
    pub places: Seq<PlaceView>,
}

/// How far to scroll for a turn to be in sight: as little as possible.
pub open spec fn offset_showing(offset: usize, below: usize, height: usize, visible: usize) -> usize {
    if below < offset {
        below
    } else if more(below, height) > more(offset, at_least_one(visible)) {
        less(more(below, height), at_least_one(visible))
    } else {
        offset
    }
}

/// What is drawn besides the tab itself.
pub struct Sight {
    pub target: Option<usize>,
    pub visible: usize,
    pub pane_focused: bool,
    pub wrap_width: usize,
}

impl GatherView {
    /// The rows with the `i`-th turn above them.
    pub open spec fn with_turn(self, tab: TabView, i: int, sight: Sight, labels: ChatLabels) -> GatherView {
        let block = turn_block(tab, i, sight.pane_focused, sight.wrap_width, labels);
        let height = capped(lines_height(block, at_least_one(sight.wrap_width)));
        let hit = sight.target == Some(i as usize);
        let offset = if hit {
            offset_showing(self.offset, self.height, height, sight.visible)
        } else {
            self.offset
        };
        let wanted = if hit {
            wanted_rows(sight.visible, offset)
        } else {
            self.wanted
        };
        let rows = block + self.rows;
        GatherView {
            rows,
            height: more(self.height, height),
            offset,
            wanted,
            reached: self.reached || hit,
            truncated: (self.reached || hit) && rows.len() >= wanted,
            places: self.places.push(
                PlaceView {
                    turn_index: i as usize,
                    rows_below: self.height,
                    turn_height: height,
                    expanded: tab.completed_turns[i].expanded,
                    prompt_rows: turn_geometry(
                        tab.completed_turns[i],
                        tab.selected_completed_turn_idx == Some(i as usize),
                        sight.pane_focused,
                        sight.wrap_width,
                    ),
                },
            ),
        }
    }

    /// The rows with turns above them: from the `n`-th turn upwards, until
    /// there are enough.
    pub open spec fn with_turns(self, tab: TabView, n: int, sight: Sight, labels: ChatLabels) -> GatherView
        decreases n,
    {
        if n <= 0 || self.truncated {
            self
        } else {
            self.with_turn(tab, n - 1, sight, labels).with_turns(tab, n - 1, sight, labels)
        }
    }
}

/// Rows that were gathered from the bottom upwards, the other way round.
pub open spec fn upright(v: Seq<Line>) -> Seq<LineView> {
    lines_view(v).reverse()
}

fn add_above(rev: &mut Vec<Line>, block: Vec<Line>)
    ensures
        upright(final(rev)@) == lines_view(block@) + upright(old(rev)@),
{
    let mut block = block;
    let ghost whole = block@;
    let ghost before = rev@;
    proof {
        assert(upright(rev@) =~= lines_view(whole).skip(whole.len() as int) + upright(before));
    }
    while block.len() > 0
        invariant
            block@.len() <= whole.len(),
            block@ == whole.take(block@.len() as int),
            upright(rev@) == lines_view(whole).skip(block@.len() as int) + upright(before),
        decreases block.len(),
    {
        let ghost n = block@.len() as int;
        let ghost now = rev@;
        if let Some(line) = block.pop() {
            rev.push(line);
            proof {
                assert(upright(rev@) =~= seq![line@] + upright(now));
                assert(line@ == lines_view(whole)[n - 1]);
                assert(lines_view(whole).skip(n - 1) =~= seq![line@] + lines_view(whole).skip(n));
                assert(upright(rev@) =~= lines_view(whole).skip(n - 1) + upright(before));
            }
        }
    }
    proof {
        assert(lines_view(whole).skip(0) =~= lines_view(whole));
    }
}

fn turned_over(rev: Vec<Line>) -> (r: Vec<Line>)
    ensures
        lines_view(r@) == upright(rev@),
{
    let mut rev = rev;
    let ghost whole = rev@;
    let mut out: Vec<Line> = Vec::new();
    proof {
        assert(lines_view(out@) =~= upright(whole).take(0));
    }
    while rev.len() > 0
        invariant
            rev@.len() <= whole.len(),
            rev@ == whole.take(rev@.len() as int),
            lines_view(out@) == upright(whole).take(whole.len() - rev@.len()),
        decreases rev.len(),
    {
        let ghost n = rev@.len() as int;
        let ghost now = out@;
        if let Some(line) = rev.pop() {
            out.push(line);
            proof {
                let k = whole.len() - n;
                assert(lines_view(out@) =~= lines_view(now).push(line@));
                assert(upright(whole)[k] == line@);
                assert(upright(whole).take(k + 1) =~= upright(whole).take(k).push(line@));
            }
        }
    }
    proof {
        assert(upright(whole).take(whole.len() as int) =~= upright(whole));
    }
    out
}

proof fn lemma_height_upside_down(rows: Seq<LineView>, width: usize)
    ensures
        lines_height(rows.reverse(), width) == lines_height(rows, width),
    decreases rows.len(),
{
    if rows.len() > 0 {
        let rest = rows.drop_last();
        let last = seq![rows.last()];
        lemma_height_upside_down(rest, width);
        assert(rows.reverse() =~= last + rest.reverse());
        law_height_adds_up(last, rest.reverse(), width);
        law_height_adds_up(rest, last, width);
        assert(rows =~= rest + last);
    } else {
        assert(rows.reverse() =~= rows);
    }
}

/// The rows that were gathered so far, from the bottom upwards.
struct Gather {
    rev: Vec<Line>,
    height: usize,
    offset: usize,
    wanted: usize,
    reached: bool,
    truncated: bool,
    places: Vec<TurnPlace>,
}

impl View for Gather {
    type V = GatherView;

    closed spec fn view(&self) -> GatherView {
        GatherView {
            rows: upright(self.rev@),
            height: self.height,
            offset: self.offset,
            wanted: self.wanted,
            reached: self.reached,
            truncated: self.truncated,
            places: places_view(self.places@),
        }
    }
}

fn gather_messages(
    tab: &TabSession,
    rev: &mut Vec<Line>,
    wanted: usize,
    may_stop: bool,
    wrap_width: usize,
    labels: &ChatLabels,
) -> (truncated: bool)
    ensures
        (upright(final(rev)@), truncated) == gathered(
            tab@,
            tab@.messages.len() as int,
            upright(old(rev)@),
            wanted,
            may_stop,
            wrap_width,
            *labels,
        ),
{
    let mut n: usize = tab.messages.len();
    let ghost whole = gathered(
        tab@,
        tab@.messages.len() as int,
        upright(rev@),
        wanted,
        may_stop,
        wrap_width,
        *labels,
    );
    proof {
        assert(tab@.messages.len() == tab.messages@.len());
    }
    while n > 0
        invariant
            n <= tab.messages@.len(),
            whole == gathered(
                tab@,
                tab@.messages.len() as int,
                upright(old(rev)@),
                wanted,
                may_stop,
                wrap_width,
                *labels,
            ),
            whole == gathered(
                tab@,
                n as int,
                upright(rev@),
                wanted,
                may_stop,
                wrap_width,
                *labels,
            ),
        decreases n,
    {
        n -= 1;
        if !is_streaming_message(tab, n) {
            let lines = message_block(tab, n, wrap_width, labels);
            add_above(rev, lines);
            proof {
                assert(upright(rev@).len() == rev@.len());
            }
            if may_stop && rev.len() >= wanted {
                return true;
            }
        }
    }
    false
}

fn turn_lines(
    tab: &TabSession,
    i: usize,
    pane_focused: bool,
    wrap_width: usize,
    labels: &ChatLabels,
) -> (r: (Vec<Line>, Vec<PromptRowGeometry>))
    requires
        i < tab.completed_turns@.len(),
    ensures
        lines_view(r.0@) == turn_block(tab@, i as int, pane_focused, wrap_width, *labels),
        r.1@ == turn_geometry(
            tab@.completed_turns[i as int],
            tab@.selected_completed_turn_idx == Some(i),
            pane_focused,
            wrap_width,
        ),
{
    let is_selected = match tab.selected_completed_turn_idx {
        Some(k) => k == i,
        None => false,
    };
    proof {
        assert(tab@.completed_turns[i as int] == tab.completed_turns@[i as int]@);
    }
    build_completed_turn_lines_with_prompt_rows(
        &tab.completed_turns[i],
        is_selected,
        pane_focused,
        wrap_width,
        labels,
    )
}

impl Gather {
    fn show_turn(&mut self, height: usize, visible: usize)
        ensures
            final(self)@ == (GatherView {
                offset: offset_showing(old(self)@.offset, old(self)@.height, height, visible),
                wanted: wanted_rows(
                    visible,
                    offset_showing(old(self)@.offset, old(self)@.height, height, visible),
                ),
                reached: true,
                ..old(self)@
            }),
    {
        let end: usize = self.height.saturating_add(height);
        let viewport: usize = if visible == 0 {
            1
        } else {
            visible
        };
        if self.height < self.offset {
            self.offset = self.height;
        } else if end > self.offset.saturating_add(viewport) {
            self.offset = end.saturating_sub(viewport);
        }
        self.wanted = visible.saturating_add(self.offset).saturating_add(32);
        self.reached = true;
    }

    fn note_place(&mut self, place: TurnPlace)
        ensures
            final(self)@ == (GatherView { places: old(self)@.places.push(place@), ..old(self)@ }),
    {
        let ghost places = self.places@;
        self.places.push(place);
        proof {
            assert(places_view(self.places@) =~= places_view(places).push(place@));
        }
    }

    fn add_block(&mut self, lines: Vec<Line>, height: usize)
        ensures
            final(self)@ == (GatherView {
                rows: lines_view(lines@) + old(self)@.rows,
                height: more(old(self)@.height, height),
                truncated: old(self)@.reached && (lines_view(lines@) + old(self)@.rows).len()
                    >= old(self)@.wanted,
                ..old(self)@
            }),
    {
        self.height = self.height.saturating_add(height);
        add_above(&mut self.rev, lines);
        proof {
            assert(upright(self.rev@).len() == self.rev@.len());
        }
        self.truncated = self.reached && self.rev.len() >= self.wanted;
    }
}

fn place_turn(tab: &TabSession, i: usize, g: &mut Gather, sight: &Sight, labels: &ChatLabels)
    requires
        i < tab.completed_turns@.len(),
    ensures
        final(g)@ == old(g)@.with_turn(tab@, i as int, *sight, *labels),
{
    let (lines, prompt_rows) = turn_lines(tab, i, sight.pane_focused, sight.wrap_width, labels);
    let height: usize = rendered_lines_height(&lines, sight.wrap_width);
    let expanded = tab.completed_turns[i].expanded;
    proof {
        assert(tab@.completed_turns[i as int] == tab.completed_turns@[i as int]@);
    }
    let place = TurnPlace {
        turn_index: i,
        rows_below: g.height,
        turn_height: height,
        expanded,
        prompt_rows,
    };
    g.note_place(place);
    let hit = match sight.target {
        Some(k) => k == i,
        None => false,
    };
    if hit {
        g.show_turn(height, sight.visible);
    }
    g.add_block(lines, height);
}

fn gather_turns(tab: &TabSession, g: Gather, sight: &Sight, labels: &ChatLabels) -> (r: Gather)
    ensures
        r@ == g@.with_turns(tab@, tab@.completed_turns.len() as int, *sight, *labels),
{
    let mut g = g;
    let mut n: usize = tab.completed_turns.len();
    let ghost whole = g@.with_turns(tab@, tab@.completed_turns.len() as int, *sight, *labels);
    proof {
        assert(tab@.completed_turns.len() == tab.completed_turns@.len());
    }
    while n > 0 && !g.truncated
        invariant
            n <= tab.completed_turns@.len(),
            whole == g@.with_turns(tab@, n as int, *sight, *labels),
        decreases n,
    {
        n -= 1;
        place_turn(tab, n, &mut g, sight, labels);
    }
    g
}

// ---------------------------------------------------------------------------
// The plan
// ---------------------------------------------------------------------------

/// What is drawn of the conversation.
pub struct ChatPlan {
    pub lines: Vec<Line>,
    /// The rows of the terminal that they take.
    pub total_lines: usize,
    /// How many of those lie above the pane.
    pub scroll: usize,
    /// How many of those lie below the pane.
    pub offset: usize,
    /// Something of the conversation is left out above them.
    pub truncated: bool,
    /// A turn was to be scrolled into sight.
    pub selection_pending: bool,
    pub places: Vec<TurnPlace>,
    pub visible_height: usize,
}

/// What is drawn of the conversation, mathematically.
#[verifier::ext_equal]
pub struct PlanView {
    pub lines: Seq<LineView>,
    pub total_lines: usize,
    pub scroll: usize,
    pub offset: usize,
    pub truncated: bool,
    pub selection_pending: bool,
    pub places: Seq<PlaceView>,
    pub visible_height: usize,
}

impl View for ChatPlan {
    type V = PlanView;

    open spec fn view(&self) -> PlanView {
        PlanView {
            lines: lines_view(self.lines@),
            total_lines: self.total_lines,
            scroll: self.scroll,
            offset: self.offset,
            truncated: self.truncated,
            selection_pending: self.selection_pending,
            places: places_view(self.places@),
            visible_height: self.visible_height,
        }
    }
}

/// The greeting above the conversation.
pub open spec fn welcome_row(labels: ChatLabels) -> LineView {
    seq![span_of("● "@, Style::Welcome), span_of(labels.welcome_title@, Style::Welcome)]
}

/// What a tab shows in an area.
pub open spec fn tab_sight(tab: TabView, pane_focused: bool, area: Rect) -> Sight {
    Sight {
        target: selection_target(tab),
        visible: area.height as usize,
        pane_focused,
        wrap_width: area.width as usize,
    }
}

/// The rows of messages that are drawn of a tab, with the answer that is being
/// streamed below them.
pub open spec fn message_part(tab: TabView, area: Rect, labels: ChatLabels) -> (
    Seq<LineView>,
    bool,
) {
    gathered(
        tab,
        tab.messages.len() as int,
        pending_rows(tab, area.width as usize),
        wanted_rows(area.height as usize, tab.chat_scroll.offset),
        selection_target(tab) is None,
        area.width as usize,
        labels,
    )
}

/// The rows that are drawn of a tab.
pub open spec fn gathered_rows(
    tab: TabView,
    pane_focused: bool,
    area: Rect,
    labels: ChatLabels,
) -> GatherView {
    let (rows, truncated) = message_part(tab, area, labels);
    GatherView {
        rows,
        height: capped(lines_height(rows, at_least_one(area.width as usize))),
        offset: tab.chat_scroll.offset,
        wanted: wanted_rows(area.height as usize, tab.chat_scroll.offset),
        reached: selection_target(tab) is None,
        truncated,
        places: Seq::empty(),
    }.with_turns(
        tab,
        tab.completed_turns.len() as int,
        tab_sight(tab, pane_focused, area),
        labels,
    )
}

/// What is drawn of the conversation of the tab in front.
pub open spec fn chat_plan(app: AppView, area: Rect, labels: ChatLabels) -> PlanView {
    let tab = app.current_tab();
    let g = gathered_rows(tab, app.screen.pane_focused, area, labels);
    let lines = if app.greets() {
        seq![welcome_row(labels)] + g.rows
    } else {
        g.rows
    };
    let total = capped(lines_height(lines, at_least_one(area.width as usize)));
    PlanView {
        lines,
        total_lines: total,
        scroll: less(total, more(area.height as usize, g.offset)),
        offset: g.offset,
        truncated: g.truncated,
        selection_pending: tab.completed_turn_selection_visible_pending,
        places: g.places,
        visible_height: area.height as usize,
    }
}

fn target_of(tab: &TabSession) -> (r: Option<usize>)
    ensures
        r == selection_target(tab@),
{
    proof {
        assert(tab@.completed_turns.len() == tab.completed_turns@.len());
    }
    match tab.selected_completed_turn_idx {
        Some(i) => if tab.completed_turn_selection_visible_pending && i
            < tab.completed_turns.len() {
            Some(i)
        } else {
            None
        },
        None => None,
    }
}

fn gather_rows(tab: &TabSession, pane_focused: bool, area: Rect, labels: &ChatLabels) -> (r: Gather)
    ensures
        r@ == gathered_rows(tab@, pane_focused, area, *labels),
{
    let visible: usize = area.height as usize;
    let wrap_width: usize = area.width as usize;
    let target = target_of(tab);
    let wanted: usize = visible.saturating_add(tab.chat_scroll.offset).saturating_add(32);
    let mut rev: Vec<Line> = Vec::new();
    let pending = build_pending_stream_lines(tab, wrap_width);
    proof {
        assert(upright(rev@) =~= Seq::<LineView>::empty());
    }
    add_above(&mut rev, pending);
    proof {
        assert(upright(rev@) =~= pending_rows(tab@, wrap_width));
    }
    let truncated = gather_messages(
        tab,
        &mut rev,
        wanted,
        target.is_none(),
        wrap_width,
        labels,
    );
    let height: usize = rendered_lines_height(&rev, wrap_width);
    proof {
        lemma_height_upside_down(lines_view(rev@), at_least_one(wrap_width));
    }
    let g = Gather {
        rev,
        height,
        offset: tab.chat_scroll.offset,
        wanted,
        reached: target.is_none(),
        truncated,
        places: Vec::new(),
    };
    proof {
        assert(g@.places =~= Seq::<PlaceView>::empty());
    }
    let sight = Sight { target, visible, pane_focused, wrap_width };
    gather_turns(tab, g, &sight, labels)
}

impl App {
    /// What is to be drawn of the conversation of the tab in front.
    pub fn plan_chat(&self, area: Rect, labels: &ChatLabels) -> (r: ChatPlan)
        ensures
            r@ == chat_plan(self@, area, *labels),
    {
        let fresh = TabSession::default();
        let tab: &TabSession = match self.current_tab() {
            Some(tab) => tab,
            None => &fresh,
        };
        let g = gather_rows(tab, self.screen.pane_focused, area, labels);
        let mut rev = g.rev;
        if greets(self) {
            let line = Line::of_two(
                Span::styled("● ".to_owned(), Style::Welcome),
                Span::styled(labels.welcome_title.clone(), Style::Welcome),
            );
            let ghost before = rev@;
            rev.push(line);
            proof {
                assert(upright(rev@) =~= seq![line@] + upright(before));
            }
        }
        let lines = turned_over(rev);
        let total: usize = rendered_lines_height(&lines, area.width as usize);
        let visible: usize = area.height as usize;
        ChatPlan {
            lines,
            total_lines: total,
            scroll: total.saturating_sub(visible.saturating_add(g.offset)),
            offset: g.offset,
            truncated: g.truncated,
            selection_pending: tab.completed_turn_selection_visible_pending,
            places: g.places,
            visible_height: visible,
        }
    }
}

// ---------------------------------------------------------------------------
// Laws
// ---------------------------------------------------------------------------

/// The whole conversation of a tab.
pub open spec fn transcript(
    tab: TabView,
    pane_focused: bool,
    wrap_width: usize,
    labels: ChatLabels,
) -> Seq<LineView> {
    turns_from(tab, 0, pane_focused, wrap_width, labels) + (blocks_from(tab, 0, wrap_width, labels)
        + pending_rows(tab, wrap_width))
}

/// Whether rows are the last ones of others.
pub open spec fn ends_others(rows: Seq<LineView>, whole: Seq<LineView>) -> bool {
    rows.len() <= whole.len() && rows == whole.skip(whole.len() - rows.len())
}

proof fn lemma_ends_longer(rows: Seq<LineView>, above: Seq<LineView>, whole: Seq<LineView>)
    requires
        ends_others(above + rows, whole),
    ensures
        ends_others(rows, whole),
{
    assert(rows =~= whole.skip(whole.len() - rows.len())) by {
        assert forall|i: int| 0 <= i < rows.len() implies rows[i] == whole.skip(
            whole.len() - rows.len(),
        )[i] by {
            assert((above + rows)[above.len() + i] == rows[i]);
        }
    }
}

proof fn lemma_gathered(
    tab: TabView,
    n: int,
    below: Seq<LineView>,
    pending: Seq<LineView>,
    wanted: usize,
    may_stop: bool,
    wrap_width: usize,
    labels: ChatLabels,
)
    requires
        0 <= n <= tab.messages.len(),
        below == blocks_from(tab, n, wrap_width, labels) + pending,
    ensures
        ({
            let (rows, truncated) = gathered(tab, n, below, wanted, may_stop, wrap_width, labels);
            let whole = blocks_from(tab, 0, wrap_width, labels) + pending;
            &&& !truncated ==> rows == whole
            &&& truncated ==> rows.len() >= wanted && may_stop
            &&& ends_others(rows, whole)
        }),
    decreases n,
{
    let whole = blocks_from(tab, 0, wrap_width, labels) + pending;
    if n <= 0 {
        assert(whole.skip(0) =~= whole);
    } else {
        let rows = block(tab, n - 1, wrap_width, labels) + below;
        assert(rows =~= blocks_from(tab, n - 1, wrap_width, labels) + pending);
        if tab.streaming_index() == Some(n - 1) {
            assert(rows =~= below);
        }
        lemma_gathered(tab, n - 1, rows, pending, wanted, may_stop, wrap_width, labels);
        if tab.streaming_index() != Some(n - 1) && may_stop && rows.len() >= wanted {
            lemma_blocks_end(tab, n - 1, pending, wrap_width, labels);
        }
    }
}

proof fn lemma_blocks_end(
    tab: TabView,
    n: int,
    pending: Seq<LineView>,
    wrap_width: usize,
    labels: ChatLabels,
)
    requires
        0 <= n <= tab.messages.len(),
    ensures
        ends_others(
            blocks_from(tab, n, wrap_width, labels) + pending,
            blocks_from(tab, 0, wrap_width, labels) + pending,
        ),
    decreases n,
{
    let whole = blocks_from(tab, 0, wrap_width, labels) + pending;
    if n == 0 {
        assert(whole.skip(0) =~= whole);
    } else {
        lemma_blocks_end(tab, n - 1, pending, wrap_width, labels);
        let above = block(tab, n - 1, wrap_width, labels);
        let rows = blocks_from(tab, n, wrap_width, labels) + pending;
        assert(above + rows =~= blocks_from(tab, n - 1, wrap_width, labels) + pending);
        lemma_ends_longer(rows, above, whole);
    }
}

proof fn lemma_turns_end(
    tab: TabView,
    n: int,
    below: Seq<LineView>,
    pane_focused: bool,
    wrap_width: usize,
    labels: ChatLabels,
)
    requires
        0 <= n <= tab.completed_turns.len(),
    ensures
        ends_others(
            turns_from(tab, n, pane_focused, wrap_width, labels) + below,
            turns_from(tab, 0, pane_focused, wrap_width, labels) + below,
        ),
    decreases n,
{
    let whole = turns_from(tab, 0, pane_focused, wrap_width, labels) + below;
    if n == 0 {
        assert(whole.skip(0) =~= whole);
    } else {
        lemma_turns_end(tab, n - 1, below, pane_focused, wrap_width, labels);
        let above = turn_block(tab, n - 1, pane_focused, wrap_width, labels);
        let rows = turns_from(tab, n, pane_focused, wrap_width, labels) + below;
        assert(above + rows =~= turns_from(tab, n - 1, pane_focused, wrap_width, labels) + below);
        lemma_ends_longer(rows, above, whole);
    }
}

proof fn lemma_with_turns(
    g: GatherView,
    tab: TabView,
    n: int,
    below: Seq<LineView>,
    sight: Sight,
    labels: ChatLabels,
)
    requires
        0 <= n <= tab.completed_turns.len(),
        !g.truncated,
        g.wanted == wanted_rows(sight.visible, g.offset),
        g.rows == turns_from(tab, n, sight.pane_focused, sight.wrap_width, labels) + below,
    ensures
        ({
            let end = g.with_turns(tab, n, sight, labels);
            let whole = turns_from(tab, 0, sight.pane_focused, sight.wrap_width, labels) + below;
            &&& !end.truncated ==> end.rows == whole
            &&& end.truncated ==> end.rows.len() >= wanted_rows(sight.visible, end.offset)
            &&& ends_others(end.rows, whole)
        }),
    decreases n,
{
    let whole = turns_from(tab, 0, sight.pane_focused, sight.wrap_width, labels) + below;
    if n <= 0 {
        assert(whole.skip(0) =~= whole);
    } else {
        let next = g.with_turn(tab, n - 1, sight, labels);
        assert(next.rows =~= turns_from(tab, n - 1, sight.pane_focused, sight.wrap_width, labels)
            + below);
        if next.truncated {
            lemma_turns_end(tab, n - 1, below, sight.pane_focused, sight.wrap_width, labels);
            assert(next.with_turns(tab, n - 1, sight, labels) == next);
        } else {
            lemma_with_turns(next, tab, n - 1, below, sight, labels);
        }
    }
}

/// What is drawn of a tab are the last rows of its conversation. Where something
/// is left out, there is still more than can be in sight; where nothing is, it
/// is the whole conversation.
pub proof fn law_the_newest_rows_are_drawn(
    tab: TabView,
    pane_focused: bool,
    area: Rect,
    labels: ChatLabels,
)
    ensures
        ({
            let g = gathered_rows(tab, pane_focused, area, labels);
            let whole = transcript(tab, pane_focused, area.width as usize, labels);
            &&& ends_others(g.rows, whole)
            &&& !g.truncated ==> g.rows == whole
            &&& g.truncated ==> g.rows.len() >= wanted_rows(area.height as usize, g.offset)
        }),
{
    let width = area.width as usize;
    let pending = pending_rows(tab, width);
    let n = tab.messages.len() as int;
    let wanted = wanted_rows(area.height as usize, tab.chat_scroll.offset);
    let may_stop = selection_target(tab) is None;
    let sight = tab_sight(tab, pane_focused, area);
    let turns = tab.completed_turns.len() as int;
    assert(blocks_from(tab, n, width, labels) + pending =~= pending);
    lemma_gathered(tab, n, pending, pending, wanted, may_stop, width, labels);
    let (rows, truncated) = message_part(tab, area, labels);
    let below = blocks_from(tab, 0, width, labels) + pending;
    let start = GatherView {
        rows,
        height: capped(lines_height(rows, at_least_one(width))),
        offset: tab.chat_scroll.offset,
        wanted,
        reached: may_stop,
        truncated,
        places: Seq::empty(),
    };
    if truncated {
        assert(start.with_turns(tab, turns, sight, labels) == start);
        let above = turns_from(tab, 0, pane_focused, width, labels);
        let whole = above + below;
        assert(rows =~= whole.skip(whole.len() - rows.len())) by {
            assert(below.skip(below.len() - rows.len()) =~= whole.skip(whole.len() - rows.len()));
        }
    } else {
        assert(turns_from(tab, turns, pane_focused, width, labels) + below =~= below);
        lemma_with_turns(start, tab, turns, below, sight, labels);
    }
}

/// The places of the turns from the last one upwards.
spec fn placed_from_below(places: Seq<PlaceView>, turns: int) -> bool {
    forall|k: int| 0 <= k < places.len() ==> (#[trigger] places[k]).turn_index == turns - 1 - k
}

proof fn lemma_places(g: GatherView, tab: TabView, n: int, sight: Sight, labels: ChatLabels)
    requires
        0 <= n <= tab.completed_turns.len() <= usize::MAX,
        g.places.len() == tab.completed_turns.len() - n,
        placed_from_below(g.places, tab.completed_turns.len() as int),
    ensures
        g.with_turns(tab, n, sight, labels).places.len() <= tab.completed_turns.len(),
        placed_from_below(
            g.with_turns(tab, n, sight, labels).places,
            tab.completed_turns.len() as int,
        ),
    decreases n,
{
    if n > 0 && !g.truncated {
        lemma_places(g.with_turn(tab, n - 1, sight, labels), tab, n - 1, sight, labels);
    }
}

/// The places of a plan are those of the last turns of the tab in front, from
/// the newest upwards, each once.
pub proof fn law_places_are_those_of_turns(app: AppView, area: Rect, labels: ChatLabels)
    requires
        app.current_tab().completed_turns.len() <= usize::MAX,
    ensures
        chat_plan(app, area, labels).places.len() <= app.current_tab().completed_turns.len(),
        forall|k: int|
            0 <= k < chat_plan(app, area, labels).places.len() ==> (#[trigger] chat_plan(
                app,
                area,
                labels,
            ).places[k]).turn_index == app.current_tab().completed_turns.len() - 1 - k,
{
    let tab = app.current_tab();
    let (rows, truncated) = message_part(tab, area, labels);
    let start = GatherView {
        rows,
        height: capped(lines_height(rows, at_least_one(area.width as usize))),
        offset: tab.chat_scroll.offset,
        wanted: wanted_rows(area.height as usize, tab.chat_scroll.offset),
        reached: selection_target(tab) is None,
        truncated,
        places: Seq::empty(),
    };
    lemma_places(
        start,
        tab,
        tab.completed_turns.len() as int,
        tab_sight(tab, app.screen.pane_focused, area),
        labels,
    );
}

/// Scrolled as far as for a turn to be in sight, at least one of the rows of the
/// turn is in sight.
pub proof fn law_selected_turn_comes_into_sight(
    offset: usize,
    below: usize,
    height: usize,
    visible: usize,
)
    requires
        height > 0,
        below + height <= usize::MAX,
        offset + at_least_one(visible) <= usize::MAX,
    ensures
        ({
            let shown = offset_showing(offset, below, height, visible);
            &&& below < shown + at_least_one(visible)
            &&& shown < below + height
        }),
{
}

/// A turn that is already in sight as a whole is not scrolled.
pub proof fn law_visible_turn_is_not_scrolled(
    offset: usize,
    below: usize,
    height: usize,
    visible: usize,
)
    requires
        offset <= below,
        below + height <= offset + at_least_one(visible),
        offset + at_least_one(visible) <= usize::MAX,
    ensures
        offset_showing(offset, below, height, visible) == offset,
{
}

/// What is drawn ends as far above the end as was scrolled, and a greeting stands
/// above everything.
pub proof fn law_the_scroll_counts_from_the_end(app: AppView, area: Rect, labels: ChatLabels)
    ensures
        ({
            let plan = chat_plan(app, area, labels);
            &&& plan.total_lines >= area.height + plan.offset && area.height + plan.offset
                <= usize::MAX ==> plan.scroll == plan.total_lines - area.height - plan.offset
            &&& plan.total_lines <= area.height ==> plan.scroll == 0
            &&& plan.visible_height == area.height
            &&& app.screen.show_welcome_hint && app.agent.state is Connected ==> plan.lines.len() > 0
                && plan.lines[0].len() == 2 && plan.lines[0][0].text == "● "@
                && plan.lines[0][1].text == labels.welcome_title@
            &&& selection_target(app.current_tab()) is None ==> plan.selection_pending
                == app.current_tab().completed_turn_selection_visible_pending
        }),
{
}

} // verus!
