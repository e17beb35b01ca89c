//! What of the drawn conversation can be clicked.

use vstd::prelude::*;

use crate::app::state::{
    App, AppView, CompletedTurnHitKind, CompletedTurnHitRegion, PointerView, Rect,
};
use crate::chat::message::ChatLabels;
use crate::chat::plan::{
    chat_plan, law_places_are_those_of_turns, more, ChatPlan, PlaceView, PlanView, TurnPlace,
};
use crate::chat::turn::{less, PromptRowGeometry};
use crate::tab::{ChatScroll, TabView};

verus! {

/// What a click on a prompt does.
#[derive(Clone, Copy, Debug, PartialEq, Eq, Structural)]
pub enum CompletedTurnAction {
    Expand,
    Collapse,
}

/// A prompt as a link: some columns of one row.
#[derive(Clone, Copy, Debug, PartialEq, Eq, Structural)]
pub struct CompletedTurnActionLink {
    pub start_column: u16,
    pub end_column: u16,
    pub row: u16,
    pub action: CompletedTurnAction,
}

/// A sum of columns or rows that stops at the greatest number.
pub open spec fn further(a: u16, b: u16) -> u16 {
    if a + b > u16::MAX {
        u16::MAX
    } else {
        (a + b) as u16
    }
}

impl PlanView {
    /// How many rows lie above the first row of a turn.
    pub open spec fn above(self, place: PlaceView) -> usize {
        less(self.total_lines, more(place.rows_below, place.turn_height))
    }

    /// The row of the screen of a row of the conversation, where it is in
    /// sight.
    pub open spec fn on_screen(self, row: usize, area: Rect) -> Option<u16> {
        if row >= self.scroll && row - self.scroll < self.visible_height {
            Some(further(area.y, (row - self.scroll) as u16))
        } else {
            None
        }
    }

    /// The row of the screen of a turn's mark, where it is in sight.
    pub open spec fn mark_row(self, place: PlaceView, area: Rect) -> Option<u16> {
        self.on_screen(self.above(place), area)
    }

    /// The row of the screen of one of the rows of a turn's prompt, where it is
    /// in sight.
    pub open spec fn prompt_row(self, place: PlaceView, row: PromptRowGeometry, area: Rect) -> Option<
        u16,
    > {
        self.on_screen(more(self.above(place), row.row_offset), area)
    }

    /// The mark of a turn as something to click, given the column where it was
    /// drawn.
    pub open spec fn mark_hit(self, place: PlaceView, area: Rect, column: Option<u16>) -> Seq<
        CompletedTurnHitRegion,
    > {
        match (self.mark_row(place, area), column) {
            (Some(row), Some(column)) => seq![
                CompletedTurnHitRegion {
                    start_column: column,
                    end_column: further(column, 1),
                    row,
                    turn_index: place.turn_index,
                    kind: CompletedTurnHitKind::Triangle,
                },
            ],
            _ => Seq::empty(),
        }
    }

    /// The rows of the screen where the first `n` rows of a prompt are in sight.
    pub open spec fn prompt_rows_shown(self, place: PlaceView, area: Rect, n: int) -> Seq<u16>
        decreases n,
    {
        if n <= 0 {
            Seq::empty()
        } else {
            let rows = self.prompt_rows_shown(place, area, n - 1);
            match self.prompt_row(place, place.prompt_rows[n - 1], area) {
                Some(row) if area.width > 0 && area.x < u16::MAX => rows.push(row),
                _ => rows,
            }
        }
    }

    /// All the rows of the screen where a turn's prompt is in sight.
    pub open spec fn prompt_rows_in_sight(self, place: PlaceView, area: Rect) -> Seq<u16> {
        self.prompt_rows_shown(place, area, place.prompt_rows.len() as int)
    }

    /// What of a turn can be clicked: its mark, then its prompt over the whole
    /// width.
    pub open spec fn turn_hits(self, place: PlaceView, area: Rect, column: Option<u16>) -> Seq<
        CompletedTurnHitRegion,
    > {
        self.mark_hit(place, area, column) + self.prompt_rows_in_sight(place, area).map_values(
            |row: u16| prompt_hit(place, area, row),
        )
    }

    /// The prompt of a turn as links.
    pub open spec fn turn_links(self, place: PlaceView, area: Rect) -> Seq<
        CompletedTurnActionLink,
    > {
        self.prompt_rows_in_sight(place, area).map_values(|row: u16| prompt_link(place, area, row))
    }

    /// What can be clicked of the first `n` turns.
    pub open spec fn hits(self, area: Rect, columns: Seq<Option<u16>>, n: int) -> Seq<
        CompletedTurnHitRegion,
    >
        decreases n,
    {
        if n <= 0 {
            Seq::empty()
        } else {
            self.hits(area, columns, n - 1) + self.turn_hits(
                self.places[n - 1],
                area,
                column_at(columns, n - 1),
            )
        }
    }

    /// The prompts of the first `n` turns as links.
    pub open spec fn links(self, area: Rect, n: int) -> Seq<CompletedTurnActionLink>
        decreases n,
    {
        if n <= 0 {
            Seq::empty()
        } else {
            self.links(area, n - 1) + self.turn_links(self.places[n - 1], area)
        }
    }
}

/// The column where the mark of the `i`-th turn was drawn.
pub open spec fn column_at(columns: Seq<Option<u16>>, i: int) -> Option<u16> {
    if i < columns.len() {
        columns[i]
    } else {
        None
    }
}

/// A row of a prompt as something to click.
pub open spec fn prompt_hit(place: PlaceView, area: Rect, row: u16) -> CompletedTurnHitRegion {
    CompletedTurnHitRegion {
        start_column: area.x,
        end_column: further(area.x, area.width),
        row,
        turn_index: place.turn_index,
        kind: CompletedTurnHitKind::UserInput,
    }
}

/// A row of a prompt as a link.
pub open spec fn prompt_link(place: PlaceView, area: Rect, row: u16) -> CompletedTurnActionLink {
    CompletedTurnActionLink {
        start_column: area.x,
        end_column: further(area.x, area.width),
        row,
        action: if place.expanded {
            CompletedTurnAction::Collapse
        } else {
            CompletedTurnAction::Expand
        },
    }
}

impl ChatPlan {
    fn rows_above(&self, place: &TurnPlace) -> (r: usize)
        ensures
            r == self@.above(place@),
    {
        self.total_lines.saturating_sub(place.rows_below.saturating_add(place.turn_height))
    }

    fn screen_row(&self, row: usize, area: Rect) -> (r: Option<u16>)
        ensures
            r == self@.on_screen(row, area),
    {
        if row >= self.scroll && row - self.scroll < self.visible_height {
            Some(area.y.saturating_add((row - self.scroll) as u16))
        } else {
            None
        }
    }

    /// The row of the screen on which the mark of a turn is drawn, where it is
    /// in sight.
    pub fn mark_screen_row(&self, place: &TurnPlace, area: Rect) -> (r: Option<u16>)
        ensures
            r == self@.mark_row(place@, area),
    {
        let above: usize = self.rows_above(place);
        self.screen_row(above, area)
    }

    fn visible_prompt_rows(&self, place: &TurnPlace, area: Rect) -> (r: Vec<u16>)
        ensures
            r@ == self@.prompt_rows_in_sight(place@, area),
    {
        let above: usize = self.rows_above(place);
        let mut rows: Vec<u16> = Vec::new();
        let mut i: usize = 0;
        while i < place.prompt_rows.len()
            invariant
                i <= place.prompt_rows@.len(),
                above == self@.above(place@),
                rows@ == self@.prompt_rows_shown(place@, area, i as int),
            decreases place.prompt_rows.len() - i,
        {
            let row: usize = above.saturating_add(place.prompt_rows[i].row_offset);
            if let Some(row) = self.screen_row(row, area) {
                if area.x < area.x.saturating_add(area.width) {
                    rows.push(row);
                }
            }
            i += 1;
        }
        rows
    }

    fn add_turn_hits(
        &self,
        place: &TurnPlace,
        area: Rect,
        column: Option<u16>,
        hits: &mut Vec<CompletedTurnHitRegion>,
        links: &mut Vec<CompletedTurnActionLink>,
    )
        ensures
            final(hits)@ == old(hits)@ + self@.turn_hits(place@, area, column),
            final(links)@ == old(links)@ + self@.turn_links(place@, area),
    {
        let ghost hits_before = hits@;
        let ghost links_before = links@;
        match (self.mark_screen_row(place, area), column) {
            (Some(row), Some(column)) => {
                hits.push(
                    CompletedTurnHitRegion {
                        start_column: column,
                        end_column: column.saturating_add(1),
                        row,
                        turn_index: place.turn_index,
                        kind: CompletedTurnHitKind::Triangle,
                    },
                );
            },
            _ => {},
        }
        let ghost marked = hits@;
        proof {
            assert(marked =~= hits_before + self@.mark_hit(place@, area, column));
        }
        let rows = self.visible_prompt_rows(place, area);
        let end_column: u16 = area.x.saturating_add(area.width);
        let action = if place.expanded {
            CompletedTurnAction::Collapse
        } else {
            CompletedTurnAction::Expand
        };
        let ghost f = |row: u16| prompt_hit(place@, area, row);
        let ghost g = |row: u16| prompt_link(place@, area, row);
        let mut i: usize = 0;
        proof {
            assert(marked + rows@.map_values(f).take(0) =~= marked);
            assert(links_before + rows@.map_values(g).take(0) =~= links_before);
        }
        while i < rows.len()
            invariant
                i <= rows@.len(),
                f == (|row: u16| prompt_hit(place@, area, row)),
                g == (|row: u16| prompt_link(place@, area, row)),
                end_column == further(area.x, area.width),
                action == (if place.expanded {
                    CompletedTurnAction::Collapse
                } else {
                    CompletedTurnAction::Expand
                }),
                hits@ == marked + rows@.map_values(f).take(i as int),
                links@ == links_before + rows@.map_values(g).take(i as int),
            decreases rows.len() - i,
        {
            let row: u16 = rows[i];
            proof {
                let a = rows@.map_values(f);
                let b = rows@.map_values(g);
                assert(marked + a.take(i + 1) =~= (marked + a.take(i as int)).push(a[i as int]));
                assert(links_before + b.take(i + 1) =~= (links_before + b.take(i as int)).push(
                    b[i as int],
                ));
            }
            hits.push(
                CompletedTurnHitRegion {
                    start_column: area.x,
                    end_column,
                    row,
                    turn_index: place.turn_index,
                    kind: CompletedTurnHitKind::UserInput,
                },
            );
            links.push(CompletedTurnActionLink { start_column: area.x, end_column, row, action });
            i += 1;
        }
        proof {
            assert(rows@.map_values(f).take(i as int) =~= rows@.map_values(f));
            assert(rows@.map_values(g).take(i as int) =~= rows@.map_values(g));
            assert(hits@ =~= hits_before + self@.turn_hits(place@, area, column));
        }
    }

    /// What can be clicked of the drawn conversation, given the columns where the
    /// marks of the turns were drawn.
    pub fn completed_turn_hits(&self, area: Rect, columns: &Vec<Option<u16>>) -> (r: (
        Vec<CompletedTurnHitRegion>,
        Vec<CompletedTurnActionLink>,
    ))
        ensures
            r.0@ == self@.hits(area, columns@, self@.places.len() as int),
            r.1@ == self@.links(area, self@.places.len() as int),
    {
        let mut hits: Vec<CompletedTurnHitRegion> = Vec::new();
        let mut links: Vec<CompletedTurnActionLink> = Vec::new();
        let mut i: usize = 0;
        proof {
            assert(self@.places.len() == self.places@.len());
        }
        while i < self.places.len()
            invariant
                i <= self.places@.len(),
                self@.places.len() == self.places@.len(),
                hits@ == self@.hits(area, columns@, i as int),
                links@ == self@.links(area, i as int),
            decreases self.places.len() - i,
        {
            let column = if i < columns.len() {
                columns[i]
            } else {
                None
            };
            proof {
                assert(self@.places[i as int] == self.places@[i as int]@);
            }
            self.add_turn_hits(&self.places[i], area, column, &mut hits, &mut links);
            i += 1;
        }
        (hits, links)
    }
}

impl AppView {
    /// The pane scrolled so far that the selected turn is in sight.
    pub open spec fn selection_shown(self, offset: usize) -> AppView {
        let tab = self.current_tab();
        self.with_current(
            TabView {
                chat_scroll: ChatScroll { offset, ..tab.chat_scroll },
                completed_turn_selection_visible_pending: false,
                ..tab
            },
        )
    }

    /// The pane that knows how far up one can scroll.
    pub open spec fn scroll_bounded(self, max: usize) -> AppView {
        let tab = self.current_tab();
        self.with_current(TabView { chat_scroll: ChatScroll { max, ..tab.chat_scroll }, ..tab })
    }

    /// The pane once its conversation was drawn: what can be clicked is known;
    /// a turn that was to be in sight is; and how far up one can scroll is known,
    /// where the whole conversation was looked at.
    pub open spec fn drawn(self, plan: PlanView, hits: Seq<CompletedTurnHitRegion>) -> AppView {
        let s0 = AppView {
            pointer: PointerView { completed_turn_hits: hits, ..self.pointer },
            ..self
        };
        let s1 = if plan.selection_pending {
            s0.selection_shown(plan.offset)
        } else {
            s0
        };
        if plan.truncated {
            s1
        } else {
            s1.scroll_bounded(less(plan.total_lines, plan.visible_height))
        }
    }
}

impl App {
    fn note_hits(&mut self, hits: Vec<CompletedTurnHitRegion>)
        ensures
            final(self)@ == (AppView {
                pointer: PointerView { completed_turn_hits: hits@, ..old(self)@.pointer },
                ..old(self)@
            }),
    {
        self.pointer.completed_turn_hits = hits;
    }

    fn show_selection(&mut self, offset: usize)
        ensures
            final(self)@ == old(self)@.selection_shown(offset),
    {
        let tab = self.current_tab_mut();
        tab.chat_scroll.offset = offset;
        tab.completed_turn_selection_visible_pending = false;
    }

    fn bound_scroll(&mut self, max: usize)
        ensures
            final(self)@ == old(self)@.scroll_bounded(max),
    {
        let tab = self.current_tab_mut();
        tab.chat_scroll.max = max;
    }

    /// The conversation was drawn as planned.
    pub fn on_chat_drawn(&mut self, plan: &ChatPlan, hits: Vec<CompletedTurnHitRegion>)
        ensures
            final(self)@ == old(self)@.drawn(plan@, hits@),
    {
        self.note_hits(hits);
        if plan.selection_pending {
            self.show_selection(plan.offset);
        }
        if !plan.truncated {
            self.bound_scroll(plan.total_lines.saturating_sub(plan.visible_height));
        }
    }
}

// ---------------------------------------------------------------------------
// Laws
// ---------------------------------------------------------------------------

/// Whether something to click lies in an area.
pub open spec fn lies_in(hit: CompletedTurnHitRegion, area: Rect) -> bool {
    &&& area.x <= hit.start_column <= hit.end_column <= area.x + area.width
    &&& area.y <= hit.row < area.y + area.height
}

/// Whether the marks that were drawn stand in the columns of an area.
pub open spec fn marks_lie_in(columns: Seq<Option<u16>>, area: Rect) -> bool {
    forall|i: int|
        0 <= i < columns.len() ==> match #[trigger] columns[i] {
            Some(column) => area.x <= column < area.x + area.width,
            None => true,
        }
}

proof fn lemma_prompt_rows_in_the_pane(plan: PlanView, place: PlaceView, area: Rect, n: int)
    requires
        plan.visible_height == area.height,
        n <= place.prompt_rows.len(),
    ensures
        forall|i: int|
            0 <= i < plan.prompt_rows_shown(place, area, n).len() ==> area.y <= (
            #[trigger] plan.prompt_rows_shown(place, area, n)[i]) < area.y + area.height,
    decreases n,
{
    if n > 0 {
        lemma_prompt_rows_in_the_pane(plan, place, area, n - 1);
        let before = plan.prompt_rows_shown(place, area, n - 1);
        let rows = plan.prompt_rows_shown(place, area, n);
        assert forall|i: int| 0 <= i < rows.len() implies area.y <= (#[trigger] rows[i]) < area.y
            + area.height by {
            if i < before.len() {
                assert(rows[i] == before[i]);
            }
        }
    }
}

proof fn lemma_hits_in_the_pane(plan: PlanView, area: Rect, columns: Seq<Option<u16>>, turns: int, n: int)
    requires
        plan.visible_height == area.height,
        n <= plan.places.len(),
        forall|k: int| 0 <= k < plan.places.len() ==> (#[trigger] plan.places[k]).turn_index < turns,
        marks_lie_in(columns, area),
    ensures
        forall|i: int|
            0 <= i < plan.hits(area, columns, n).len() ==> lies_in(
                #[trigger] plan.hits(area, columns, n)[i],
                area,
            ) && plan.hits(area, columns, n)[i].turn_index < turns,
    decreases n,
{
    if n > 0 {
        lemma_hits_in_the_pane(plan, area, columns, turns, n - 1);
        let place = plan.places[n - 1];
        let above = plan.hits(area, columns, n - 1);
        let own = plan.turn_hits(place, area, column_at(columns, n - 1));
        lemma_prompt_rows_in_the_pane(plan, place, area, place.prompt_rows.len() as int);
        assert forall|i: int| 0 <= i < own.len() implies lies_in(#[trigger] own[i], area)
            && own[i].turn_index < turns by {
            let marks = plan.mark_hit(place, area, column_at(columns, n - 1));
            if i >= marks.len() {
                let row = plan.prompt_rows_in_sight(place, area)[i - marks.len()];
                assert(own[i] == prompt_hit(place, area, row));
            } else {
                assert(own[i] == marks[0]);
            }
        }
        assert forall|i: int| 0 <= i < plan.hits(area, columns, n).len() implies lies_in(
            #[trigger] plan.hits(area, columns, n)[i],
            area,
        ) && plan.hits(area, columns, n)[i].turn_index < turns by {
            if i >= above.len() {
                assert(plan.hits(area, columns, n)[i] == own[i - above.len()]);
            } else {
                assert(plan.hits(area, columns, n)[i] == above[i]);
            }
        }
    }
}

/// What can be clicked of the drawn conversation lies in the area it is drawn
/// in, where the marks do, and belongs to a turn that there is.
pub proof fn law_clicks_stay_in_the_pane(
    app: AppView,
    area: Rect,
    labels: ChatLabels,
    columns: Seq<Option<u16>>,
)
    requires
        app.current_tab().completed_turns.len() <= usize::MAX,
        marks_lie_in(columns, area),
    ensures
        ({
            let plan = chat_plan(app, area, labels);
            let hits = plan.hits(area, columns, plan.places.len() as int);
            forall|i: int|
                0 <= i < hits.len() ==> lies_in(#[trigger] hits[i], area) && hits[i].turn_index
                    < app.current_tab().completed_turns.len()
        }),
{
    let plan = chat_plan(app, area, labels);
    law_places_are_those_of_turns(app, area, labels);
    lemma_hits_in_the_pane(
        plan,
        area,
        columns,
        app.current_tab().completed_turns.len() as int,
        plan.places.len() as int,
    );
}

/// Once the conversation was drawn, no turn waits to be scrolled into sight, and
/// a second drawing does not scroll.
pub proof fn law_drawing_settles_the_selection(
    app: AppView,
    plan: PlanView,
    hits: Seq<CompletedTurnHitRegion>,
)
    requires
        plan.selection_pending == app.current_tab().completed_turn_selection_visible_pending,
    ensures
        !app.drawn(plan, hits).current_tab().completed_turn_selection_visible_pending,
        crate::chat::plan::selection_target(app.drawn(plan, hits).current_tab()) is None,
{
}

/// A click on the mark of a turn is one column wide, one on its prompt as wide as the
/// pane; both are for that turn, and the link says what a click does.
pub proof fn law_a_hit_is_for_its_turn(plan: PlanView, place: PlaceView, area: Rect, column: u16, row: u16)
    requires
        column < u16::MAX,
        area.x + area.width <= u16::MAX,
    ensures
        ({
            let mark = plan.mark_hit(place, area, Some(column));
            let prompt = prompt_hit(place, area, row);
            let link = prompt_link(place, area, row);
            &&& mark.len() == 1 ==> mark[0].turn_index == place.turn_index && mark[0].start_column
                == column && mark[0].end_column == column + 1 && mark[0].kind is Triangle
            &&& plan.mark_hit(place, area, None).len() == 0
            &&& prompt.turn_index == place.turn_index
            &&& prompt.start_column == area.x && prompt.end_column == area.x + area.width
            &&& prompt.row == row && prompt.kind is UserInput
            &&& link.start_column == area.x && link.end_column == area.x + area.width && link.row
                == row
            &&& place.expanded ==> link.action is Collapse
            &&& !place.expanded ==> link.action is Expand
        }),
{
}

/// A row is on the screen exactly where the scroll has brought it.
pub proof fn law_a_row_is_where_the_scroll_put_it(plan: PlanView, row: usize, area: Rect)
    requires
        plan.visible_height <= u16::MAX,
        area.y + plan.visible_height <= u16::MAX,
    ensures
        ({
            let shown = plan.on_screen(row, area);
            &&& shown is Some <==> plan.scroll <= row && row < plan.scroll + plan.visible_height
            &&& shown is Some ==> shown->0 == area.y + (row - plan.scroll)
        }),
{
}

/// What was drawn is where clicks go; how far can be scrolled is what does not fit.
pub proof fn law_drawing_says_where_clicks_go(
    app: AppView,
    plan: PlanView,
    hits: Seq<CompletedTurnHitRegion>,
)
    ensures
        ({
            let after = app.drawn(plan, hits);
            let tab = after.tabs[app.active_key()];
            let before = app.current_tab().chat_scroll;
            &&& after.pointer.completed_turn_hits == hits
            &&& !plan.truncated && plan.total_lines >= plan.visible_height ==> tab.chat_scroll.max
                == plan.total_lines - plan.visible_height
            &&& !plan.truncated && plan.total_lines < plan.visible_height ==> tab.chat_scroll.max
                == 0
            &&& plan.selection_pending ==> tab.chat_scroll.offset == plan.offset
            &&& !plan.selection_pending && !plan.truncated ==> tab.chat_scroll.offset
                == before.offset
            &&& after.effects == app.effects
        }),
{
}

/// Every prompt row in sight has its hit and its link, in the same row and for the
/// same columns.
pub proof fn law_every_prompt_row_can_be_clicked(plan: PlanView, place: PlaceView, area: Rect, i: int)
    requires
        0 <= i < plan.prompt_rows_in_sight(place, area).len(),
    ensures
        ({
            let rows = plan.prompt_rows_in_sight(place, area);
            let hits = plan.turn_hits(place, area, None);
            let links = plan.turn_links(place, area);
            &&& hits.len() == rows.len() && links.len() == rows.len()
            &&& hits[i].row == rows[i] && links[i].row == rows[i]
            &&& hits[i].turn_index == place.turn_index
            &&& hits[i].start_column == links[i].start_column && hits[i].end_column
                == links[i].end_column
        }),
{
}

/// Hits and links of all turns stand one behind the other.
pub proof fn law_hits_stand_behind_each_other(plan: PlanView, area: Rect, columns: Seq<Option<u16>>, n: int)
    requires
        0 < n <= plan.places.len(),
    ensures
        plan.hits(area, columns, 0).len() == 0,
        plan.links(area, 0).len() == 0,
        plan.links(area, n) == plan.links(area, n - 1) + plan.turn_links(plan.places[n - 1], area),
        n <= columns.len() ==> plan.hits(area, columns, n) == plan.hits(area, columns, n - 1)
            + plan.turn_hits(plan.places[n - 1], area, columns[n - 1]),
{
}

/// Above a turn stands what is neither the turn itself nor below it.
pub proof fn law_a_turn_stands_below_what_is_above(plan: PlanView, place: PlaceView, area: Rect)
    requires
        place.rows_below + place.turn_height <= plan.total_lines,
    ensures
        plan.above(place) + place.turn_height + place.rows_below == plan.total_lines,
        plan.mark_row(place, area) == plan.on_screen(plan.above(place), area),
{
}

/// A row of a prompt stands as far below the first as it is counted.
pub proof fn law_prompt_rows_follow_the_first(
    plan: PlanView,
    place: PlaceView,
    row: PromptRowGeometry,
    area: Rect,
)
    requires
        plan.above(place) + row.row_offset <= usize::MAX,
    ensures
        plan.prompt_row(place, row, area) == plan.on_screen(
            (plan.above(place) + row.row_offset) as usize,
            area,
        ),
{
}

} // verus!
