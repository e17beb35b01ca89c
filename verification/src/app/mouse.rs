//! The mouse and the keyboard.

use vstd::prelude::*;
use vstd::string::*;

use crate::app::effect::{EffectOf, KeyCode, KeyEvent};
use crate::app::event::{MouseEvent, MouseEventKind};
use crate::app::state::{
    no_selection, App, AppMode, AppView, ClickView, CompletedTurnClickRecord, CompletedTurnHitKind,
    CompletedTurnHitRegion, PointerView, PressedCompletedTurn, PressedView, Rect, TextSelection,
};
use crate::json::{entry, event, event_view, no_members, put, Json, JsonView};
use crate::tab::{PaneView, TabView};
use crate::text::{holds_text, same};

verus! {

/// The first region that covers a place.
pub open spec fn first_hit(hits: Seq<CompletedTurnHitRegion>, column: u16, row: u16) -> Option<
    CompletedTurnHitRegion,
>
    decreases hits.len(),
{
    if hits.len() == 0 {
        None
    } else if hits[0].covers(column, row) {
        Some(hits[0])
    } else {
        first_hit(hits.skip(1), column, row)
    }
}

/// The end of a stretch that begins at `start`, as far as the screen reaches.
pub open spec fn stretch_end(start: u16, length: u16) -> int {
    if start + length > u16::MAX {
        u16::MAX as int
    } else {
        start + length
    }
}

/// Whether an area of the screen holds a place.
pub open spec fn area_holds(area: Rect, column: u16, row: u16) -> bool {
    area.x <= column < stretch_end(area.x, area.width) && area.y <= row < stretch_end(
        area.y,
        area.height,
    )
}

impl AppView {
    /// The turn that can be clicked at a place: none while something else than
    /// the conversation takes the mouse.
    pub open spec fn turn_hit_at(self, column: u16, row: u16) -> Option<CompletedTurnHitRegion> {
        let tab = self.current_tab();
        if self.screen.mode != AppMode::Chat || tab.current_view != PaneView::Chat
            || self.screen.help_overlay_visible || tab.model_picker_open || tab.agent_picker_open
            || self.command_popup_open() {
            None
        } else {
            first_hit(self.pointer.completed_turn_hits, column, row)
        }
    }

    /// Whether the input takes a click at a place.
    pub open spec fn input_hit_at(self, column: u16, row: u16) -> bool {
        let tab = self.current_tab();
        match self.pointer.input_dialog_area {
            None => false,
            Some(area) => self.screen.mode == AppMode::Chat && tab.current_view == PaneView::Chat
                && tab.input_focusable && !self.screen.help_overlay_visible
                && !self.command_popup_open() && area_holds(area, column, row),
        }
    }

    /// The pane with no click under way.
    pub open spec fn click_cancelled(self) -> AppView {
        AppView {
            pointer: PointerView {
                pressed_completed_turn: None,
                last_completed_turn_click: None,
                pressed_input_dialog_tab: None,
                ..self.pointer
            },
            ..self
        }
    }

    /// The pane with another selection.
    pub open spec fn selecting_text(self, selection: TextSelection) -> AppView {
        AppView { pointer: PointerView { text_selection: selection, ..self.pointer }, ..self }
    }

    /// The pane once it asked for the selection to be copied.
    pub open spec fn selection_copy_asked(self) -> AppView {
        match self.pointer.text_selection.selected_text {
            Some(text) => self.asking(EffectOf::CopySelection(text@)),
            None => self,
        }
    }

    /// The request for a paste into the tab in front: none while the input
    /// cannot take one or the pane does not know where it is.
    pub open spec fn paste_request(self) -> Option<JsonView> {
        let tab = self.current_tab();
        if self.screen.mode != AppMode::Chat || tab.current_view != PaneView::Chat || !tab.pane_open
            || !tab.input_focusable || self.screen.help_overlay_visible
            || self.command_popup_open() {
            None
        } else {
            match (self.ids.window_id, self.ids.tab_id, self.ids.pane_id) {
                (Some(window), Some(tab_id), Some(pane)) => Some(
                    event_view(
                        "request_default_paste"@,
                        JsonView::Object(
                            seq![
                                entry("window_id"@, JsonView::Text(window)),
                                entry("tab_id"@, JsonView::Text(tab_id)),
                                entry("pane_id"@, JsonView::Text(pane)),
                            ],
                        ),
                    ),
                ),
                _ => None,
            }
        }
    }

    /// The pane after a right click: it copies the selection, or asks for a
    /// paste.
    pub open spec fn right_clicked(self) -> AppView {
        let s = self.click_cancelled();
        if s.pointer.text_selection.selected_text is Some {
            s.selection_copy_asked()
        } else {
            match s.paste_request() {
                Some(request) => s.with_current(s.current_tab().without_selection()).asking(
                    EffectOf::Send(request),
                ),
                None => s,
            }
        }
    }

    /// The pane after a key: copying comes first, everything else goes on to
    /// the keyboard.
    #[verifier::opaque]
    pub open spec fn key_pressed(self, key: KeyEvent) -> AppView {
        let s = self.click_cancelled();
        if key.code == KeyCode::Char('c') && key.modifiers.control
            && s.pointer.text_selection.selected_text is Some {
            s.selection_copy_asked()
        } else {
            s.selecting_text(no_selection()).asking(EffectOf::HandleKey(key))
        }
    }

    /// The pane once what the first click of a double click did to a turn was
    /// undone.
    pub open spec fn click_restored(self, column: u16, row: u16) -> AppView {
        let s = AppView {
            pointer: PointerView { last_completed_turn_click: None, ..self.pointer },
            ..self
        };
        match self.pointer.last_completed_turn_click {
            Some(click) if click.tab_id == self.active_key() && click.column == column && click.row
                == row => {
                let tab = s.current_tab();
                let i = click.turn_index as int;
                if i < tab.completed_turns.len() {
                    s.with_current(
                        TabView {
                            selected_completed_turn_idx: click.previous_selected_index,
                            completed_turn_selection_visible_pending:
                                click.previous_selection_pending,
                            ..tab.with_expanded(i, click.previous_expanded)
                        },
                    )
                } else {
                    s.with_current(tab)
                }
            },
            _ => s,
        }
    }

    /// The pane after the left button went down.
    pub open spec fn left_pressed(self, m: MouseEvent) -> AppView {
        let s = self.selecting_text(m.selection);
        let count = match m.selection.click_count {
            Some(n) => n,
            None => 1,
        };
        if count > 1 {
            let released = AppView {
                pointer: PointerView { pressed_completed_turn: None, ..s.pointer },
                ..s
            };
            if count == 2 {
                released.click_restored(m.column, m.row)
            } else {
                released
            }
        } else {
            let fresh = AppView {
                pointer: PointerView { last_completed_turn_click: None, ..s.pointer },
                ..s
            };
            if fresh.input_hit_at(m.column, m.row) {
                AppView {
                    pointer: PointerView {
                        pressed_input_dialog_tab: Some(fresh.active_key()),
                        pressed_completed_turn: None,
                        ..fresh.pointer
                    },
                    ..fresh
                }
            } else {
                AppView {
                    pointer: PointerView {
                        pressed_completed_turn: match fresh.turn_hit_at(m.column, m.row) {
                            Some(hit) => Some(PressedView { tab_id: fresh.active_key(), hit }),
                            None => None,
                        },
                        ..fresh.pointer
                    },
                    ..fresh
                }
            }
        }
    }

    /// Whether the left button, let go at a place, completes a click on the
    /// input.
    pub open spec fn completes_input_click(self, m: MouseEvent) -> bool {
        self.pointer.pressed_input_dialog_tab == Some(self.active_key()) && self.input_hit_at(
            m.column,
            m.row,
        )
    }

    /// The turn that is clicked when the left button is let go at a place.
    pub open spec fn clicked_turn(self, m: MouseEvent) -> Option<CompletedTurnHitRegion> {
        match (self.pointer.pressed_completed_turn, self.turn_hit_at(m.column, m.row)) {
            (Some(pressed), Some(released)) if !self.completes_input_click(m) && pressed.tab_id
                == self.active_key() && released.turn_index == pressed.hit.turn_index => Some(
                pressed.hit,
            ),
            _ => None,
        }
    }

    /// The pane after the left button was let go.
    pub open spec fn left_released(self, m: MouseEvent) -> AppView {
        if self.completes_input_click(m) {
            let s = AppView {
                pointer: PointerView {
                    pressed_input_dialog_tab: None,
                    pressed_completed_turn: None,
                    last_completed_turn_click: None,
                    text_selection: no_selection(),
                    ..self.pointer
                },
                ..self
            };
            s.with_current(s.current_tab().without_selection())
        } else {
            let s = AppView {
                pointer: PointerView {
                    pressed_input_dialog_tab: None,
                    pressed_completed_turn: None,
                    text_selection: m.selection,
                    ..self.pointer
                },
                ..self
            };
            match self.clicked_turn(m) {
                None => s,
                Some(hit) => {
                    let tab = s.current_tab();
                    let i = hit.turn_index as int;
                    let toggled = s.with_current(
                        tab.selecting(i).with_expanded(i, !tab.completed_turns[i].expanded),
                    );
                    if hit.kind == CompletedTurnHitKind::UserInput {
                        AppView {
                            pointer: PointerView {
                                last_completed_turn_click: Some(
                                    ClickView {
                                        tab_id: self.active_key(),
                                        column: m.column,
                                        row: m.row,
                                        turn_index: hit.turn_index,
                                        previous_selected_index: tab.selected_completed_turn_idx,
                                        previous_selection_pending:
                                            tab.completed_turn_selection_visible_pending,
                                        previous_expanded: tab.completed_turns[i].expanded,
                                    },
                                ),
                                ..toggled.pointer
                            },
                            ..toggled
                        }
                    } else {
                        toggled
                    }
                },
            }
        }
    }

    /// Whether the wheel turned.
    pub open spec fn is_wheel(m: MouseEvent) -> bool {
        m.kind == MouseEventKind::ScrollUp || m.kind == MouseEventKind::ScrollDown
    }

    /// The pane after an event of the mouse.
    #[verifier::opaque]
    pub open spec fn mouse_moved(self, m: MouseEvent) -> AppView {
        if Self::is_wheel(m) && self.current_tab().current_view == PaneView::Agents {
            self.click_cancelled().selecting_text(no_selection()).asking(
                EffectOf::HandleKey(
                    KeyEvent {
                        code: if m.kind == MouseEventKind::ScrollUp {
                            KeyCode::Up
                        } else {
                            KeyCode::Down
                        },
                        modifiers: m.modifiers,
                    },
                ),
            )
        } else if Self::is_wheel(m) && self.screen.mode == AppMode::Chat {
            let s = self.click_cancelled().selecting_text(no_selection());
            let rows: int = if m.modifiers.alt {
                1
            } else {
                3
            };
            let tab = s.current_tab();
            s.with_current(
                TabView {
                    chat_scroll: tab.chat_scroll.moved(
                        if m.kind == MouseEventKind::ScrollUp {
                            rows
                        } else {
                            -rows
                        },
                    ),
                    ..tab
                },
            )
        } else {
            match m.kind {
                MouseEventKind::RightDown => self.right_clicked(),
                MouseEventKind::LeftDown => self.left_pressed(m),
                MouseEventKind::LeftDrag => self.click_cancelled().selecting_text(m.selection),
                MouseEventKind::LeftUp => self.left_released(m),
                _ => self.selecting_text(m.selection),
            }
        }
    }

    /// Whether a turn that is clicked is still there.
    pub open spec fn clicked_turn_exists(self, m: MouseEvent) -> bool {
        m.kind == MouseEventKind::LeftUp ==> match self.clicked_turn(m) {
            Some(hit) => hit.turn_index < self.current_tab().completed_turns.len(),
            None => true,
        }
    }
}

impl App {
    /// The turn that can be clicked at a place.
    pub fn completed_turn_hit_at(&self, column: u16, row: u16) -> (r: Option<
        CompletedTurnHitRegion,
    >)
        ensures
            r == self@.turn_hit_at(column, row),
    {
        let popup = self.command_popup_visible();
        let (view, model_picker, agent_picker) = match self.current_tab() {
            Some(tab) => (tab.current_view, tab.model_picker_open, tab.agent_picker_open),
            None => (PaneView::Chat, false, false),
        };
        if self.screen.mode != AppMode::Chat || view != PaneView::Chat
            || self.screen.help_overlay_visible || model_picker || agent_picker || popup {
            return None;
        }
        let hits = &self.pointer.completed_turn_hits;
        let mut i: usize = 0;
        proof {
            assert(hits@.skip(0) =~= hits@);
        }
        while i < hits.len()
            invariant
                i <= hits.len(),
                first_hit(hits@, column, row) == first_hit(hits@.skip(i as int), column, row),
                self@.turn_hit_at(column, row) == first_hit(hits@, column, row),
            decreases hits.len() - i,
        {
            proof {
                assert(hits@.skip(i as int)[0] == hits@[i as int]);
                assert(hits@.skip(i as int).skip(1) =~= hits@.skip(i + 1));
            }
            if hits[i].contains(column, row) {
                return Some(hits[i]);
            }
            i += 1;
        }
        None
    }

    /// Whether the input takes a click at a place.
    pub fn input_dialog_at(&self, column: u16, row: u16) -> (r: bool)
        ensures
            r == self@.input_hit_at(column, row),
    {
        let area = match self.pointer.input_dialog_area {
            Some(area) => area,
            None => {
                return false;
            },
        };
        let (view, focusable) = match self.current_tab() {
            Some(tab) => (tab.current_view, tab.input_focusable),
            None => (PaneView::Chat, true),
        };
        let right: u16 = area.x.saturating_add(area.width);
        let below: u16 = area.y.saturating_add(area.height);
        self.screen.mode == AppMode::Chat && view == PaneView::Chat && focusable
            && !self.screen.help_overlay_visible && !self.command_popup_visible() && column
            >= area.x && column < right && row >= area.y && row < below
    }

    /// Gives up any click that is under way.
    pub fn cancel_completed_turn_click(&mut self)
        ensures
            final(self)@ == old(self)@.click_cancelled(),
    {
        self.pointer.pressed_completed_turn = None;
        self.pointer.last_completed_turn_click = None;
        self.pointer.pressed_input_dialog_tab = None;
    }

    /// Asks for the selection to be copied, where there is one.
    pub fn copy_text_selection(&mut self) -> (r: bool)
        ensures
            r == old(self)@.pointer.text_selection.selected_text is Some,
            final(self)@ == old(self)@.selection_copy_asked(),
    {
        let text = match &self.pointer.text_selection.selected_text {
            Some(text) => text.clone(),
            None => {
                return false;
            },
        };
        self.ask(EffectOf::CopySelection(text));
        true
    }

    fn clear_text_selection(&mut self)
        ensures
            final(self)@ == old(self)@.selecting_text(no_selection()),
    {
        self.pointer.text_selection = TextSelection { selected_text: None, click_count: None };
    }

    /// The request for a paste into the tab in front.
    pub fn default_paste_request_for_current_tab(&self) -> (r: Option<Json>)
        ensures
            match r {
                Some(j) => self@.paste_request() == Some(j@),
                None => self@.paste_request() is None,
            },
    {
        let (view, open, focusable) = match self.current_tab() {
            Some(tab) => (tab.current_view, tab.pane_open, tab.input_focusable),
            None => (PaneView::Chat, false, true),
        };
        if self.screen.mode != AppMode::Chat || view != PaneView::Chat || !open || !focusable
            || self.screen.help_overlay_visible || self.command_popup_visible() {
            return None;
        }
        match (&self.ids.window_id, &self.ids.tab_id, &self.ids.pane_id) {
            (Some(window), Some(tab_id), Some(pane)) => {
                let mut m = no_members();
                put(&mut m, "window_id", Json::of_text(window.as_str()));
                put(&mut m, "tab_id", Json::of_text(tab_id.as_str()));
                put(&mut m, "pane_id", Json::of_text(pane.as_str()));
                let params = Json::of_members(m);
                proof {
                    let want = self@.paste_request()->0->Object_0[2].value;
                    assert(params@->Object_0 =~= want->Object_0);
                }
                Some(event("request_default_paste", params))
            },
            _ => None,
        }
    }

    /// A right click.
    pub fn handle_right_click(&mut self)
        ensures
            final(self)@ == old(self)@.right_clicked(),
    {
        self.cancel_completed_turn_click();
        if self.copy_text_selection() {
            return;
        }
        match self.default_paste_request_for_current_tab() {
            None => {},
            Some(request) => {
                let tab = self.current_tab_mut();
                tab.clear_completed_turn_selection();
                self.ask(EffectOf::Send(request));
            },
        }
    }

    /// A key.
    pub fn on_key(&mut self, key: KeyEvent)
        ensures
            final(self)@ == old(self)@.key_pressed(key),
    {
        proof {
            reveal(AppView::key_pressed);
        }
        self.cancel_completed_turn_click();
        let is_copy = match key.code {
            KeyCode::Char(c) => c == 'c' && key.modifiers.control,
            _ => false,
        };
        if is_copy && self.copy_text_selection() {
            return;
        }
        self.clear_text_selection();
        self.ask(EffectOf::HandleKey(key));
    }

    /// Undoes what the first click of a double click did to a turn.
    pub fn restore_completed_turn_click(&mut self, column: u16, row: u16)
        ensures
            final(self)@ == old(self)@.click_restored(column, row),
    {
        let active = self.active_tab_key();
        let click = match self.pointer.last_completed_turn_click.take() {
            Some(click) => click,
            None => {
                return;
            },
        };
        if !(same(click.tab_id.as_str(), active.as_str()) && click.column == column && click.row
            == row) {
            return;
        }
        let tab = self.current_tab_mut();
        if click.turn_index < tab.completed_turns.len() {
            tab.set_expanded(click.turn_index, click.previous_expanded);
            tab.selected_completed_turn_idx = click.previous_selected_index;
            tab.completed_turn_selection_visible_pending = click.previous_selection_pending;
        }
    }

    fn on_left_down(&mut self, m: MouseEvent)
        ensures
            final(self)@ == old(self)@.left_pressed(m),
    {
        let column = m.column;
        let row = m.row;
        let count: usize = match m.selection.click_count {
            Some(n) => n,
            None => 1,
        };
        self.pointer.text_selection = m.selection;
        if count > 1 {
            self.pointer.pressed_completed_turn = None;
            if count == 2 {
                self.restore_completed_turn_click(column, row);
            }
            return;
        }
        self.pointer.last_completed_turn_click = None;
        if self.input_dialog_at(column, row) {
            let active = self.active_tab_key();
            self.pointer.pressed_input_dialog_tab = Some(active);
            self.pointer.pressed_completed_turn = None;
            return;
        }
        let hit = self.completed_turn_hit_at(column, row);
        let active = self.active_tab_key();
        self.pointer.pressed_completed_turn = match hit {
            Some(hit) => Some(PressedCompletedTurn { tab_id: active, hit }),
            None => None,
        };
    }

    fn on_left_up(&mut self, m: MouseEvent)
        requires
            m.kind == MouseEventKind::LeftUp,
            old(self)@.clicked_turn_exists(m),
        ensures
            final(self)@ == old(self)@.left_released(m),
    {
        let column = m.column;
        let row = m.row;
        let active = self.active_tab_key();
        let input_pressed = holds_text(&self.pointer.pressed_input_dialog_tab, active.as_str());
        let on_input = self.input_dialog_at(column, row);
        let released = self.completed_turn_hit_at(column, row);
        self.pointer.pressed_input_dialog_tab = None;
        if input_pressed && on_input {
            self.pointer.pressed_completed_turn = None;
            self.pointer.last_completed_turn_click = None;
            self.clear_text_selection();
            let tab = self.current_tab_mut();
            tab.clear_completed_turn_selection();
            return;
        }
        let pressed = self.pointer.pressed_completed_turn.take();
        self.pointer.text_selection = m.selection;
        let hit = match (pressed, released) {
            (Some(pressed), Some(released)) => {
                if same(pressed.tab_id.as_str(), active.as_str()) && released.turn_index
                    == pressed.hit.turn_index {
                    pressed.hit
                } else {
                    return;
                }
            },
            _ => {
                return;
            },
        };
        let tab = self.current_tab_mut();
        let previous_selected_index = tab.selected_completed_turn_idx;
        let previous_selection_pending = tab.completed_turn_selection_visible_pending;
        let previous_expanded = tab.completed_turns[hit.turn_index].expanded;
        proof {
            assert(tab@.completed_turns[hit.turn_index as int].expanded == previous_expanded);
        }
        if tab.select_completed_turn(hit.turn_index) && tab.toggle_completed_turn(hit.turn_index)
            && hit.kind == CompletedTurnHitKind::UserInput {
            self.pointer.last_completed_turn_click = Some(
                CompletedTurnClickRecord {
                    tab_id: active,
                    column,
                    row,
                    turn_index: hit.turn_index,
                    previous_selected_index,
                    previous_selection_pending,
                    previous_expanded,
                },
            );
        }
    }

    /// Whether a turn that is clicked is still there.
    pub fn clicked_turn_still_exists(&self, m: &MouseEvent) -> (r: bool)
        ensures
            r == self@.clicked_turn_exists(*m),
    {
        if m.kind != MouseEventKind::LeftUp {
            return true;
        }
        let active = self.active_tab_key();
        if holds_text(&self.pointer.pressed_input_dialog_tab, active.as_str())
            && self.input_dialog_at(m.column, m.row) {
            return true;
        }
        match (&self.pointer.pressed_completed_turn, self.completed_turn_hit_at(m.column, m.row)) {
            (Some(pressed), Some(released)) => {
                if same(pressed.tab_id.as_str(), active.as_str()) && released.turn_index
                    == pressed.hit.turn_index {
                    let n: usize = match self.current_tab() {
                        Some(tab) => {
                            proof {
                                assert(tab@.completed_turns.len() == tab.completed_turns@.len());
                            }
                            tab.completed_turns.len()
                        },
                        None => 0,
                    };
                    pressed.hit.turn_index < n
                } else {
                    true
                }
            },
            _ => true,
        }
    }

    /// An event of the mouse.
    pub fn on_mouse(&mut self, m: MouseEvent)
        requires
            old(self)@.clicked_turn_exists(m),
        ensures
            final(self)@ == old(self)@.mouse_moved(m),
    {
        proof {
            reveal(AppView::mouse_moved);
        }
        let wheel = match m.kind {
            MouseEventKind::ScrollUp => true,
            MouseEventKind::ScrollDown => true,
            _ => false,
        };
        if wheel && self.current_view() == PaneView::Agents {
            self.cancel_completed_turn_click();
            self.clear_text_selection();
            let code = if m.kind == MouseEventKind::ScrollUp {
                KeyCode::Up
            } else {
                KeyCode::Down
            };
            self.ask(EffectOf::HandleKey(KeyEvent { code, modifiers: m.modifiers }));
            return;
        }
        if wheel && self.screen.mode == AppMode::Chat {
            self.cancel_completed_turn_click();
            self.clear_text_selection();
            let rows: usize = if m.modifiers.alt {
                1
            } else {
                3
            };
            let tab = self.current_tab_mut();
            if m.kind == MouseEventKind::ScrollUp {
                tab.chat_scroll.up(rows);
            } else {
                tab.chat_scroll.down(rows);
            }
            return;
        }
        match m.kind {
            MouseEventKind::RightDown => {
                self.handle_right_click();
            },
            MouseEventKind::LeftDown => {
                self.on_left_down(m);
            },
            MouseEventKind::LeftDrag => {
                self.cancel_completed_turn_click();
                self.pointer.text_selection = m.selection;
            },
            MouseEventKind::LeftUp => {
                self.on_left_up(m);
            },
            _ => {
                self.pointer.text_selection = m.selection;
            },
        }
    }
}

/// A double click on the words of a turn leaves the turn as it was: what the
/// first click did to it, the second undoes.
pub proof fn law_double_click_restores_the_turn(
    app: AppView,
    up: MouseEvent,
    down: MouseEvent,
)
    requires
        app.clicked_turn(up) is Some,
        app.clicked_turn(up)->0.kind == CompletedTurnHitKind::UserInput,
        app.clicked_turn(up)->0.turn_index < app.current_tab().completed_turns.len(),
        down.selection.click_count == Some(2usize),
        down.column == up.column,
        down.row == up.row,
        app.tabs.contains_key(app.active_key()),
    ensures
        app.left_released(up).left_pressed(down).tabs == app.tabs,
        app.left_released(up).left_pressed(down).tab_order == app.tab_order,
{
    let tab = app.current_tab();
    let i = app.clicked_turn(up)->0.turn_index as int;
    let first = app.left_released(up);
    let last = first.left_pressed(down);
    assert(first.active_key() == app.active_key());
    let restored = last.current_tab();
    assert(tab.selecting(i).with_expanded(i, !tab.completed_turns[i].expanded).with_expanded(
        i,
        tab.completed_turns[i].expanded,
    ).completed_turns =~= tab.completed_turns);
    assert(restored == tab);
    assert(last.tabs =~= app.tabs);
}

/// Restoring a click on the words of a turn gives back what was there before the
/// click: whether the turn was expanded, which turn was selected and whether it
/// was to be scrolled into sight. The click is then forgotten.
pub proof fn law_restoring_gives_back_what_was(app: AppView, up: MouseEvent)
    requires
        app.clicked_turn(up) is Some,
        app.clicked_turn(up)->0.kind == CompletedTurnHitKind::UserInput,
        app.clicked_turn(up)->0.turn_index < app.current_tab().completed_turns.len(),
    ensures
        ({
            let restored = app.left_released(up).click_restored(up.column, up.row);
            let was = app.current_tab();
            let now = restored.current_tab();
            &&& now.completed_turns == was.completed_turns
            &&& now.selected_completed_turn_idx == was.selected_completed_turn_idx
            &&& now.completed_turn_selection_visible_pending
                == was.completed_turn_selection_visible_pending
            &&& restored.pointer.last_completed_turn_click is None
        }),
{
    let tab = app.current_tab();
    let i = app.clicked_turn(up)->0.turn_index as int;
    let first = app.left_released(up);
    assert(first.active_key() == app.active_key());
    assert(tab.selecting(i).with_expanded(i, !tab.completed_turns[i].expanded).with_expanded(
        i,
        tab.completed_turns[i].expanded,
    ).completed_turns =~= tab.completed_turns);
}

/// A place other than that of the last click, or another tab, restores nothing;
/// the click is forgotten all the same.
pub proof fn law_restoring_elsewhere_changes_nothing(app: AppView, column: u16, row: u16)
    ensures
        app.click_restored(column, row).pointer.last_completed_turn_click is None,
        (app.pointer.last_completed_turn_click matches Some(click) ==> click.tab_id
            != app.active_key() || click.column != column || click.row != row) ==> {
            &&& app.click_restored(column, row).tabs == app.tabs
            &&& app.click_restored(column, row).tab_order == app.tab_order
        },
{
}

} // verus!
