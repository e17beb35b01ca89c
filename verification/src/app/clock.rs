//! The clock and the window.

use std::collections::VecDeque;

use vstd::prelude::*;
use vstd::string::*;

use crate::app::effect::WtNotification;
use crate::app::state::{
    no_selection, tabs_view, App, AppMode, AppView, ConnectionState, ScreenView, TextSelection,
    TransientHint, SELECTION_COPIED_HINT_MS,
};
use crate::chat::status::ACTIVITY_CYCLE_FRAMES;
use crate::keyed::{lemma_values_mapped, Keyed};
use crate::phrases::Phrase;
use crate::tab::{TabSession, TabView};
use crate::tab_actions::next_generation;

verus! {

/// How many messages for debugging are kept.
pub const MAX_DEBUG_MESSAGES: usize = 500;

/// How many notifications are kept.
pub const MAX_NOTIFICATIONS: usize = 20;

/// The frame after `frame` in the cycle of the animation.
pub open spec fn next_frame(frame: usize) -> usize {
    ((frame + 1) % (ACTIVITY_CYCLE_FRAMES as int)) as usize
}

impl TabView {
    /// The tab after a tick: only a turn in flight is animated.
    pub open spec fn ticked(self) -> TabView {
        if self.turn.in_flight() {
            TabView { activity_frame: next_frame(self.activity_frame), ..self }
        } else {
            self
        }
    }
}

/// A notification, older by a tick.
pub open spec fn aged(n: WtNotification) -> WtNotification {
    WtNotification {
        age_ticks: if n.age_ticks == u32::MAX {
            u32::MAX
        } else {
            (n.age_ticks + 1) as u32
        },
        ..n
    }
}

/// Whether a notification has reached the age at which it goes.
pub open spec fn expired(n: WtNotification) -> bool {
    match n.dismiss_at {
        Some(age) => n.age_ticks >= age,
        None => false,
    }
}

/// The notifications that are left after a tick.
pub open spec fn ticked_notifications(v: Seq<WtNotification>) -> Seq<WtNotification> {
    v.map_values(|n: WtNotification| aged(n)).filter(|n: WtNotification| !expired(n))
}

/// All notifications are acknowledged.
pub open spec fn all_acknowledged(v: Seq<WtNotification>) -> bool {
    forall|i: int| 0 <= i < v.len() ==> (#[trigger] v[i]).acknowledged
}

impl AppView {
    /// Whether something beside the turns is animated: setting up, signing in,
    /// connecting, or waiting for the list of sessions.
    pub open spec fn is_animated(self) -> bool {
        ||| self.screen.mode == AppMode::Setup
        ||| self.screen.mode == AppMode::Auth
        ||| self.settings.agents_snapshot_pending
        ||| self.agent.state is Connecting
    }

    /// The pane after a tick.
    #[verifier::opaque]
    pub open spec fn ticked(self) -> AppView {
        let left = ticked_notifications(self.screen.wt_notifications);
        AppView {
            tabs: self.tabs.map_values(|t: TabView| t.ticked()),
            screen: ScreenView {
                activity_frame: if self.is_animated() {
                    next_generation(self.screen.activity_frame)
                } else {
                    self.screen.activity_frame
                },
                wt_notifications: left,
                show_notification_banner: self.screen.show_notification_banner && !all_acknowledged(
                    left,
                ),
                ..self.screen
            },
            ..self
        }
    }

    /// The pane in a window of another size.
    pub open spec fn resized(self, cols: u16, rows: u16) -> AppView {
        let s = self.click_cancelled().selecting_text(no_selection());
        AppView {
            screen: ScreenView { terminal_cols: cols, terminal_rows: rows, ..s.screen },
            ..s
        }
    }

    /// The pane once it has, or has lost, the focus.
    pub open spec fn focused(self, focused: bool) -> AppView {
        let s = self.click_cancelled();
        AppView { screen: ScreenView { pane_focused: focused, ..s.screen }, ..s }
    }

    /// The pane once its selection was copied.
    #[verifier::opaque]
    pub open spec fn selection_copied(self, now_ms: u64) -> AppView {
        let s = self.selecting_text(no_selection());
        AppView {
            screen: ScreenView {
                close_pane_armed_at: None,
                transient_hint: Some(
                    TransientHint {
                        phrase: Phrase::SelectionCopied,
                        until_ms: if now_ms + SELECTION_COPIED_HINT_MS > u64::MAX {
                            u64::MAX
                        } else {
                            (now_ms + SELECTION_COPIED_HINT_MS) as u64
                        },
                    },
                ),
                ..s.screen
            },
            ..s
        }
    }

    /// The pane once its selection could not be copied.
    pub open spec fn selection_copy_failed(self) -> AppView {
        AppView { screen: ScreenView { transient_hint: None, ..self.screen }, ..self }
    }

    /// The pane with one more message for debugging; the oldest goes when there
    /// are too many.
    #[verifier::opaque]
    pub open spec fn debug_noted(self, message: String) -> AppView {
        let all = self.screen.debug_messages.push(message);
        AppView {
            screen: ScreenView {
                debug_messages: if all.len() > MAX_DEBUG_MESSAGES {
                    all.skip(1)
                } else {
                    all
                },
                ..self.screen
            },
            ..self
        }
    }

    /// The pane with one more notification; the oldest goes when there are too
    /// many.
    #[verifier::opaque]
    pub open spec fn notified(self, n: WtNotification) -> AppView {
        let all = self.screen.wt_notifications.push(n);
        AppView {
            screen: ScreenView {
                wt_notifications: if all.len() > MAX_NOTIFICATIONS {
                    all.skip(1)
                } else {
                    all
                },
                ..self.screen
            },
            ..self
        }
    }
}

/// A tab after a tick.
spec fn ticked_session(t: TabSession) -> TabSession {
    if t.turn.in_flight() {
        TabSession { activity_frame: next_frame(t.activity_frame), ..t }
    } else {
        t
    }
}

fn tick_tabs(tabs: &mut Keyed<TabSession>)
    ensures
        tabs_view(final(tabs)@) == tabs_view(old(tabs)@).map_values(|t: TabView| t.ticked()),
        final(tabs).keys() == old(tabs).keys(),
{
    let ghost before = *tabs;
    let ghost f = |t: TabSession| ticked_session(t);
    let n: usize = tabs.count();
    let mut i: usize = 0;
    while i < n
        invariant
            i <= n,
            n == before.values().len(),
            f == (|t: TabSession| ticked_session(t)),
            tabs.keys() == before.keys(),
            tabs.values().len() == n,
            forall|k: int| 0 <= k < i ==> #[trigger] tabs.values()[k] == f(before.values()[k]),
            forall|k: int| i <= k < n ==> #[trigger] tabs.values()[k] == before.values()[k],
        decreases n - i,
    {
        let tab = tabs.value_mut(i);
        if tab.turn.is_in_flight() {
            tab.activity_frame = (tab.activity_frame % ACTIVITY_CYCLE_FRAMES + 1)
                % ACTIVITY_CYCLE_FRAMES;
        }
        i += 1;
    }
    proof {
        assert(tabs.values() =~= before.values().map_values(f));
        lemma_values_mapped(before, *tabs, f);
        assert(tabs_view(tabs@) =~= tabs_view(before@).map_values(|t: TabView| t.ticked()));
    }
}

fn tick_notifications(v: &mut VecDeque<WtNotification>) -> (r: bool)
    ensures
        final(v)@ == ticked_notifications(old(v)@),
        r == all_acknowledged(final(v)@),
{
    let ghost all = v@.map_values(|n: WtNotification| aged(n));
    let ghost p = |n: WtNotification| !expired(n);
    let mut rest: VecDeque<WtNotification> = VecDeque::new();
    std::mem::swap(v, &mut rest);
    let mut kept: VecDeque<WtNotification> = VecDeque::new();
    let mut acknowledged = true;
    proof {
        assert(kept@ =~= all.take(0).filter(p));
        assert(rest@.map_values(|n: WtNotification| aged(n)) =~= all.skip(0));
    }
    while rest.len() > 0
        invariant
            rest@.len() <= all.len(),
            p == (|n: WtNotification| !expired(n)),
            rest@.map_values(|n: WtNotification| aged(n)) == all.skip(all.len() - rest@.len()),
            kept@ == all.take(all.len() - rest@.len()).filter(p),
            acknowledged == all_acknowledged(kept@),
        decreases rest.len(),
    {
        let ghost k = all.len() - rest@.len();
        let ghost was = rest@;
        let mut n = rest.pop_front().unwrap();
        proof {
            assert(was.map_values(|n: WtNotification| aged(n))[0] == aged(was[0]));
            assert(all[k] == aged(n));
            assert(rest@ =~= was.skip(1));
            assert(rest@.map_values(|n: WtNotification| aged(n)) =~= was.map_values(
                |n: WtNotification| aged(n),
            ).skip(1));
            assert(all.skip(k).skip(1) =~= all.skip(k + 1));
            assert(all.take(k + 1) =~= all.take(k).push(aged(n)));
            all.take(k).lemma_filter_push(aged(n), p);
        }
        n.age_ticks = n.age_ticks.saturating_add(1);
        let gone = match n.dismiss_at {
            Some(age) => n.age_ticks >= age,
            None => false,
        };
        if !gone {
            let seen = n.acknowledged;
            let ghost had = kept@;
            kept.push_back(n);
            proof {
                assert(kept@ =~= had.push(n));
                assert(all_acknowledged(kept@) == (all_acknowledged(had) && n.acknowledged)) by {
                    if all_acknowledged(had) && n.acknowledged {
                        assert forall|i: int| 0 <= i < kept@.len() implies (
                        #[trigger] kept@[i]).acknowledged by {
                            if i < had.len() {
                                assert(kept@[i] == had[i]);
                            }
                        }
                    }
                    if all_acknowledged(kept@) {
                        assert(kept@[had.len() as int].acknowledged);
                        assert forall|i: int| 0 <= i < had.len() implies (
                        #[trigger] had[i]).acknowledged by {
                            assert(kept@[i] == had[i]);
                        }
                    }
                }
            }
            acknowledged = acknowledged && seen;
        }
    }
    proof {
        assert(all.take(all.len() as int) =~= all);
    }
    *v = kept;
    acknowledged
}

impl App {
    /// A tick of the clock.
    pub fn on_tick(&mut self)
        ensures
            final(self)@ == old(self)@.ticked(),
    {
        proof {
            reveal(AppView::ticked);
        }
        tick_tabs(&mut self.tabs);
        let connecting = match &self.agent.state {
            ConnectionState::Connecting(_) => true,
            _ => false,
        };
        if self.screen.mode == AppMode::Setup || self.screen.mode == AppMode::Auth
            || self.settings.agents_snapshot_pending || connecting {
            self.screen.activity_frame = self.screen.activity_frame.wrapping_add(1);
        }
        let acknowledged = tick_notifications(&mut self.screen.wt_notifications);
        if acknowledged {
            self.screen.show_notification_banner = false;
        }
    }

    /// The window has another size.
    pub fn on_resize(&mut self, cols: u16, rows: u16)
        ensures
            final(self)@ == old(self)@.resized(cols, rows),
    {
        self.cancel_completed_turn_click();
        self.pointer.text_selection = TextSelection { selected_text: None, click_count: None };
        self.screen.terminal_cols = cols;
        self.screen.terminal_rows = rows;
    }

    /// The pane has, or has lost, the focus.
    pub fn on_focus(&mut self, focused: bool)
        ensures
            final(self)@ == old(self)@.focused(focused),
    {
        self.cancel_completed_turn_click();
        self.screen.pane_focused = focused;
    }

    /// The selection was copied.
    pub fn on_selection_copied(&mut self, now_ms: u64)
        ensures
            final(self)@ == old(self)@.selection_copied(now_ms),
    {
        proof {
            reveal(AppView::selection_copied);
        }
        self.pointer.text_selection = TextSelection { selected_text: None, click_count: None };
        self.screen.close_pane_armed_at = None;
        self.screen.transient_hint = Some(
            TransientHint {
                phrase: Phrase::SelectionCopied,
                until_ms: now_ms.saturating_add(SELECTION_COPIED_HINT_MS),
            },
        );
    }

    /// The selection could not be copied.
    pub fn on_selection_copy_failed(&mut self)
        ensures
            final(self)@ == old(self)@.selection_copy_failed(),
    {
        self.screen.transient_hint = None;
    }

    /// A message for debugging.
    pub fn on_debug_message(&mut self, message: String)
        ensures
            final(self)@ == old(self)@.debug_noted(message),
    {
        proof {
            reveal(AppView::debug_noted);
        }
        self.screen.debug_messages.push(message);
        if self.screen.debug_messages.len() > MAX_DEBUG_MESSAGES {
            let ghost all = self.screen.debug_messages@;
            self.screen.debug_messages.remove(0);
            proof {
                assert(self.screen.debug_messages@ =~= all.skip(1));
            }
        }
    }

    /// Puts a notification into the queue.
    pub fn queue_notification(&mut self, n: WtNotification)
        ensures
            final(self)@ == old(self)@.notified(n),
    {
        proof {
            reveal(AppView::notified);
        }
        self.screen.wt_notifications.push_back(n);
        if self.screen.wt_notifications.len() > MAX_NOTIFICATIONS {
            let ghost all = self.screen.wt_notifications@;
            self.screen.wt_notifications.pop_front();
            proof {
                assert(self.screen.wt_notifications@ =~= all.skip(1));
            }
        }
    }
}

/// A queue of notifications that keeps to its cap goes on keeping to it, and
/// the newest notification is always in it.
pub proof fn law_notifications_stay_capped(app: AppView, n: WtNotification)
    requires
        app.screen.wt_notifications.len() <= MAX_NOTIFICATIONS,
    ensures
        app.notified(n).screen.wt_notifications.len() <= MAX_NOTIFICATIONS,
        app.notified(n).screen.wt_notifications.last() == n,
{
    reveal(AppView::notified);
}

/// The messages for debugging keep to their cap, and the newest is always
/// among them.
pub proof fn law_debug_messages_stay_capped(app: AppView, message: String)
    requires
        app.screen.debug_messages.len() <= MAX_DEBUG_MESSAGES,
    ensures
        app.debug_noted(message).screen.debug_messages.len() <= MAX_DEBUG_MESSAGES,
        app.debug_noted(message).screen.debug_messages.last() == message,
{
    reveal(AppView::debug_noted);
}

/// A tick animates every tab whose turn is in flight, also one in the
/// background, and no other; a frame of the animation stays in its cycle.
pub proof fn law_tick_animates_turns_in_flight(app: AppView, key: Seq<char>)
    requires
        app.tabs.contains_key(key),
    ensures
        app.ticked().tabs.contains_key(key),
        app.tabs[key].turn.in_flight() ==> app.ticked().tabs[key].activity_frame == next_frame(
            app.tabs[key].activity_frame,
        ) && next_frame(app.tabs[key].activity_frame) < ACTIVITY_CYCLE_FRAMES,
        !app.tabs[key].turn.in_flight() ==> app.ticked().tabs[key] == app.tabs[key],
{
    reveal(AppView::ticked);
}

} // verus!
