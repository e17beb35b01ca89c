//! What comes of each thing that the terminal tells the pane.

use vstd::prelude::*;
use vstd::string::*;

use crate::app::effect::{EffectView, SessionEvent, WtEventSeverity, WtNotification};
use crate::app::event::{AppEvent, SessionOrigin, WtEvent};
use crate::app::state::{AppView, CatalogView, PaneSettings};
use crate::app::terminal::{is_zero, marks_prompt, marks_success};
use crate::models::{customs_view, models_view, tidy_catalog, tidy_selection};
use crate::tab::BarView;
use crate::text::{all_white, is_white, law_trimming_takes_white_ends, opt_view, trimmed};
use crate::transcript::ChatMessageView;

verus! {

/// The methods of the terminal are told apart by their names.
proof fn lemma_methods_differ()
    ensures
        "agent_event"@.len() == 11 && "agent_event"@[0] == 'a',
        "autofix_execute"@.len() == 15 && "autofix_execute"@[0] == 'a',
        "autofix_dismiss_suggestion"@.len() == 26,
        "autofix_execute_from_detected"@.len() == 29,
        "agent_prompt"@.len() == 12 && "agent_prompt"@[0] == 'a',
        "agent_paste_text"@.len() == 16 && "agent_paste_text"@[0] == 'a',
        "agent_config_changed"@.len() == 20,
        "tab_changed"@.len() == 11 && "tab_changed"@[0] == 't' && "tab_changed"@[4] == 'c',
        "tab_closed"@.len() == 10,
        "tab_renamed"@.len() == 11 && "tab_renamed"@[0] == 't' && "tab_renamed"@[4] == 'r',
        "reset_tab_session"@.len() == 17,
        "load_session"@.len() == 12 && "load_session"@[0] == 'l',
        "set_agent_state"@.len() == 15 && "set_agent_state"@[0] == 's',
        "vt_sequence"@.len() == 11 && "vt_sequence"@[0] == 'v',
        "connection_state"@.len() == 16 && "connection_state"@[0] == 'c',
        "closed"@[0] == 'c',
        "failed"@[0] == 'f',
{
    reveal_strlit("agent_event");
    reveal_strlit("autofix_execute");
    reveal_strlit("autofix_dismiss_suggestion");
    reveal_strlit("autofix_execute_from_detected");
    reveal_strlit("agent_prompt");
    reveal_strlit("agent_paste_text");
    reveal_strlit("agent_config_changed");
    reveal_strlit("tab_changed");
    reveal_strlit("tab_closed");
    reveal_strlit("tab_renamed");
    reveal_strlit("reset_tab_session");
    reveal_strlit("load_session");
    reveal_strlit("set_agent_state");
    reveal_strlit("vt_sequence");
    reveal_strlit("connection_state");
    reveal_strlit("closed");
    reveal_strlit("failed");
}

/// Whether an event names no window, or this one.
pub open spec fn meant_for_window(app: AppView, e: WtEvent) -> bool {
    let named = e.params@.text_member("window_id"@);
    named is None || named->0.len() == 0 || app.ids.window_id is None || app.ids.window_id->0.len()
        == 0 || named == app.ids.window_id
}

/// Whether an event names no tab, or the one that the pane belongs to.
pub open spec fn meant_for_tab(app: AppView, e: WtEvent) -> bool {
    let named = e.params@.text_member("tab_id"@);
    named is None || named->0.len() == 0 || app.ids.owner_tab_id is None
        || app.ids.owner_tab_id->0.len() == 0 || named == app.ids.owner_tab_id
}

// ---------------------------------------------------------------------------
// Settings
// ---------------------------------------------------------------------------

proof fn lemma_settings(app: AppView, e: WtEvent)
    requires
        e.method@ == "agent_config_changed"@,
    ensures
        app.after(AppEvent::WtEvent(e)) == app.configured(e.params@, e.cloud_models, e.custom_models),
{
    reveal(AppView::terminal_told);
    lemma_methods_differ();
}

/// Fixes are offered from then on as the settings say, and as before where they
/// say nothing; the other settings of the pane stay.
pub proof fn law_fixes_are_offered_as_the_settings_say(app: AppView, e: WtEvent)
    requires
        e.method@ == "agent_config_changed"@,
        meant_for_tab(app, e),
    ensures
        ({
            let after = app.after(AppEvent::WtEvent(e));
            let said = e.params@.bool_member("autofix_enabled"@);
            &&& said == Some(true) ==> after.settings.autofix_enabled
            &&& said == Some(false) ==> !after.settings.autofix_enabled
            &&& said is None ==> after.settings == app.settings
            &&& after.settings == (PaneSettings {
                autofix_enabled: after.settings.autofix_enabled,
                ..app.settings
            })
            &&& after.tabs == app.tabs
            &&& after.screen == app.screen
        }),
{
    lemma_settings(app, e);
    reveal(AppView::configured);
}

/// Settings of the delegate and of the model are handed on with what they say, in
/// that order, and only where they say something.
#[verifier::rlimit(40)]
pub proof fn law_settings_are_handed_on(app: AppView, e: WtEvent)
    requires
        e.method@ == "agent_config_changed"@,
        meant_for_tab(app, e),
    ensures
        ({
            let asked = app.after(AppEvent::WtEvent(e)).effects.skip(app.effects.len() as int);
            let agent = e.params@.text_member("delegate_agent"@);
            let model = e.params@.text_member("delegate_model"@);
            let pane_model = e.params@.text_member("acp_model"@);
            let pane_agent = e.params@.text_member("target_agent_id"@);
            let delegates = e.params@.member("delegate_agent"@) is Some || e.params@.member(
                "delegate_model"@,
            ) is Some;
            let remodels = pane_model is Some && pane_agent is Some;
            let at: int = if delegates { 1 } else { 0 };
            &&& app.effects.is_prefix_of(app.after(AppEvent::WtEvent(e)).effects)
            &&& delegates ==> asked.len() > 0 && asked[0] is ApplyDelegateConfig && (agent is Some
                ==> asked[0]->ApplyDelegateConfig_agent == agent->0) && (model is Some
                ==> asked[0]->ApplyDelegateConfig_model == model->0) && (agent is None
                ==> asked[0]->ApplyDelegateConfig_agent.len() == 0) && (model is None
                ==> asked[0]->ApplyDelegateConfig_model.len() == 0)
            &&& remodels ==> asked.len() > at && asked[at] is ApplyGlobalModel
                && asked[at]->ApplyGlobalModel_agent_id == pane_agent->0
                && asked[at]->ApplyGlobalModel_model == pane_model->0
            &&& forall|i: int|
                0 <= i < asked.len() ==> ((#[trigger] asked[i]) is ApplyDelegateConfig ==> delegates)
                    && (asked[i] is ApplyGlobalModel ==> remodels)
        }),
{
    lemma_settings(app, e);
    reveal(AppView::configured);
    let s1 = app.autofix_configured(e.params@);
    let s2 = s1.delegate_configured(e.params@);
    let s3 = s2.model_configured(e.params@);
    let s4 = s3.catalog_configured(e.params@, e.cloud_models, e.custom_models);
    assert(s1.effects == app.effects);
    assert(s4.effects == s3.effects || (s4.effects.len() == s3.effects.len() + 1
        && s4.effects.drop_last() == s3.effects && s4.effects.last() is Send));
    let asked = s4.effects.skip(app.effects.len() as int);
    let so_far = s3.effects.skip(app.effects.len() as int);
    assert(asked == so_far || asked =~= so_far.push(s4.effects.last()));
}

/// Models of the cloud that a setting brings are the models of the cloud from then
/// on, for an agent of the host; the catalog is then known to be there, and told.
pub proof fn law_cloud_models_are_taken_over(app: AppView, e: WtEvent)
    requires
        e.method@ == "agent_config_changed"@,
        meant_for_tab(app, e),
        e.custom_models is Absent,
        e.params@.member("custom_model_selection"@) is None,
    ensures
        ({
            let after = app.after(AppEvent::WtEvent(e));
            &&& app.agent.source is Host && e.cloud_models is Present ==> after.catalog.cloud_models
                == models_view(e.cloud_models->Present_0@) && after.catalog.host_catalog_ready
                && after.effects.last() is Send
            &&& !(app.agent.source is Host) || !(e.cloud_models is Present) ==> after.catalog
                == app.catalog
        }),
{
    lemma_settings(app, e);
    reveal(AppView::configured);
    reveal(CatalogView::rebuilt);
}

// ---------------------------------------------------------------------------
// Tabs
// ---------------------------------------------------------------------------

/// The pane follows the terminal to the tab that it names, within its own window.
pub proof fn law_the_pane_follows_the_tab(app: AppView, e: WtEvent)
    requires
        e.method@ == "tab_changed"@,
    ensures
        ({
            let after = app.after(AppEvent::WtEvent(e));
            let named = e.params@.text_member("tab_id"@);
            &&& named is Some && meant_for_window(app, e) ==> after.effects == app.effects.push(
                EffectView::SwitchTab { tab_id: named->0 },
            )
            &&& named is None || !meant_for_window(app, e) ==> after == app
            &&& after.tabs == app.tabs
        }),
{
    reveal(AppView::terminal_told);
    reveal(AppView::tab_changed);
    lemma_methods_differ();
}

/// A tab that was closed in this window is dropped; one of another window is only
/// asked about.
pub proof fn law_a_closed_tab_is_dropped(app: AppView, e: WtEvent)
    requires
        e.method@ == "tab_closed"@,
    ensures
        ({
            let after = app.after(AppEvent::WtEvent(e));
            let named = e.params@.text_member("tab_id"@);
            &&& named is Some && meant_for_window(app, e) ==> after.effects == app.effects.push(
                EffectView::DropTab { tab_id: named->0 },
            )
            &&& named is Some && !meant_for_window(app, e) ==> after.effects == app.effects.push(
                EffectView::RequestTabClose { tab_id: named->0 },
            )
            &&& named is None ==> after == app
        }),
{
    reveal(AppView::terminal_told);
    reveal(AppView::tab_closed);
    lemma_methods_differ();
}

/// A tab is renamed from its old name to its new one, and a tab without a name is
/// not.
pub proof fn law_a_tab_is_renamed_to_its_new_name(app: AppView, e: WtEvent)
    requires
        e.method@ == "tab_renamed"@,
    ensures
        ({
            let after = app.after(AppEvent::WtEvent(e));
            let from = e.params@.text_member("old_tab_id"@);
            let to = e.params@.text_member("new_tab_id"@);
            let window = e.params@.text_member("window_id"@);
            let named = from is Some && to is Some && from->0.len() > 0 && to->0.len() > 0;
            &&& !named ==> after == app
            &&& named ==> after.effects == app.effects.push(
                EffectView::RenameTab {
                    old_tab_id: from->0,
                    new_tab_id: to->0,
                    new_window_id: if window is Some && window->0.len() > 0 {
                        window
                    } else {
                        None
                    },
                },
            )
        }),
{
    reveal(AppView::terminal_told);
    reveal(AppView::tab_renamed);
    lemma_methods_differ();
}

/// A tab whose session is to begin anew is reset, and no other.
pub proof fn law_a_tab_is_reset_by_its_name(app: AppView, e: WtEvent)
    requires
        e.method@ == "reset_tab_session"@,
    ensures
        ({
            let after = app.after(AppEvent::WtEvent(e));
            let named = e.params@.text_member("tab_id"@);
            &&& named is Some ==> after.effects == app.effects.push(
                EffectView::ResetTab { tab_id: named->0 },
            )
            &&& named is None ==> after == app
        }),
{
    reveal(AppView::terminal_told);
    reveal(AppView::tab_reset);
    lemma_methods_differ();
}

/// A session that is to be loaded empties its tab and is then asked for, with the
/// directory it ran in.
#[verifier::rlimit(40)]
pub proof fn law_a_session_is_loaded_into_its_tab(app: AppView, e: WtEvent, tab_id: Seq<char>, session_id: Seq<char>)
    requires
        e.method@ == "load_session"@,
        e.params@.text_member("tab_id"@) == Some(tab_id),
        e.params@.text_member("session_id"@) == Some(session_id),
        tab_id.len() > 0,
        session_id.len() > 0,
    ensures
        ({
            let after = app.after(AppEvent::WtEvent(e));
            let cwd = e.params@.text_member("cwd"@);
            let ours = app.ids.owner_tab_id is None || app.ids.owner_tab_id == Some(tab_id);
            let tab = after.tabs[tab_id];
            &&& !ours ==> after == app
            &&& ours ==> {
                &&& after.effects.last() == (EffectView::LoadSession {
                    tab_id,
                    session_id,
                    cwd: if cwd is Some && cwd->0.len() > 0 {
                        cwd
                    } else {
                        None
                    },
                })
                &&& after.tabs.contains_key(tab_id)
                &&& tab.loading_session
                &&& tab.loading_target_session_id == Some(session_id)
                &&& tab.completed_turns.len() == 0
                &&& tab.messages.len() == 0
                &&& tab.usage is None
                &&& tab.current_view is Chat
                &&& forall|other: Seq<char>|
                    other != tab_id && app.tabs.contains_key(other) ==> #[trigger] after.tabs[other]
                        == app.tabs[other]
            }
        }),
{
    reveal(AppView::terminal_told);
    reveal(AppView::session_load_asked);
    lemma_methods_differ();
}

proof fn lemma_state(app: AppView, e: WtEvent)
    requires
        e.method@ == "set_agent_state"@,
    ensures
        app.after(AppEvent::WtEvent(e)) == app.state_set(e.params@),
{
    reveal(AppView::terminal_told);
    lemma_methods_differ();
}

proof fn lemma_views_differ()
    ensures
        "sessions"@ != "chat"@,
        "agents"@ != "chat"@,
{
    reveal_strlit("sessions");
    reveal_strlit("agents");
    reveal_strlit("chat");
    assert("sessions"@[0] == 's');
    assert("agents"@[0] == 'a');
    assert("chat"@[0] == 'c');
}

proof fn lemma_view_set(app: AppView, key: Seq<char>, view: Option<Seq<char>>)
    requires
        app.tabs.contains_key(key),
    ensures
        ({
            let after = app.view_set(key, view).tabs;
            let before = app.tabs[key];
            &&& after.contains_key(key)
            &&& after[key].pane_open == before.pane_open
            &&& after[key].messages == before.messages
            &&& after[key].turn == before.turn
            &&& view == Some("sessions"@) || view == Some("agents"@) ==> after[key].current_view
                is Agents
            &&& view == Some("chat"@) ==> after[key].current_view is Chat
            &&& view is None ==> after[key].current_view == before.current_view
        }),
{
    lemma_views_differ();
}

proof fn lemma_pane_set(app: AppView, key: Seq<char>, open: Option<bool>)
    requires
        app.tabs.contains_key(key),
    ensures
        ({
            let after = app.pane_set(key, open).tabs;
            let before = app.tabs[key];
            &&& after.contains_key(key)
            &&& after[key].current_view == before.current_view
            &&& after[key].messages == before.messages
            &&& after[key].turn == before.turn
            &&& open is Some ==> after[key].pane_open == open->0
            &&& open is None ==> after[key].pane_open == before.pane_open
        }),
{
}

/// The pane is opened and closed as the terminal says, and shows the view that it
/// names.
#[verifier::rlimit(40)]
pub proof fn law_the_pane_is_shown_as_it_is_told(app: AppView, e: WtEvent, key: Seq<char>)
    requires
        e.method@ == "set_agent_state"@,
        e.params@.text_member("tab_id"@) == Some(key),
        app.tabs.contains_key(key),
    ensures
        ({
            let after = app.after(AppEvent::WtEvent(e));
            let ours = meant_for_window(app, e) && (app.ids.owner_tab_id is None
                || app.ids.owner_tab_id == Some(key));
            let open = e.params@.bool_member("pane_open"@);
            let view = e.params@.text_member("view"@);
            let tab = after.tabs[key];
            &&& !ours ==> after == app
            &&& ours && open is Some ==> tab.pane_open == open->0
            &&& ours && open is None ==> tab.pane_open == app.tabs[key].pane_open
            &&& ours && (view == Some("sessions"@) || view == Some("agents"@))
                ==> tab.current_view is Agents
            &&& ours && view == Some("chat"@) ==> tab.current_view is Chat
            &&& ours && view is None ==> tab.current_view == app.tabs[key].current_view
            &&& tab.messages == app.tabs[key].messages
            &&& tab.turn == app.tabs[key].turn
        }),
{
    lemma_state(app, e);
    reveal(AppView::state_set);
    let s1 = app.view_set(key, e.params@.text_member("view"@));
    let s2 = s1.pane_set(key, e.params@.bool_member("pane_open"@));
    lemma_view_set(app, key, e.params@.text_member("view"@));
    lemma_pane_set(s1, key, e.params@.bool_member("pane_open"@));
    assert(s2.tab_projected(key).tabs == s2.tabs);
}

// ---------------------------------------------------------------------------
// Fixes, prompts and hooks
// ---------------------------------------------------------------------------

/// A fix is run in the pane that it was asked for in, and a prompt or a text is
/// handed on as it came; nothing else happens.
#[verifier::rlimit(40)]
pub proof fn law_orders_are_handed_on(app: AppView, e: WtEvent)
    ensures
        ({
            let after = app.after(AppEvent::WtEvent(e));
            let prompt = e.params@.text_member("prompt"@);
            &&& e.method@ == "autofix_execute"@ ==> after.effects == app.effects.push(
                EffectView::ExecuteAutofix { pane_id: e.pane_id@ },
            ) && after.tabs == app.tabs
            &&& e.method@ == "autofix_execute_from_detected"@ ==> after.effects == app.effects.push(
                EffectView::ExecuteDetectedAutofix,
            ) && after.tabs == app.tabs
            &&& e.method@ == "agent_prompt"@ && prompt is Some && prompt->0.len() > 0
                ==> after.effects == app.effects.push(
                EffectView::DelegatePrompt { prompt: prompt->0 },
            ) && after.tabs == app.tabs
            &&& e.method@ == "agent_prompt"@ && (prompt is None || prompt->0.len() == 0) ==> after
                == app
            &&& e.method@ == "agent_paste_text"@ ==> after.effects == app.effects.push(
                EffectView::PasteText(e.params),
            ) && after.tabs == app.tabs
        }),
{
    reveal(AppView::terminal_told);
    lemma_methods_differ();
}

/// A dismissed suggestion is gone from the current tab, and the bar is cleared
/// where there was one.
pub proof fn law_a_dismissed_suggestion_is_gone(app: AppView, e: WtEvent)
    requires
        e.method@ == "autofix_dismiss_suggestion"@,
    ensures
        ({
            let after = app.after(AppEvent::WtEvent(e));
            let key = app.active_key();
            let had = app.current_tab().autofix.suggested_pane_id is Some;
            &&& after.tabs[key].autofix.suggested_pane_id is None
            &&& had ==> after.tabs[key].autofix.bar is Idle && after.effects == app.effects.push(
                EffectView::AutofixCleared { tab_id: key },
            )
            &&& !had ==> after.effects == app.effects && after.tabs[key].autofix.bar
                == app.current_tab().autofix.bar
            &&& after.tabs[key].messages == app.current_tab().messages
            &&& after.tabs[key].autofix.pane_id == app.current_tab().autofix.pane_id
        }),
{
    reveal(AppView::terminal_told);
    lemma_methods_differ();
}

/// What an agent's hook reports goes to the pane that it came from, and is shown
/// only where such reports are.
pub proof fn law_hooks_are_passed_on(app: AppView, e: WtEvent)
    requires
        e.method@ == "agent_event"@,
    ensures
        ({
            let after = app.after(AppEvent::WtEvent(e));
            &&& after.effects == app.effects.push(
                EffectView::RouteAgentEvent { pane_id: e.pane_id@, params: e.params },
            )
            &&& !app.settings.log_agent_events ==> after.tabs == app.tabs
            &&& app.settings.log_agent_events ==> after.tabs[app.active_key()].messages
                == app.current_tab().messages.push(ChatMessageView::AgentEvent(e.params@.written()))
        }),
{
    reveal(AppView::terminal_told);
    reveal(AppView::hook_reported);
    lemma_methods_differ();
}

// ---------------------------------------------------------------------------
// Other panes
// ---------------------------------------------------------------------------

/// Whether a notification names no tab, or the one that the pane belongs to.
pub open spec fn concerns(app: AppView, n: WtNotification) -> bool {
    let named = opt_view(n.tab_id);
    named is None || named->0.len() == 0 || app.ids.owner_tab_id is None
        || app.ids.owner_tab_id->0.len() == 0 || named == app.ids.owner_tab_id
}

/// A pane that closed, or whose connection failed, has that recorded and passed on,
/// with the reason that was given.
pub proof fn law_lost_panes_are_recorded(app: AppView, e: WtEvent)
    requires
        e.method@ == "connection_state"@,
        app.ids.pane_id != Some(e.pane_id@),
    ensures
        ({
            let asked = app.after(AppEvent::WtEvent(e)).effects.skip(app.effects.len() as int);
            let state = e.params@.text_member("state"@);
            let reason = e.params@.text_member("reason"@);
            let closed = SessionEvent::PaneClosed { pane_session_id: e.pane_id@ };
            let failed = SessionEvent::ConnectionFailed {
                pane_session_id: e.pane_id@,
                reason: if reason is Some {
                    reason->0
                } else {
                    "connection failed"@
                },
            };
            &&& state == Some("closed"@) ==> asked.len() >= 2 && asked[0]
                == EffectView::ApplySessionEvent(closed) && asked[1] == EffectView::PublishSessionHook(
                closed,
            )
            &&& state == Some("failed"@) ==> asked.len() >= 2 && asked[0]
                == EffectView::ApplySessionEvent(failed) && asked[1] == EffectView::PublishSessionHook(
                failed,
            )
        }),
{
    reveal(AppView::terminal_told);
    reveal(AppView::pane_event);
    reveal(AppView::notified);
    lemma_methods_differ();
}

/// A failure that concerns the pane raises the banner, is counted and kept; a
/// failed command asks for a fix. What is only for information does none of it but
/// being kept.
#[verifier::rlimit(40)]
pub proof fn law_failures_are_shown_and_counted(app: AppView, e: WtEvent)
    requires
        e.method@ == "vt_sequence"@,
        app.ids.pane_id != Some(e.pane_id@),
        concerns(app, e.notification),
        e.pane_origin != Some(SessionOrigin::Unknown),
    ensures
        ({
            let after = app.after(AppEvent::WtEvent(e));
            let asked = after.effects.skip(app.effects.len() as int);
            let bad = e.notification.severity != WtEventSeverity::Informational;
            let counted = EffectView::LogErrorDetected {
                critical: e.notification.severity == WtEventSeverity::Critical,
                method: e.method@,
                pane_id: e.pane_id@,
            };
            &&& bad ==> after.screen.show_notification_banner
            &&& bad && !e.notification.acknowledged ==> asked == seq![
                counted,
                EffectView::TriggerAutofix(e.notification),
            ]
            &&& bad && e.notification.acknowledged ==> asked == seq![
                EffectView::TriggerAutofix(e.notification),
            ]
            &&& !bad ==> after.screen.show_notification_banner
                == app.screen.show_notification_banner
            &&& after.screen.wt_notifications.last() == e.notification
            &&& app.screen.wt_notifications.len() < 20 ==> after.screen.wt_notifications
                == app.screen.wt_notifications.push(e.notification)
            &&& app.screen.wt_notifications.len() == 20 ==> after.screen.wt_notifications
                == app.screen.wt_notifications.skip(1).push(e.notification)
        }),
{
    reveal(AppView::terminal_told);
    reveal(AppView::pane_event);
    reveal(AppView::notified);
    lemma_methods_differ();
    lemma_marks_keep_the_screen(
        app,
        opt_view(e.tab_id),
        e.pane_id@,
        e.params@.text_or_empty("sequence"@),
    );
    let all = app.screen.wt_notifications.push(e.notification);
    if app.screen.wt_notifications.len() == 20 {
        assert(all.skip(1) =~= app.screen.wt_notifications.skip(1).push(e.notification));
    }
}

proof fn lemma_asked_behind(a: Seq<EffectView>, b: Seq<EffectView>, c: Seq<EffectView>)
    requires
        still_asked(a, b),
        still_asked(b, c),
    ensures
        still_asked(a, c),
{
}

/// Whether everything that was asked is still asked, and perhaps more behind it.
pub open spec fn still_asked(before: Seq<EffectView>, after: Seq<EffectView>) -> bool {
    &&& before.len() <= after.len()
    &&& forall|i: int| 0 <= i < before.len() ==> #[trigger] after[i] == before[i]
}

proof fn lemma_marks_keep_the_screen(
    app: AppView,
    tab_id: Option<Seq<char>>,
    pane_id: Seq<char>,
    mark: Seq<char>,
)
    ensures
        app.shell_marked(tab_id, pane_id, mark).screen == app.screen,
{
    reveal(AppView::shell_marked);
}

proof fn lemma_outlived_asks_behind(app: AppView, key: Seq<char>, pane_id: Seq<char>)
    ensures
        still_asked(app.effects, app.fix_outlived(key, pane_id).effects),
{
    let s = app.fix_timed(key, pane_id);
    assert(still_asked(app.effects, s.effects));
    match s.tab(key).session_id {
        Some(session_id) => {
            let dropped = s.fix_dropped(s.session_tab_key(session_id));
            let after = s.turn_cancelled(session_id);
            assert(still_asked(s.effects, dropped.effects));
            assert(still_asked(dropped.effects, after.effects));
            lemma_asked_behind(s.effects, dropped.effects, after.effects);
            lemma_asked_behind(app.effects, s.effects, after.effects);
        },
        None => {
            assert(still_asked(s.effects, s.fix_dropped(key).effects));
            lemma_asked_behind(app.effects, s.effects, s.fix_dropped(key).effects);
        },
    }
}

proof fn lemma_marks_ask_behind(
    app: AppView,
    tab_id: Option<Seq<char>>,
    pane_id: Seq<char>,
    mark: Seq<char>,
)
    ensures
        still_asked(app.effects, app.shell_marked(tab_id, pane_id, mark).effects),
{
    reveal(AppView::shell_marked);
    let success = marks_success(mark);
    let prompt = marks_prompt(mark);
    let moved_on = success || (prompt && !app.is_echo(tab_id, pane_id));
    let s0 = if prompt {
        app.echo_seen(tab_id, pane_id)
    } else {
        app
    };
    assert(s0.effects == app.effects);
    let s1 = if moved_on && s0.is_armed(tab_id, pane_id) {
        s0.fix_outlived(tab_id->0, pane_id)
    } else {
        s0
    };
    if tab_id is Some {
        lemma_outlived_asks_behind(s0, tab_id->0, pane_id);
    }
    assert(still_asked(s0.effects, s1.effects));
    if tab_id is Some {
        let key = tab_id->0;
        let s2 = if success || prompt {
            s1.suggestion_dismissed(key)
        } else {
            s1
        };
        let s3 = if moved_on {
            s2.detection_dismissed(key, pane_id)
        } else {
            s2
        };
        lemma_dismissals_ask_behind(s1, key, pane_id);
        lemma_dismissals_ask_behind(s2, key, pane_id);
        lemma_asked_behind(s0.effects, s1.effects, s2.effects);
        lemma_asked_behind(s0.effects, s2.effects, s3.effects);
        assert(app.shell_marked(tab_id, pane_id, mark) == s3);
    } else {
        assert(app.shell_marked(tab_id, pane_id, mark) == s1);
    }
}

proof fn lemma_dismissals_ask_behind(app: AppView, key: Seq<char>, pane_id: Seq<char>)
    ensures
        still_asked(app.effects, app.effects),
        still_asked(app.effects, app.suggestion_dismissed(key).effects),
        still_asked(app.effects, app.detection_dismissed(key, pane_id).effects),
{
}

/// A shell that shows its prompt again has left the session that ran in it, where
/// nobody knows that session.
#[verifier::rlimit(40)]
pub proof fn law_a_shell_that_returns_ends_its_session(app: AppView, e: WtEvent)
    requires
        e.method@ == "vt_sequence"@,
        app.ids.pane_id != Some(e.pane_id@),
        e.params@.text_member("sequence"@) == Some("osc:133;A"@),
        e.pane_origin == Some(SessionOrigin::Unknown),
    ensures
        ({
            let asked = app.after(AppEvent::WtEvent(e)).effects.skip(app.effects.len() as int);
            let closed = SessionEvent::PaneClosed { pane_session_id: e.pane_id@ };
            &&& asked.len() >= 2
            &&& asked[0] == EffectView::ApplySessionEvent(closed)
            &&& asked[1] == EffectView::PublishSessionHook(closed)
        }),
{
    reveal(AppView::terminal_told);
    reveal(AppView::pane_event);
    reveal(AppView::notified);
    lemma_methods_differ();
    let closed = SessionEvent::PaneClosed { pane_session_id: e.pane_id@ };
    let s1 = app.session_recorded(closed);
    let s2 = s1.failure_counted(e.notification, e.method@, e.pane_id@);
    lemma_marks_ask_behind(
        s2,
        opt_view(e.tab_id),
        e.pane_id@,
        e.params@.text_or_empty("sequence"@),
    );
    assert(still_asked(s1.effects, s2.effects));
    let after = app.after(AppEvent::WtEvent(e)).effects;
    assert(still_asked(s1.effects, after));
    assert(s1.effects.len() == app.effects.len() + 2);
    assert(after[app.effects.len() as int] == s1.effects[app.effects.len() as int]);
    assert(after[app.effects.len() + 1int] == s1.effects[app.effects.len() + 1int]);
}

// ---------------------------------------------------------------------------
// Shell marks
// ---------------------------------------------------------------------------

/// Whether a mark says that a command ended, with this code.
pub open spec fn ended_with(mark: Seq<char>, code: Seq<char>) -> bool {
    mark == "osc:133;D;"@ + code
}

proof fn lemma_ended(mark: Seq<char>, code: Seq<char>)
    requires
        ended_with(mark, code),
    ensures
        !marks_prompt(mark),
        marks_success(mark) == is_zero(trimmed(code)),
{
    reveal_strlit("osc:133;");
    reveal_strlit("D;");
    reveal_strlit("osc:133;D;");
    reveal_strlit("osc:133;A");
    assert("osc:133;D;"@ =~= "osc:133;"@ + "D;"@);
    assert(mark.take(8) =~= "osc:133;"@);
    assert(mark.skip(8).take(2) =~= "D;"@);
    assert(mark.skip(8).skip(2) =~= code);
    assert(mark[8] == 'D');
}

proof fn lemma_zeros_are_success(mark: Seq<char>, code: Seq<char>)
    requires
        ended_with(mark, code),
        code.len() > 0,
        forall|i: int| 0 <= i < code.len() ==> #[trigger] code[i] == '0',
    ensures
        marks_success(mark),
        !marks_prompt(mark),
{
    lemma_ended(mark, code);
    assert(!is_white('0'));
    lemma_dense_text_stays(code);
}

proof fn lemma_dense_text_stays(s: Seq<char>)
    requires
        forall|i: int| 0 <= i < s.len() ==> !is_white(#[trigger] s[i]),
    ensures
        trimmed(s) == s,
{
    law_trimming_takes_white_ends(s);
    let (from, to) = choose|from: int, to: int|
        0 <= from <= to <= s.len() && trimmed(s) == #[trigger] s.subrange(from, to) && all_white(
            s.take(from),
        ) && all_white(s.skip(to));
    if from > 0 {
        assert(s.take(from)[0] == s[0]);
    }
    if to < s.len() {
        assert(s.skip(to)[0] == s[to]);
    }
    assert(s.subrange(0, s.len() as int) =~= s);
}

proof fn lemma_fix_given_up(app: AppView, key: Seq<char>, pane_id: Seq<char>)
    requires
        app.tabs.contains_key(key),
        app.tabs[key].session_id is None,
        app.tabs[key].autofix.pane_id is Some,
    ensures
        ({
            let after = app.fix_outlived(key, pane_id);
            let before = app.tabs[key];
            &&& after.tabs.contains_key(key)
            &&& after.tabs[key].autofix.pane_id is None
            &&& after.tabs[key].autofix.generation != before.autofix.generation
            &&& after.tabs[key].autofix.bar is Idle
            &&& after.tabs[key].messages == before.messages
            &&& after.tabs[key].turn == before.turn
        }),
{
    let s = app.fix_timed(key, pane_id);
    assert(s.tabs[key].autofix.pane_id is Some);
    assert(s.tabs[key].autofix.generation == app.tabs[key].autofix.generation);
}

/// A command that ended well makes the fix of its pane pointless: what was
/// suggested and what was detected is gone, and a fix that was being worked out is
/// given up under a new generation.
#[verifier::rlimit(40)]
pub proof fn law_success_makes_a_fix_pointless(
    app: AppView,
    key: Seq<char>,
    pane_id: Seq<char>,
    mark: Seq<char>,
    code: Seq<char>,
)
    requires
        app.tabs.contains_key(key),
        app.tabs[key].session_id is None,
        ended_with(mark, code),
        code.len() > 0,
        forall|i: int| 0 <= i < code.len() ==> #[trigger] code[i] == '0',
    ensures
        ({
            let after = app.shell_marked(Some(key), pane_id, mark);
            let before = app.tabs[key].autofix;
            let fix = after.tabs[key].autofix;
            &&& fix.suggested_pane_id is None
            &&& before.bar == BarView::Detected(pane_id) ==> fix.bar is Idle
            &&& before.pane_id == Some(pane_id) ==> fix.pane_id is None && fix.generation
                != before.generation && fix.bar is Idle
            &&& before.pane_id != Some(pane_id) ==> fix.pane_id == before.pane_id && fix.generation
                == before.generation
            &&& after.tabs[key].messages == app.tabs[key].messages
            &&& after.tabs[key].turn == app.tabs[key].turn
        }),
{
    reveal(AppView::shell_marked);
    lemma_zeros_are_success(mark, code);
    let s1 = if app.is_armed(Some(key), pane_id) {
        app.fix_outlived(key, pane_id)
    } else {
        app
    };
    if app.is_armed(Some(key), pane_id) {
        lemma_fix_given_up(app, key, pane_id);
    }
    let s2 = s1.suggestion_dismissed(key);
    lemma_dismissals(s1, key, pane_id);
    lemma_dismissals(s2, key, pane_id);
    assert(app.shell_marked(Some(key), pane_id, mark) == s2.detection_dismissed(key, pane_id));
}

proof fn lemma_dismissals(app: AppView, key: Seq<char>, pane_id: Seq<char>)
    requires
        app.tabs.contains_key(key),
    ensures
        ({
            let before = app.tabs[key];
            let first = app.suggestion_dismissed(key);
            let second = app.detection_dismissed(key, pane_id);
            &&& first.tabs.contains_key(key) && second.tabs.contains_key(key)
            &&& first.tabs[key].autofix.suggested_pane_id is None
            &&& first.tabs[key].autofix.pane_id == before.autofix.pane_id
            &&& first.tabs[key].autofix.generation == before.autofix.generation
            &&& first.tabs[key].autofix.bar is Idle || first.tabs[key].autofix.bar
                == before.autofix.bar
            &&& first.tabs[key].messages == before.messages && first.tabs[key].turn == before.turn
            &&& second.tabs[key].autofix.suggested_pane_id == before.autofix.suggested_pane_id
            &&& second.tabs[key].autofix.pane_id == before.autofix.pane_id
            &&& second.tabs[key].autofix.generation == before.autofix.generation
            &&& second.tabs[key].autofix.bar == (if before.autofix.bar == BarView::Detected(pane_id) {
                BarView::Idle
            } else {
                before.autofix.bar
            })
            &&& second.tabs[key].messages == before.messages && second.tabs[key].turn == before.turn
        }),
{
}

/// A command that failed makes no fix pointless.
pub proof fn law_failure_keeps_the_fix(
    app: AppView,
    tab_id: Option<Seq<char>>,
    pane_id: Seq<char>,
    mark: Seq<char>,
    code: Seq<char>,
    i: int,
)
    requires
        ended_with(mark, code),
        0 <= i < code.len(),
        '1' <= code[i] <= '9',
    ensures
        app.shell_marked(tab_id, pane_id, mark) == app,
{
    reveal(AppView::shell_marked);
    lemma_ended(mark, code);
    law_trimming_takes_white_ends(code);
    let kept = trimmed(code);
    let (from, to) = choose|from: int, to: int|
        0 <= from <= to <= code.len() && kept == #[trigger] code.subrange(from, to) && all_white(
            code.take(from),
        ) && all_white(code.skip(to));
    assert(!is_white(code[i]));
    if i < from {
        assert(code.take(from)[i] == code[i]);
    }
    if i >= to {
        assert(code.skip(to)[i - to] == code[i]);
    }
    assert(kept[i - from] == code[i]);
    if is_zero(kept) {
        if kept.len() > 0 && (kept[0] == '+' || kept[0] == '-') {
            assert(i - from > 0);
            assert(kept.skip(1)[i - from - 1] == code[i]);
        }
    }
}

/// The prompt that the pane's own trigger brought back is not taken for a command
/// of the user: it ends no fix, and is expected only once.
pub proof fn law_an_echo_ends_no_fix(app: AppView, key: Seq<char>, pane_id: Seq<char>)
    requires
        app.tabs.contains_key(key),
        app.tabs[key].autofix.trigger_echo_pane == Some(pane_id),
    ensures
        ({
            let after = app.shell_marked(Some(key), pane_id, "osc:133;A"@);
            let before = app.tabs[key].autofix;
            let fix = after.tabs[key].autofix;
            &&& fix.trigger_echo_pane is None
            &&& fix.pane_id == before.pane_id
            &&& fix.generation == before.generation
            &&& before.suggested_pane_id is None ==> fix.bar == before.bar && after.effects
                == app.effects
        }),
{
    reveal(AppView::shell_marked);
    lemma_a_prompt_is_no_success();
}

proof fn lemma_a_prompt_is_no_success()
    ensures
        !marks_success("osc:133;A"@),
{
    reveal_strlit("osc:133;");
    reveal_strlit("D;");
    reveal_strlit("osc:133;A");
    let mark = "osc:133;A"@;
    assert(mark.skip(8).len() == 1);
}

/// Marks that are neither a prompt nor a success change nothing.
pub proof fn law_other_marks_change_nothing(
    app: AppView,
    tab_id: Option<Seq<char>>,
    pane_id: Seq<char>,
    mark: Seq<char>,
)
    requires
        mark.len() == 0 || mark[0] != 'o',
    ensures
        app.shell_marked(tab_id, pane_id, mark) == app,
{
    reveal(AppView::shell_marked);
    reveal_strlit("osc:133;");
    reveal_strlit("osc:133;A");
    if mark.len() >= 8 {
        assert(mark.take(8)[0] == mark[0]);
    }
}

// ---------------------------------------------------------------------------
// Laws
// ---------------------------------------------------------------------------

// ---------------------------------------------------------------------------
// What else is told
// ---------------------------------------------------------------------------

/// The user's own models are taken over where the agent can use them, with the chosen
/// one; where it cannot, it has none.
pub proof fn law_own_models_are_taken_over(app: AppView, e: WtEvent)
    requires
        e.method@ == "agent_config_changed"@,
        meant_for_tab(app, e),
        app.agent.source is Host,
        e.cloud_models is Absent,
        e.custom_models is Present,
    ensures
        ({
            let after = app.after(AppEvent::WtEvent(e)).catalog;
            let chosen = e.params@.text_member("custom_model_selection"@);
            &&& app.catalog.own_models_supported ==> after.custom_models == tidy_catalog(
                customs_view(e.custom_models->Present_0@),
            )
            &&& app.catalog.own_models_supported && chosen is Some ==> after.custom_selection
                == tidy_selection(chosen)
            &&& app.catalog.own_models_supported && chosen is None ==> after.custom_selection
                == tidy_selection(app.catalog.custom_selection)
            &&& !app.catalog.own_models_supported ==> after.custom_models == tidy_catalog(Seq::empty())
                && after.custom_selection is None
            &&& after.cloud_models == app.catalog.cloud_models
            &&& after.agent_models == app.catalog.agent_models
            &&& after.host_catalog_ready
        }),
{
    lemma_settings(app, e);
    reveal(AppView::configured);
    reveal(CatalogView::rebuilt);
}

/// Models that cannot be read change nothing in the catalog.
pub proof fn law_unreadable_models_change_nothing(app: AppView, e: WtEvent)
    requires
        e.method@ == "agent_config_changed"@,
        meant_for_tab(app, e),
        e.cloud_models is Invalid,
    ensures
        app.after(AppEvent::WtEvent(e)).catalog == app.catalog,
{
    lemma_settings(app, e);
    reveal(AppView::configured);
}

/// The list of sessions once shown, the greeting is over, and that is kept.
pub proof fn law_the_list_ends_the_greeting(app: AppView, key: Seq<char>)
    requires
        app.screen.show_welcome_hint,
    ensures
        ({
            let after = app.view_set(key, Some("sessions"@));
            &&& !after.screen.show_welcome_hint
            &&& after.effects == app.effects.push(EffectView::MarkWelcomeShown).push(
                EffectView::OpenAgentsView { tab_id: key },
            )
            &&& app.view_set(key, Some("agents"@)) == after
            &&& app.view_set(key, Some("chat"@)).screen.show_welcome_hint
            &&& app.view_set(key, Some("chat"@)).effects == app.effects.push(
                EffectView::CloseAgentsView { tab_id: key },
            )
        }),
{
    lemma_views_differ();
}

/// A pane that is closed waits for no paste any more; a suggestion is told again when
/// the pane is opened or closed.
pub proof fn law_a_closed_pane_waits_for_no_paste(app: AppView, key: Seq<char>, open: bool)
    requires
        app.tabs.contains_key(key),
    ensures
        ({
            let after = app.pane_set(key, Some(open));
            let before = app.tabs[key];
            let tab = after.tabs[key];
            &&& !open ==> !tab.paste_pending && tab.paste_generation != before.paste_generation
            &&& open ==> tab.paste_pending == before.paste_pending && tab.paste_generation
                == before.paste_generation
            &&& before.autofix.suggested_pane_id is Some ==> after.effects == app.effects.push(
                EffectView::AutofixResult {
                    tab_id: key,
                    pane_id: before.autofix.suggested_pane_id->0,
                },
            )
            &&& before.autofix.suggested_pane_id is None ==> after.effects == app.effects
        }),
{
}

/// How long a fix took is noted when it is over, once.
pub proof fn law_a_fix_is_timed_once(app: AppView, key: Seq<char>, pane_id: Seq<char>)
    requires
        app.tabs.contains_key(key),
    ensures
        ({
            let after = app.fix_timed(key, pane_id);
            let armed = app.tabs[key].autofix.armed_at;
            &&& after.tabs[key].autofix.armed_at is None
            &&& armed is Some ==> after.effects == app.effects.push(
                EffectView::LogFixResolved { pane_id, armed_at: armed->0 },
            )
            &&& armed is None ==> after.effects == app.effects
            &&& after.fix_timed(key, pane_id).effects == after.effects
        }),
{
}

/// A fix that is given up clears what was proposed for it, under a new generation.
pub proof fn law_a_dropped_fix_is_cleared(app: AppView, key: Seq<char>)
    requires
        app.tabs.contains_key(key),
    ensures
        ({
            let after = app.fix_dropped(key);
            let had = app.tabs[key].autofix.pane_id is Some;
            &&& after.tabs[key].autofix.pane_id is None
            &&& after.tabs[key].autofix.generation != app.tabs[key].autofix.generation
            &&& !had ==> after.effects == app.effects.push(
                EffectView::ClearRecommendations { tab_id: key },
            )
            &&& had ==> after.tabs[key].autofix.bar is Idle && after.effects == app.effects.push(
                EffectView::ClearRecommendations { tab_id: key },
            ).push(EffectView::AutofixCleared { tab_id: key })
        }),
{
}

} // verus!
