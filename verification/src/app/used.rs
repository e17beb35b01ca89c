//! What comes of what the user does: commands, pickers, keys and the mouse.

use vstd::prelude::*;
use vstd::string::*;

use crate::app::config_picker::value_at;
use crate::app::connection::option_at;
use crate::app::conversation::only_tab_touched;
use crate::app::effect::{EffectView, KeyCode, KeyEvent};
use crate::app::event::{AppEvent, MouseEvent, MouseEventKind};
use crate::app::slash::named_agent;
use crate::app::state::{no_selection, AcpSessionConfigValue, AppView, ConfigOptionView, Rect};
use crate::commands::CommandKind;
use crate::json::{event_view, JsonView, MemberView};
use crate::models::has_model;
use crate::phrases::PhraseOf;
use crate::tab::ConfigPickerView;
use crate::text::{lower, trimmed};
use crate::transcript::{ChatMessageView, NoticeKind};

verus! {

// ---------------------------------------------------------------------------
// Commands
// ---------------------------------------------------------------------------

/// A cleared tab shows nothing any more; its session, its turn and what is over
/// stay.
pub proof fn law_clear_empties_the_conversation_alone(v: AppView, rest: String)
    ensures
        ({
            let after = v.commanded(CommandKind::Clear, rest);
            let before = v.current_tab();
            let tab = after.tabs[v.active_key()];
            &&& tab.messages.len() == 0
            &&& tab.selected_completed_turn_idx is None
            &&& tab.session_id == before.session_id
            &&& tab.turn == before.turn
            &&& tab.completed_turns == before.completed_turns
            &&& after.effects == v.effects
            &&& only_tab_touched(v, after, v.active_key())
        }),
{
}

/// Help is shown and hidden in turn, over whatever there is.
pub proof fn law_help_comes_and_goes(v: AppView, rest: String)
    ensures
        v.commanded(CommandKind::Help, rest).screen.help_overlay_visible
            == !v.screen.help_overlay_visible,
        v.commanded(CommandKind::Help, rest).tabs == v.tabs,
        v.commanded(CommandKind::Help, rest).effects == v.effects,
{
}

/// A new session begins with an empty conversation, in the tab in front, unless the
/// agent is at work: then the user is told so.
pub proof fn law_new_begins_a_session(v: AppView, rest: String)
    ensures
        ({
            let after = v.commanded(CommandKind::New, rest);
            let before = v.current_tab();
            let tab = after.tabs[v.active_key()];
            let works = before.turn is Submitted || before.turn is Streaming;
            &&& !works ==> tab.session_id is None && tab.messages.len() == 0 && after.effects
                == v.effects.push(EffectView::NewSession { tab_id: v.active_key() })
            &&& works ==> tab.session_id == before.session_id && after.effects == v.effects
                && tab.messages == before.messages.push(
                ChatMessageView::Notice { kind: NoticeKind::Warning, text: PhraseOf::AgentBusy },
            )
            &&& only_tab_touched(v, after, v.active_key())
        }),
{
    reveal(AppView::session_begun);
}

/// A turn that runs is stopped, by its session; where none runs that is said.
pub proof fn law_stop_ends_the_turn(v: AppView, rest: String)
    ensures
        ({
            let after = v.commanded(CommandKind::Stop, rest);
            let before = v.current_tab();
            let works = before.turn is Submitted || before.turn is Streaming;
            &&& works && before.session_id is None ==> after.tabs[v.active_key()].turn is Idle
                && after.effects == v.effects
            &&& works && before.session_id is Some ==> after.effects.last() == (
            EffectView::CancelTurn { session_id: before.session_id->0 })
            &&& !works ==> after.effects == v.effects && after.tabs[v.active_key()].turn
                == before.turn && after.tabs[v.active_key()].messages == before.messages.push(
                ChatMessageView::Notice { kind: NoticeKind::Info, text: PhraseOf::NothingToStop },
            )
        }),
{
    reveal(AppView::turn_stopped);
}

/// A cancelled turn is over in the tab of its session.
pub proof fn law_a_cancelled_turn_is_over(v: AppView, session_id: Seq<char>)
    ensures
        ({
            let key = v.session_tab_key(session_id);
            let after = v.turn_cancelled(session_id);
            &&& after.tabs[key].turn is Idle
            &&& after.tabs[key].autofix.pane_id is None
            &&& after.tabs[key].messages == v.tab(key).messages
            &&& after.effects.last() == (EffectView::CancelTurn { session_id })
        }),
{
}

/// A fix is worked out from the user's hint, under a number of its own, unless the
/// agent is at work.
pub proof fn law_fix_starts_a_turn_of_its_own(v: AppView, hint: String)
    ensures
        ({
            let after = v.commanded(CommandKind::Fix, hint);
            let before = v.current_tab();
            let tab = after.tabs[v.active_key()];
            &&& before.turn is Idle ==> tab.turn is Submitted && tab.turn->Submitted_0.text == hint
                && tab.turn->Submitted_0.id == tab.autofix.generation && tab.autofix.generation
                != before.autofix.generation && after.effects == v.effects.push(
                EffectView::SubmitAutofix { tab_id: v.active_key() },
            )
            &&& !(before.turn is Idle) ==> tab.turn == before.turn && after.effects == v.effects
                && tab.messages == before.messages.push(
                ChatMessageView::Notice { kind: NoticeKind::Warning, text: PhraseOf::AgentBusy },
            )
        }),
{
    reveal(AppView::fix_asked);
}

/// The list of sessions is opened in the tab in front.
pub proof fn law_sessions_opens_the_list(v: AppView, rest: String)
    ensures
        ({
            let after = v.commanded(CommandKind::Sessions, rest);
            &&& after.tabs[v.active_key()].current_view is Agents
            &&& after.effects == v.effects.push(
                EffectView::OpenAgentsView { tab_id: v.active_key() },
            )
            &&& after.tabs[v.active_key()].messages == v.current_tab().messages
        }),
{
}

/// A model that can be picked is set for the session, or waits for one; one that
/// cannot be picked is refused by its name; the one in use is left in use.
pub proof fn law_a_named_model_is_set(v: AppView, id: Seq<char>, i: int)
    ensures
        ({
            let after = v.model_named(id);
            let before = v.current_tab();
            let tab = after.tabs[v.active_key()];
            let used = v.catalog.current_model_id == Some(id);
            let known = 0 <= i < v.catalog.picker_models.len() && v.catalog.picker_models[i].id
                == id;
            let unknown = forall|k: int|
                0 <= k < v.catalog.picker_models.len() ==> (#[trigger] v.catalog.picker_models[k]).id
                    != id;
            &&& used ==> after.effects == v.effects && tab.model_override == before.model_override
                && !tab.model_picker_open && tab.messages == before.messages
            &&& !used && known && before.session_id is Some ==> after.effects == v.effects.push(
                EffectView::SetSessionModel {
                    session_id: before.session_id->0,
                    model: id,
                    pane_override: true,
                },
            ) && !tab.model_picker_open
            &&& !used && known && before.session_id is None ==> after.effects == v.effects
                && tab.model_override == Some(id) && !tab.model_picker_open
            &&& !used && unknown ==> after.effects == v.effects && tab.model_override
                == before.model_override && tab.messages == before.messages.push(
                ChatMessageView::Notice {
                    kind: NoticeKind::Error,
                    text: PhraseOf::ModelUnavailable { model: id },
                },
            )
        }),
{
    let known = 0 <= i < v.catalog.picker_models.len() && v.catalog.picker_models[i].id == id;
    assert(known ==> has_model(v.catalog.picker_models, id));
}

/// The command takes the model's name without the blanks around it, and without a
/// name opens the list, where there is one.
pub proof fn law_the_model_command_names_or_lists(v: AppView, rest: String)
    requires
        v.current_tab().session_id is None,
    ensures
        ({
            let after = v.commanded(CommandKind::Model, rest);
            let tab = after.tabs[v.active_key()];
            let named = trimmed(rest@).len() > 0;
            &&& named ==> after == v.model_named(trimmed(rest@))
            &&& !named && v.catalog.picker_models.len() > 0 ==> tab.model_picker_open
                && !tab.agent_picker_open
            &&& !named && v.catalog.picker_models.len() == 0 ==> tab.messages
                == v.current_tab().messages.push(
                ChatMessageView::Notice { kind: NoticeKind::Info, text: PhraseOf::NoModels },
            )
        }),
{
    reveal(AppView::model_asked);
}

/// The options of the session can be picked from the first on; where it has none
/// that is said.
pub proof fn law_options_can_be_picked(v: AppView, rest: String)
    ensures
        ({
            let after = v.commanded(CommandKind::Config, rest);
            let tab = after.tabs[v.active_key()];
            let none = v.current_tab().session_id is None || !v.sessions.config_options.contains_key(
                v.current_tab().session_id->0,
            ) || v.sessions.config_options[v.current_tab().session_id->0].len() == 0;
            &&& none ==> tab.messages == v.current_tab().messages.push(
                ChatMessageView::Notice { kind: NoticeKind::Info, text: PhraseOf::NoOptions },
            )
            &&& !none ==> tab.config_picker == (ConfigPickerView::Options { selected: 0 })
                && !tab.model_picker_open && !tab.agent_picker_open
            &&& after.effects == v.effects
        }),
{
    reveal(AppView::options_asked);
}

proof fn lemma_named_agent(v: AppView, id: Seq<char>, i: int, from: int)
    requires
        0 <= from <= i < v.agent.available.len(),
        lower(v.agent.available[i].id@) == lower(id),
        forall|k: int|
            from <= k < i ==> lower((#[trigger] v.agent.available[k]).id@) != lower(id),
    ensures
        named_agent(v.agent.available, id, from) == Some(i),
    decreases i - from,
{
    if from < i {
        lemma_named_agent(v, id, i, from + 1);
    }
}

proof fn lemma_no_named_agent(v: AppView, id: Seq<char>, from: int)
    requires
        0 <= from,
        forall|k: int|
            from <= k < v.agent.available.len() ==> lower((#[trigger] v.agent.available[k]).id@)
                != lower(id),
    ensures
        named_agent(v.agent.available, id, from) is None,
    decreases v.agent.available.len() - from,
{
    if from < v.agent.available.len() {
        lemma_no_named_agent(v, id, from + 1);
    }
}

/// An agent is switched to by its name, whatever the case; a name that none has is
/// refused.
pub proof fn law_an_agent_is_switched_to_by_name(v: AppView, rest: String, i: int)
    requires
        trimmed(rest@).len() > 0,
    ensures
        ({
            let after = v.commanded(CommandKind::Agent, rest);
            let id = trimmed(rest@);
            let first = 0 <= i < v.agent.available.len() && lower(v.agent.available[i].id@) == lower(
                id,
            ) && forall|k: int|
                0 <= k < i ==> lower((#[trigger] v.agent.available[k]).id@) != lower(id);
            let none = forall|k: int|
                0 <= k < v.agent.available.len() ==> lower((#[trigger] v.agent.available[k]).id@)
                    != lower(id);
            &&& first ==> after.effects == v.effects.push(
                EffectView::SwitchAgent { agent_id: v.agent.available[i].id@ },
            ) && after.tabs == v.tabs
            &&& none ==> after.effects == v.effects && after.tabs[v.active_key()].messages
                == v.current_tab().messages.push(
                ChatMessageView::Notice {
                    kind: NoticeKind::Error,
                    text: PhraseOf::UnknownAgent { agent: id },
                },
            )
        }),
{
    reveal(AppView::agent_asked);
    let id = trimmed(rest@);
    if 0 <= i < v.agent.available.len() && lower(v.agent.available[i].id@) == lower(id) && (forall|
        k: int,
    |
        0 <= k < i ==> lower((#[trigger] v.agent.available[k]).id@) != lower(id)) {
        lemma_named_agent(v, id, i, 0);
    }
    if forall|k: int|
        0 <= k < v.agent.available.len() ==> lower((#[trigger] v.agent.available[k]).id@) != lower(
            id,
        ) {
        lemma_no_named_agent(v, id, 0);
    }
}

/// Without a name the agents are offered, where there are any.
pub proof fn law_agents_are_offered(v: AppView, rest: String)
    requires
        trimmed(rest@).len() == 0,
    ensures
        ({
            let after = v.commanded(CommandKind::Agent, rest);
            let tab = after.tabs[v.active_key()];
            &&& v.agent.available.len() > 0 ==> tab.agent_picker_open && !tab.model_picker_open
            &&& v.agent.available.len() == 0 ==> tab.messages == v.current_tab().messages.push(
                ChatMessageView::Notice { kind: NoticeKind::Warning, text: PhraseOf::NoAgents },
            )
            &&& after.effects == v.effects
        }),
{
    reveal(AppView::agent_asked);
}

/// A command that was typed leaves the input empty before it does anything; one that
/// nobody knows is named in a warning.
pub proof fn law_a_typed_command_leaves_the_input_empty(v: AppView, word: Seq<char>)
    ensures
        ({
            let refused = v.command_refused(word);
            let tab = refused.tabs[v.active_key()];
            &&& tab.input.len() == 0 && tab.cursor == 0 && tab.command_selected == 0
            &&& tab.messages == v.current_tab().messages.push(
                ChatMessageView::Notice {
                    kind: NoticeKind::Warning,
                    text: PhraseOf::UnknownCommand { command: word },
                },
            )
            &&& refused.effects == v.effects
        }),
{
}

// ---------------------------------------------------------------------------
// Pickers
// ---------------------------------------------------------------------------

/// The highlighted row of a picker goes down and up by one and stays in the list.
pub proof fn law_a_picker_moves_by_one_row(v: AppView, selected: usize)
    requires
        v.current_tab().config_picker == (ConfigPickerView::Options { selected }),
    ensures
        ({
            let rows = v.front_options().len();
            let lower = v.picker_lowered().current_tab().config_picker;
            let upper = v.picker_raised().current_tab().config_picker;
            &&& selected + 1 < rows ==> lower == (ConfigPickerView::Options {
                selected: (selected + 1) as usize,
            })
            &&& selected + 1 >= rows ==> lower == v.current_tab().config_picker
            &&& selected > 0 ==> upper == (ConfigPickerView::Options {
                selected: (selected - 1) as usize,
            })
            &&& selected == 0 ==> upper == v.current_tab().config_picker
            &&& v.picker_lowered().effects == v.effects && v.picker_raised().effects == v.effects
        }),
{
}

proof fn lemma_value_at(v: Seq<AcpSessionConfigValue>, id: Seq<char>, i: int, from: int)
    requires
        0 <= from <= i < v.len(),
        v[i].id@ == id,
        forall|k: int| from <= k < i ==> (#[trigger] v[k]).id@ != id,
    ensures
        value_at(v, id, from) == i,
    decreases i - from,
{
    if from < i {
        lemma_value_at(v, id, i, from + 1);
    }
}

/// An option that is entered shows its values, with the one it has highlighted.
pub proof fn law_an_option_opens_on_its_value(v: AppView, selected: usize, i: int)
    requires
        v.current_tab().config_picker == (ConfigPickerView::Options { selected }),
        selected < v.front_options().len(),
        0 <= i < v.front_options()[selected as int].values.len() <= usize::MAX,
        v.front_options()[selected as int].values[i].id@ == v.front_options()[selected as int].current_value,
        forall|k: int|
            0 <= k < i ==> (#[trigger] v.front_options()[selected as int].values[k]).id@
                != v.front_options()[selected as int].current_value,
    ensures
        v.picker_entered().current_tab().config_picker == (ConfigPickerView::Values {
            option_id: v.front_options()[selected as int].id,
            selected: i as usize,
            direct: false,
        }),
        v.picker_entered().effects == v.effects,
{
    reveal(AppView::picker_entered);
    let option = v.front_options()[selected as int];
    lemma_value_at(option.values, option.current_value, i, 0);
}

proof fn lemma_option_at(options: Seq<ConfigOptionView>, id: Seq<char>, i: int, from: int)
    requires
        0 <= from <= i < options.len(),
        options[i].id == id,
        forall|k: int| from <= k < i ==> (#[trigger] options[k]).id != id,
    ensures
        option_at(options, id, from) == Some(i),
    decreases i - from,
{
    if from < i {
        lemma_option_at(options, id, i, from + 1);
    }
}

/// A value that is entered is set for its option in the session in front, and waited
/// for; the picker goes back to where it came from.
pub proof fn law_a_value_is_set_for_its_option(
    v: AppView,
    option_id: Seq<char>,
    selected: usize,
    direct: bool,
    i: int,
)
    requires
        v.current_tab().config_picker == (ConfigPickerView::Values { option_id, selected, direct }),
        v.current_tab().session_id is Some,
        0 <= i < v.front_options().len() <= usize::MAX,
        v.front_options()[i].id == option_id,
        forall|k: int| 0 <= k < i ==> (#[trigger] v.front_options()[k]).id != option_id,
        selected < v.front_options()[i].values.len(),
    ensures
        ({
            let after = v.picker_entered();
            let tab = after.current_tab();
            &&& after.effects == v.effects.push(
                EffectView::SetConfigOption {
                    session_id: v.current_tab().session_id->0,
                    config_id: option_id,
                    value: v.front_options()[i].values[selected as int].id@,
                },
            )
            &&& tab.config_pending_id == Some(option_id)
            &&& direct ==> tab.config_picker is Closed
            &&& !direct ==> tab.config_picker == (ConfigPickerView::Options { selected: i as usize })
        }),
{
    reveal(AppView::picker_entered);
    lemma_option_at(v.front_options(), option_id, i, 0);
}

/// An option that was set has its new value in its session, and says so by its name.
#[verifier::rlimit(40)]
pub proof fn law_an_option_that_was_set_says_so(
    v: AppView,
    session_id: String,
    config_id: String,
    value: String,
    key: Seq<char>,
    i: int,
)
    requires
        v.sessions.session_to_tab.contains_key(session_id@),
        v.sessions.session_to_tab[session_id@] == key,
        v.sessions.config_options.contains_key(session_id@),
        0 <= i < v.sessions.config_options[session_id@].len(),
        v.sessions.config_options[session_id@][i].id == config_id@,
        forall|k: int|
            0 <= k < i ==> (#[trigger] v.sessions.config_options[session_id@][k]).id != config_id@,
    ensures
        ({
            let before = v.sessions.config_options[session_id@];
            let set = v.after(
                AppEvent::SessionConfigSetCompleted {
                    session_id,
                    config_id,
                    value,
                    model_compat: false,
                },
            );
            let options = set.sessions.config_options[session_id@];
            let told = set.tabs[key].messages.last();
            &&& options == before.update(
                i,
                ConfigOptionView { current_value: value@, ..before[i] },
            )
            &&& set.tabs[key].messages.len() == v.tab(key).messages.len() + 1
            &&& told is Notice && told->Notice_kind is Success && told->text is OptionSet
            &&& told->text->OptionSet_option == before[i].name
            &&& v.tab(key).config_pending_id == Some(config_id@)
                ==> set.tabs[key].config_pending_id is None
        }),
{
    reveal(AppView::option_set);
    lemma_option_at(v.sessions.config_options[session_id@], config_id@, i, 0);
}

/// An option that could not be set says why, and keeps its value.
#[verifier::rlimit(40)]
pub proof fn law_an_option_that_was_not_set_says_why(
    v: AppView,
    session_id: String,
    config_id: String,
    message: String,
    key: Seq<char>,
    i: int,
)
    requires
        v.sessions.session_to_tab.contains_key(session_id@),
        v.sessions.session_to_tab[session_id@] == key,
        v.sessions.config_options.contains_key(session_id@),
        0 <= i < v.sessions.config_options[session_id@].len(),
        v.sessions.config_options[session_id@][i].id == config_id@,
        forall|k: int|
            0 <= k < i ==> (#[trigger] v.sessions.config_options[session_id@][k]).id != config_id@,
    ensures
        ({
            let before = v.sessions.config_options[session_id@];
            let failed = v.after(
                AppEvent::SessionConfigSetFailed { session_id, config_id, message },
            );
            let regret = failed.tabs[key].messages.last();
            &&& failed.sessions == v.sessions
            &&& regret is Notice && regret->Notice_kind is Error && regret->text
                is ConfigUpdateFailed
            &&& regret->text->error == message@
            &&& regret->text->ConfigUpdateFailed_option == before[i].name
            &&& v.tab(key).config_pending_id == Some(config_id@)
                ==> failed.tabs[key].config_pending_id is None
        }),
{
    reveal(AppView::option_set_failed);
    lemma_option_at(v.sessions.config_options[session_id@], config_id@, i, 0);
}

// ---------------------------------------------------------------------------
// Keys and the mouse
// ---------------------------------------------------------------------------

/// A key goes on to the world and lets go of the selection, but for the one that
/// copies it.
pub proof fn law_keys_go_on_or_copy(v: AppView, key: KeyEvent)
    ensures
        ({
            let after = v.after(AppEvent::Key(key));
            let text = v.pointer.text_selection.selected_text;
            let copies = key.code == KeyCode::Char('c') && key.modifiers.control && text is Some;
            &&& copies ==> after.effects == v.effects.push(EffectView::CopySelection(text->0@))
                && after.pointer.text_selection == v.pointer.text_selection
            &&& !copies ==> after.effects == v.effects.push(EffectView::HandleKey(key))
                && after.pointer.text_selection.selected_text is None
            &&& after.pointer.pressed_completed_turn is None
            &&& after.tabs == v.tabs
        }),
{
    reveal(AppView::key_pressed);
}

/// The wheel scrolls the chat by three rows, or by one with the modifier held, and
/// never below its end.
pub proof fn law_the_wheel_scrolls(v: AppView, m: MouseEvent)
    requires
        m.kind == MouseEventKind::ScrollUp || m.kind == MouseEventKind::ScrollDown,
        !(v.current_tab().current_view is Agents),
        v.screen.mode is Chat,
        v.current_tab().chat_scroll.offset + 3 <= usize::MAX,
    ensures
        ({
            let after = v.after(AppEvent::Mouse(m));
            let before = v.current_tab().chat_scroll.offset;
            let offset = after.tabs[v.active_key()].chat_scroll.offset;
            let up = m.kind == MouseEventKind::ScrollUp;
            let rows: int = if m.modifiers.alt { 1 } else { 3 };
            &&& up ==> offset == before + rows
            &&& !up && before >= rows ==> offset == before - rows
            &&& !up && before < rows ==> offset == 0
            &&& after.effects == v.effects
        }),
{
    reveal(AppView::mouse_moved);
    let s = v.click_cancelled().selecting_text(no_selection());
    assert(s.current_tab() == v.current_tab());
}

/// Over the list of sessions the wheel is an arrow key.
pub proof fn law_the_wheel_is_an_arrow_in_the_list(v: AppView, m: MouseEvent)
    requires
        m.kind == MouseEventKind::ScrollUp || m.kind == MouseEventKind::ScrollDown,
        v.current_tab().current_view is Agents,
    ensures
        v.after(AppEvent::Mouse(m)).effects == v.effects.push(
            EffectView::HandleKey(
                KeyEvent {
                    code: if m.kind == MouseEventKind::ScrollUp {
                        KeyCode::Up
                    } else {
                        KeyCode::Down
                    },
                    modifiers: m.modifiers,
                },
            ),
        ),
        v.after(AppEvent::Mouse(m)).tabs == v.tabs,
{
    reveal(AppView::mouse_moved);
}

/// The right button copies what is selected; with nothing selected it asks the
/// terminal to paste into this pane, where there is something to paste into.
pub proof fn law_the_right_button_copies_or_pastes(v: AppView, m: MouseEvent)
    requires
        m.kind == MouseEventKind::RightDown,
    ensures
        ({
            let after = v.after(AppEvent::Mouse(m));
            let text = v.pointer.text_selection.selected_text;
            let ids = v.ids;
            let known = ids.window_id is Some && ids.tab_id is Some && ids.pane_id is Some;
            let takes = v.screen.mode is Chat && v.current_tab().current_view is Chat
                && v.current_tab().pane_open && v.current_tab().input_focusable
                && !v.screen.help_overlay_visible && !v.command_popup_open();
            &&& text is Some ==> after.effects == v.effects.push(
                EffectView::CopySelection(text->0@),
            )
            &&& text is None && known && takes ==> after.effects == v.effects.push(
                EffectView::Send(
                    event_view(
                        "request_default_paste"@,
                        JsonView::Object(
                            seq![
                                MemberView {
                                    key: "window_id"@,
                                    value: JsonView::Text(ids.window_id->0),
                                },
                                MemberView {
                                    key: "tab_id"@,
                                    value: JsonView::Text(ids.tab_id->0),
                                },
                                MemberView {
                                    key: "pane_id"@,
                                    value: JsonView::Text(ids.pane_id->0),
                                },
                            ],
                        ),
                    ),
                ),
            )
            &&& text is None && !(known && takes) ==> after.effects == v.effects
        }),
{
    reveal(AppView::mouse_moved);
}

/// A drag selects text and is no click.
pub proof fn law_a_drag_is_no_click(v: AppView, m: MouseEvent)
    requires
        m.kind == MouseEventKind::LeftDrag,
    ensures
        ({
            let after = v.after(AppEvent::Mouse(m));
            &&& after.pointer.text_selection == m.selection
            &&& after.pointer.pressed_completed_turn is None
            &&& after.pointer.pressed_input_dialog_tab is None
            &&& after.tabs == v.tabs
            &&& after.effects == v.effects
        }),
{
    reveal(AppView::mouse_moved);
}

/// A click on a turn that is over selects it and folds it out or in, and nothing
/// else in the tab changes.
pub proof fn law_a_click_folds_a_turn(v: AppView, m: MouseEvent)
    requires
        m.kind == MouseEventKind::LeftUp,
        v.clicked_turn(m) is Some,
        v.clicked_turn(m)->0.turn_index < v.current_tab().completed_turns.len(),
    ensures
        ({
            let i = v.clicked_turn(m)->0.turn_index as int;
            let before = v.current_tab();
            let tab = v.after(AppEvent::Mouse(m)).tabs[v.active_key()];
            &&& tab.selected_completed_turn_idx == Some(v.clicked_turn(m)->0.turn_index)
            &&& tab.completed_turns.len() == before.completed_turns.len()
            &&& tab.completed_turns[i].expanded == !before.completed_turns[i].expanded
            &&& tab.completed_turns[i].prompt == before.completed_turns[i].prompt
            &&& tab.completed_turns[i].details == before.completed_turns[i].details
            &&& forall|k: int|
                0 <= k < before.completed_turns.len() && k != i ==> #[trigger] tab.completed_turns[k]
                    == before.completed_turns[k]
            &&& tab.messages == before.messages
            &&& v.after(AppEvent::Mouse(m)).effects == v.effects
        }),
{
    reveal(AppView::mouse_moved);
}

// ---------------------------------------------------------------------------
// Laws
// ---------------------------------------------------------------------------

/// The button pressed over the input remembers the tab, over a turn that is over the
/// turn, and elsewhere nothing.
pub proof fn law_a_press_remembers_what_is_under_it(v: AppView, m: MouseEvent)
    requires
        m.kind == MouseEventKind::LeftDown,
        m.selection.click_count is None || m.selection.click_count->0 <= 1,
    ensures
        ({
            let after = v.after(AppEvent::Mouse(m));
            let on_input = v.input_hit_at(m.column, m.row);
            let hit = v.turn_hit_at(m.column, m.row);
            &&& after.pointer.text_selection == m.selection
            &&& on_input ==> after.pointer.pressed_input_dialog_tab == Some(v.active_key())
                && after.pointer.pressed_completed_turn is None
            &&& !on_input && hit is Some ==> after.pointer.pressed_completed_turn is Some
                && after.pointer.pressed_completed_turn->0.hit == hit->0
                && after.pointer.pressed_completed_turn->0.tab_id == v.active_key()
            &&& !on_input && hit is None ==> after.pointer.pressed_completed_turn is None
            &&& after.tabs == v.tabs && after.effects == v.effects
        }),
{
    reveal(AppView::mouse_moved);
}

/// The input is where it was drawn, while it can be typed into.
pub proof fn law_the_input_is_where_it_was_drawn(v: AppView, area: Rect, column: u16, row: u16)
    requires
        v.pointer.input_dialog_area == Some(area),
        area.x + area.width <= u16::MAX,
        area.y + area.height <= u16::MAX,
    ensures
        v.input_hit_at(column, row) <==> v.screen.mode is Chat && v.current_tab().current_view is Chat
            && v.current_tab().input_focusable && !v.screen.help_overlay_visible
            && !v.command_popup_open() && area.x <= column < area.x + area.width && area.y <= row
            < area.y + area.height,
{
}

} // verus!
