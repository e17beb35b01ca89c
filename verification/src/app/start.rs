//! The pane as it starts.

use std::collections::VecDeque;

use vstd::prelude::*;

use crate::app::state::{
    no_selection, AgentInfo, AgentSource, AgentView, App, AppMode, AppView, CatalogView,
    ConnectionState, IdsView, ModelCatalog, PaneIds, PaneSettings, PointerState, PointerView,
    ScreenState, ScreenView, SessionMaps, SessionsView, SetupFlow, TextSelection,
};
use crate::keyed::Keyed;

verus! {

/// A pane of which nothing is known yet.
pub open spec fn fresh_app() -> AppView {
    AppView {
        ids: IdsView {
            tab_id: None,
            window_id: None,
            pane_id: None,
            owner_tab_id: None,
            session_id: Seq::empty(),
        },
        tabs: Map::empty(),
        tab_order: Seq::empty(),
        sessions: SessionsView {
            session_to_tab: Map::empty(),
            model_configs: Map::empty(),
            config_options: Map::empty(),
        },
        pointer: PointerView {
            completed_turn_hits: Seq::empty(),
            input_dialog_area: None,
            pressed_completed_turn: None,
            last_completed_turn_click: None,
            pressed_input_dialog_tab: None,
            text_selection: no_selection(),
        },
        screen: ScreenView {
            mode: AppMode::Chat,
            help_overlay_visible: false,
            show_welcome_hint: false,
            close_pane_armed_at: None,
            transient_hint: None,
            terminal_cols: 0,
            terminal_rows: 0,
            pane_focused: true,
            activity_frame: 0,
            wt_notifications: Seq::empty(),
            show_notification_banner: false,
            debug_messages: Seq::empty(),
            should_quit: false,
        },
        agent: AgentView {
            state: ConnectionState::Disconnected,
            name: Seq::empty(),
            model: None,
            version: None,
            supports_load_session: false,
            supports_image: false,
            current_id: Seq::empty(),
            source: AgentSource::Host,
            backend_label: None,
            available: Seq::empty(),
            pending_selection: None,
            probe_generation: 0,
        },
        catalog: CatalogView {
            agent_models: Seq::empty(),
            agent_current_model_id: None,
            cloud_models: Seq::empty(),
            custom_models: Seq::empty(),
            custom_selection: None,
            available_models: Seq::empty(),
            picker_models: Seq::empty(),
            current_model_id: None,
            host_catalog_ready: false,
            own_models_supported: false,
            global_model: None,
        },
        flow: SetupFlow {
            auth_recovery_generation: 0,
            preflight_setup_active: false,
            setup: None,
            auth: None,
            deferred_start: false,
            pending_acp_start: false,
            needs_post_login_authenticate: false,
        },
        settings: PaneSettings {
            autofix_enabled: false,
            log_agent_events: false,
            agents_snapshot_pending: false,
            prompt_name: None,
        },
        last_projected_activity: Map::empty(),
        effects: Seq::empty(),
    }
}

fn no_agent() -> (r: AgentInfo)
    ensures
        r@ == fresh_app().agent,
{
    let r = AgentInfo {
        state: ConnectionState::Disconnected,
        name: String::new(),
        model: None,
        version: None,
        supports_load_session: false,
        supports_image: false,
        current_id: String::new(),
        source: AgentSource::Host,
        backend_label: None,
        available: Vec::new(),
        pending_selection: None,
        probe_generation: 0,
    };
    proof {
        assert(r@ =~= fresh_app().agent);
    }
    r
}

fn no_models() -> (r: ModelCatalog)
    ensures
        r@ == fresh_app().catalog,
{
    let r = ModelCatalog {
        agent_models: Vec::new(),
        agent_current_model_id: None,
        cloud_models: Vec::new(),
        custom_models: Vec::new(),
        custom_selection: None,
        available_models: Vec::new(),
        picker_models: Vec::new(),
        current_model_id: None,
        host_catalog_ready: false,
        own_models_supported: false,
        global_model: None,
    };
    proof {
        assert(r@ =~= fresh_app().catalog);
    }
    r
}

fn blank_screen() -> (r: ScreenState)
    ensures
        r@ == fresh_app().screen,
{
    let r = ScreenState {
        mode: AppMode::Chat,
        help_overlay_visible: false,
        show_welcome_hint: false,
        close_pane_armed_at: None,
        transient_hint: None,
        terminal_cols: 0,
        terminal_rows: 0,
        pane_focused: true,
        activity_frame: 0,
        wt_notifications: VecDeque::new(),
        show_notification_banner: false,
        debug_messages: Vec::new(),
        should_quit: false,
    };
    proof {
        assert(r@ =~= fresh_app().screen);
    }
    r
}

fn still_pointer() -> (r: PointerState)
    ensures
        r@ == fresh_app().pointer,
{
    let r = PointerState {
        completed_turn_hits: Vec::new(),
        input_dialog_area: None,
        pressed_completed_turn: None,
        last_completed_turn_click: None,
        pressed_input_dialog_tab: None,
        text_selection: TextSelection { selected_text: None, click_count: None },
    };
    proof {
        assert(r@ =~= fresh_app().pointer);
    }
    r
}

impl Default for App {
    fn default() -> (r: Self)
        ensures
            r@ == fresh_app(),
    {
        let r = App {
            ids: PaneIds {
                tab_id: None,
                window_id: None,
                pane_id: None,
                owner_tab_id: None,
                session_id: String::new(),
            },
            tabs: Keyed::new(),
            sessions: SessionMaps {
                session_to_tab: Keyed::new(),
                model_configs: Keyed::new(),
                config_options: Keyed::new(),
            },
            pointer: still_pointer(),
            screen: blank_screen(),
            agent: no_agent(),
            catalog: no_models(),
            flow: SetupFlow {
                auth_recovery_generation: 0,
                preflight_setup_active: false,
                setup: None,
                auth: None,
                deferred_start: false,
                pending_acp_start: false,
                needs_post_login_authenticate: false,
            },
            settings: PaneSettings {
                autofix_enabled: false,
                log_agent_events: false,
                agents_snapshot_pending: false,
                prompt_name: None,
            },
            last_projected_activity: Keyed::new(),
            effects: Vec::new(),
        };
        proof {
            assert(r@.ids =~= fresh_app().ids);
            assert(r@.tabs =~= fresh_app().tabs);
            assert(r@.sessions.session_to_tab =~= fresh_app().sessions.session_to_tab);
            assert(r@.sessions.model_configs =~= fresh_app().sessions.model_configs);
            assert(r@.sessions.config_options =~= fresh_app().sessions.config_options);
            assert(r@.last_projected_activity =~= fresh_app().last_projected_activity);
            assert(r@.effects =~= fresh_app().effects);
        }
        r
    }
}

// ---------------------------------------------------------------------------
// Laws
// ---------------------------------------------------------------------------

/// A pane begins with nothing: no tab, no agent, nothing asked for.
pub proof fn law_a_pane_begins_with_nothing(key: Seq<char>)
    ensures
        !fresh_app().tabs.contains_key(key),
        fresh_app().tab_order.len() == 0,
        fresh_app().effects.len() == 0,
        fresh_app().agent.state is Disconnected,
        fresh_app().screen.mode is Chat,
        !fresh_app().screen.should_quit,
        fresh_app().flow.setup is None,
{
}

} // verus!
