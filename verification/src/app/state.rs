//! What the pane keeps.

use std::collections::VecDeque;

use vstd::prelude::*;
use vstd::string::*;

use crate::app::effect::{effects_view, Effect, EffectView, WtNotification};
use crate::keyed::Keyed;
use crate::models::{
    customs_view, models_view, AcpModelInfo, CustomModelCatalogEntry, CustomModelView, ModelView,
};
use crate::phrases::Phrase;
use crate::tab::{fresh_tab, AgentActivityOutcome, PaneView, TabSession, TabView};
use crate::text::{holds_text, opt_view, same};

verus! {

/// What fills the pane.
#[derive(Clone, Copy, Debug, PartialEq, Eq, Structural)]
pub enum AppMode {
    Chat,
    Setup,
    Auth,
}

/// How the pane stands with its agent.
pub enum ConnectionState {
    Disconnected,
    Connecting(Phrase),
    Connected,
    Failed(String),
}

/// Where an agent runs.
pub enum AgentSource {
    Host,
    Wsl { distro: String },
}

impl Clone for AgentSource {
    fn clone(&self) -> (r: Self)
        ensures
            r == *self,
    {
        match self {
            AgentSource::Host => AgentSource::Host,
            AgentSource::Wsl { distro } => AgentSource::Wsl { distro: distro.clone() },
        }
    }
}

impl AgentSource {
    /// Whether two sources are the same.
    pub open spec fn same_as(self, other: AgentSource) -> bool {
        match (self, other) {
            (AgentSource::Host, AgentSource::Host) => true,
            (AgentSource::Wsl { distro: a }, AgentSource::Wsl { distro: b }) => a@ == b@,
            _ => false,
        }
    }

    /// Whether two sources are the same.
    pub fn matches(&self, other: &AgentSource) -> (r: bool)
        ensures
            r == self.same_as(*other),
    {
        match (self, other) {
            (AgentSource::Host, AgentSource::Host) => true,
            (AgentSource::Wsl { distro: a }, AgentSource::Wsl { distro: b }) => same(
                a.as_str(),
                b.as_str(),
            ),
            _ => false,
        }
    }

    /// Whether the agent runs on the host.
    pub fn is_host(&self) -> (r: bool)
        ensures
            r == (*self is Host),
    {
        match self {
            AgentSource::Host => true,
            _ => false,
        }
    }
}

/// An agent that can be switched to.
pub struct AvailableAgent {
    pub id: String,
    pub display_name: String,
    pub source: AgentSource,
}

impl Clone for AvailableAgent {
    fn clone(&self) -> (r: Self)
        ensures
            r == *self,
    {
        AvailableAgent {
            id: self.id.clone(),
            display_name: self.display_name.clone(),
            source: self.source.clone(),
        }
    }
}

/// An area of the screen.
#[derive(Clone, Copy, Debug, PartialEq, Eq, Structural)]
pub struct Rect {
    pub x: u16,
    pub y: u16,
    pub width: u16,
    pub height: u16,
}

/// What of a turn can be clicked.
#[derive(Clone, Copy, Debug, PartialEq, Eq, Structural)]
pub enum CompletedTurnHitKind {
    Triangle,
    UserInput,
}

/// Where a turn can be clicked: some columns of one row.
#[derive(Clone, Copy, Debug, PartialEq, Eq, Structural)]
pub struct CompletedTurnHitRegion {
    pub start_column: u16,
    pub end_column: u16,
    pub row: u16,
    pub turn_index: usize,
    pub kind: CompletedTurnHitKind,
}

impl CompletedTurnHitRegion {
    /// Whether a place of the screen lies in the region.
    pub open spec fn covers(self, column: u16, row: u16) -> bool {
        self.row == row && self.start_column <= column < self.end_column
    }

    /// Whether a place of the screen lies in the region.
    pub fn contains(&self, column: u16, row: u16) -> (r: bool)
        ensures
            r == self.covers(column, row),
    {
        self.row == row && self.start_column <= column && column < self.end_column
    }
}

/// A turn on which the mouse button went down.
pub struct PressedCompletedTurn {
    pub tab_id: String,
    pub hit: CompletedTurnHitRegion,
}

/// A click on a turn, and how things stood before it.
pub struct CompletedTurnClickRecord {
    pub tab_id: String,
    pub column: u16,
    pub row: u16,
    pub turn_index: usize,
    pub previous_selected_index: Option<usize>,
    pub previous_selection_pending: bool,
    pub previous_expanded: bool,
}

/// A pressed turn, mathematically.
#[verifier::ext_equal]
pub struct PressedView {
    pub tab_id: Seq<char>,
    pub hit: CompletedTurnHitRegion,
}

/// A click on a turn, mathematically.
#[verifier::ext_equal]
pub struct ClickView {
    pub tab_id: Seq<char>,
    pub column: u16,
    pub row: u16,
    pub turn_index: usize,
    pub previous_selected_index: Option<usize>,
    pub previous_selection_pending: bool,
    pub previous_expanded: bool,
}

/// A pressed turn, mathematically.
pub open spec fn pressed_view(p: Option<PressedCompletedTurn>) -> Option<PressedView> {
    match p {
        Some(p) => Some(PressedView { tab_id: p.tab_id@, hit: p.hit }),
        None => None,
    }
}

/// A click on a turn, mathematically.
pub open spec fn click_view(c: Option<CompletedTurnClickRecord>) -> Option<ClickView> {
    match c {
        Some(c) => Some(
            ClickView {
                tab_id: c.tab_id@,
                column: c.column,
                row: c.row,
                turn_index: c.turn_index,
                previous_selected_index: c.previous_selected_index,
                previous_selection_pending: c.previous_selection_pending,
                previous_expanded: c.previous_expanded,
            },
        ),
        None => None,
    }
}

/// What the mouse has selected on screen.
pub struct TextSelection {
    pub selected_text: Option<String>,
    pub click_count: Option<usize>,
}

/// Nothing is selected.
pub open spec fn no_selection() -> TextSelection {
    TextSelection { selected_text: None, click_count: None }
}

/// A hint that goes away by itself.
pub struct TransientHint {
    pub phrase: Phrase,
    pub until_ms: u64,
}

/// How long the hint stays that the selection was copied.
pub const SELECTION_COPIED_HINT_MS: u64 = 2000;

/// The key of the tab of a pane that has not been told its tab.
pub open spec fn default_tab_id() -> Seq<char> {
    "default"@
}

/// Whether a check passed.
pub enum CheckStatus {
    Passed,
    Failed(Phrase),
}

/// What was found out about an agent before it is started.
pub struct PreflightResult {
    pub agent_id: String,
    pub display_name: String,
    pub cli_status: CheckStatus,
    pub cli_path: Option<String>,
    pub auth_status: CheckStatus,
    pub install_hint: String,
    pub install_url: Option<String>,
    pub auth_hint: String,
}

/// Why the set-up screen is shown.
#[derive(Clone, Copy, Debug, PartialEq, Eq, Structural)]
pub enum SetupReason {
    AgentMissing,
    AgentError,
}

/// A choice on the set-up screen.
pub struct SetupOption {
    pub id: String,
    pub label: String,
}

/// The set-up screen.
pub struct SetupState {
    pub reason: SetupReason,
    pub selected_index: usize,
    pub preflight: PreflightResult,
    pub install_in_progress: bool,
    pub install_error: Option<String>,
    pub options: Vec<SetupOption>,
    pub title: Phrase,
    pub subtitle: Phrase,
}

/// The sign-in screen.
pub struct AuthState {
    pub agent_id: String,
    pub checking: bool,
    pub status_message: Phrase,
}

/// A value of a configuration option.
pub struct AcpSessionConfigValue {
    pub id: String,
    pub name: String,
    pub description: Option<String>,
}

/// A configuration option of a session.
pub struct AcpSessionConfigOption {
    pub id: String,
    pub name: String,
    pub description: Option<String>,
    pub category: Option<String>,
    pub current_value: String,
    pub values: Vec<AcpSessionConfigValue>,
}

/// A configuration option, mathematically.
#[verifier::ext_equal]
pub struct ConfigOptionView {
    pub id: Seq<char>,
    pub name: Seq<char>,
    pub description: Option<Seq<char>>,
    pub category: Option<Seq<char>>,
    pub current_value: Seq<char>,
    pub values: Seq<AcpSessionConfigValue>,
}

impl View for AcpSessionConfigOption {
    type V = ConfigOptionView;

    open spec fn view(&self) -> ConfigOptionView {
        ConfigOptionView {
            id: self.id@,
            name: self.name@,
            description: opt_view(self.description),
            category: opt_view(self.category),
            current_value: self.current_value@,
            values: self.values@,
        }
    }
}

/// Configuration options, mathematically.
pub open spec fn options_view(v: Seq<AcpSessionConfigOption>) -> Seq<ConfigOptionView> {
    v.map_values(|o: AcpSessionConfigOption| o@)
}

/// The models of a session, and the one it runs on.
pub struct ModelConfig {
    pub models: Vec<AcpModelInfo>,
    pub current: Option<String>,
}

/// The models of a session, mathematically.
#[verifier::ext_equal]
pub struct ModelConfigView {
    pub models: Seq<ModelView>,
    pub current: Option<Seq<char>>,
}

impl View for ModelConfig {
    type V = ModelConfigView;

    open spec fn view(&self) -> ModelConfigView {
        ModelConfigView { models: models_view(self.models@), current: opt_view(self.current) }
    }
}

/// What a tab is busy with, as the terminal shows it.
#[derive(Clone, Copy, Debug, PartialEq, Eq, Structural)]
pub enum ActivityPhase {
    Waiting,
    Working,
    Idle,
}

/// What was last told to the terminal of a tab's activity.
pub struct ActivityProjection {
    pub pane_id: Option<String>,
    pub phase: ActivityPhase,
    pub outcome: Option<AgentActivityOutcome>,
    pub operation_id: u64,
    pub summary: Option<String>,
}

/// A tab's activity, mathematically.
#[verifier::ext_equal]
pub struct ActivityView {
    pub pane_id: Option<Seq<char>>,
    pub phase: ActivityPhase,
    pub outcome: Option<AgentActivityOutcome>,
    pub operation_id: u64,
    pub summary: Option<Seq<char>>,
}

impl View for ActivityProjection {
    type V = ActivityView;

    open spec fn view(&self) -> ActivityView {
        ActivityView {
            pane_id: opt_view(self.pane_id),
            phase: self.phase,
            outcome: self.outcome,
            operation_id: self.operation_id,
            summary: opt_view(self.summary),
        }
    }
}

/// Which pane this is.
pub struct PaneIds {
    /// The tab that is in front.
    pub tab_id: Option<String>,
    pub window_id: Option<String>,
    pub pane_id: Option<String>,
    /// The tab this pane belongs to.
    pub owner_tab_id: Option<String>,
    pub session_id: String,
}

/// Which pane this is, mathematically.
#[verifier::ext_equal]
pub struct IdsView {
    pub tab_id: Option<Seq<char>>,
    pub window_id: Option<Seq<char>>,
    pub pane_id: Option<Seq<char>>,
    pub owner_tab_id: Option<Seq<char>>,
    pub session_id: Seq<char>,
}

impl View for PaneIds {
    type V = IdsView;

    open spec fn view(&self) -> IdsView {
        IdsView {
            tab_id: opt_view(self.tab_id),
            window_id: opt_view(self.window_id),
            pane_id: opt_view(self.pane_id),
            owner_tab_id: opt_view(self.owner_tab_id),
            session_id: self.session_id@,
        }
    }
}

/// What is known of the sessions of the agent.
pub struct SessionMaps {
    pub session_to_tab: Keyed<String>,
    pub model_configs: Keyed<ModelConfig>,
    pub config_options: Keyed<Vec<AcpSessionConfigOption>>,
}

/// What is known of the sessions, mathematically.
#[verifier::ext_equal]
pub struct SessionsView {
    pub session_to_tab: Map<Seq<char>, Seq<char>>,
    pub model_configs: Map<Seq<char>, ModelConfigView>,
    pub config_options: Map<Seq<char>, Seq<ConfigOptionView>>,
}

impl View for SessionMaps {
    type V = SessionsView;

    open spec fn view(&self) -> SessionsView {
        SessionsView {
            session_to_tab: texts_view(self.session_to_tab@),
            model_configs: configs_view(self.model_configs@),
            config_options: option_lists_view(self.config_options@),
        }
    }
}

/// What the mouse does.
pub struct PointerState {
    pub completed_turn_hits: Vec<CompletedTurnHitRegion>,
    pub input_dialog_area: Option<Rect>,
    pub pressed_completed_turn: Option<PressedCompletedTurn>,
    pub last_completed_turn_click: Option<CompletedTurnClickRecord>,
    pub pressed_input_dialog_tab: Option<String>,
    pub text_selection: TextSelection,
}

/// What the mouse does, mathematically.
#[verifier::ext_equal]
pub struct PointerView {
    pub completed_turn_hits: Seq<CompletedTurnHitRegion>,
    pub input_dialog_area: Option<Rect>,
    pub pressed_completed_turn: Option<PressedView>,
    pub last_completed_turn_click: Option<ClickView>,
    pub pressed_input_dialog_tab: Option<Seq<char>>,
    pub text_selection: TextSelection,
}

impl View for PointerState {
    type V = PointerView;

    open spec fn view(&self) -> PointerView {
        PointerView {
            completed_turn_hits: self.completed_turn_hits@,
            input_dialog_area: self.input_dialog_area,
            pressed_completed_turn: pressed_view(self.pressed_completed_turn),
            last_completed_turn_click: click_view(self.last_completed_turn_click),
            pressed_input_dialog_tab: opt_view(self.pressed_input_dialog_tab),
            text_selection: self.text_selection,
        }
    }
}

/// What is on screen beside the tabs.
pub struct ScreenState {
    pub mode: AppMode,
    pub help_overlay_visible: bool,
    pub show_welcome_hint: bool,
    pub close_pane_armed_at: Option<u64>,
    pub transient_hint: Option<TransientHint>,
    pub terminal_cols: u16,
    pub terminal_rows: u16,
    pub pane_focused: bool,
    pub activity_frame: u64,
    pub wt_notifications: VecDeque<WtNotification>,
    pub show_notification_banner: bool,
    pub debug_messages: Vec<String>,
    pub should_quit: bool,
}

/// What is on screen beside the tabs, mathematically.
#[verifier::ext_equal]
pub struct ScreenView {
    pub mode: AppMode,
    pub help_overlay_visible: bool,
    pub show_welcome_hint: bool,
    pub close_pane_armed_at: Option<u64>,
    pub transient_hint: Option<TransientHint>,
    pub terminal_cols: u16,
    pub terminal_rows: u16,
    pub pane_focused: bool,
    pub activity_frame: u64,
    pub wt_notifications: Seq<WtNotification>,
    pub show_notification_banner: bool,
    pub debug_messages: Seq<String>,
    pub should_quit: bool,
}

impl View for ScreenState {
    type V = ScreenView;

    open spec fn view(&self) -> ScreenView {
        ScreenView {
            mode: self.mode,
            help_overlay_visible: self.help_overlay_visible,
            show_welcome_hint: self.show_welcome_hint,
            close_pane_armed_at: self.close_pane_armed_at,
            transient_hint: self.transient_hint,
            terminal_cols: self.terminal_cols,
            terminal_rows: self.terminal_rows,
            pane_focused: self.pane_focused,
            activity_frame: self.activity_frame,
            wt_notifications: self.wt_notifications@,
            show_notification_banner: self.show_notification_banner,
            debug_messages: self.debug_messages@,
            should_quit: self.should_quit,
        }
    }
}

/// The agent behind the pane.
pub struct AgentInfo {
    pub state: ConnectionState,
    pub name: String,
    pub model: Option<String>,
    pub version: Option<String>,
    pub supports_load_session: bool,
    pub supports_image: bool,
    pub current_id: String,
    pub source: AgentSource,
    /// How the source of the agent is shown behind its name.
    pub backend_label: Option<String>,
    pub available: Vec<AvailableAgent>,
    pub pending_selection: Option<String>,
    pub probe_generation: u64,
}

/// The agent behind the pane, mathematically.
#[verifier::ext_equal]
pub struct AgentView {
    pub state: ConnectionState,
    pub name: Seq<char>,
    pub model: Option<Seq<char>>,
    pub version: Option<Seq<char>>,
    pub supports_load_session: bool,
    pub supports_image: bool,
    pub current_id: Seq<char>,
    pub source: AgentSource,
    pub backend_label: Option<Seq<char>>,
    pub available: Seq<AvailableAgent>,
    pub pending_selection: Option<Seq<char>>,
    pub probe_generation: u64,
}

impl View for AgentInfo {
    type V = AgentView;

    open spec fn view(&self) -> AgentView {
        AgentView {
            state: self.state,
            name: self.name@,
            model: opt_view(self.model),
            version: opt_view(self.version),
            supports_load_session: self.supports_load_session,
            supports_image: self.supports_image,
            current_id: self.current_id@,
            source: self.source,
            backend_label: opt_view(self.backend_label),
            available: self.available@,
            pending_selection: opt_view(self.pending_selection),
            probe_generation: self.probe_generation,
        }
    }
}

/// The models that can be chosen.
pub struct ModelCatalog {
    pub agent_models: Vec<AcpModelInfo>,
    pub agent_current_model_id: Option<String>,
    pub cloud_models: Vec<AcpModelInfo>,
    pub custom_models: Vec<CustomModelCatalogEntry>,
    pub custom_selection: Option<String>,
    pub available_models: Vec<AcpModelInfo>,
    pub picker_models: Vec<AcpModelInfo>,
    pub current_model_id: Option<String>,
    pub host_catalog_ready: bool,
    /// The agent can run models of the user's own providers.
    pub own_models_supported: bool,
    /// The model that is set for all panes.
    pub global_model: Option<String>,
}

/// The models that can be chosen, mathematically.
#[verifier::ext_equal]
pub struct CatalogView {
    pub agent_models: Seq<ModelView>,
    pub agent_current_model_id: Option<Seq<char>>,
    pub cloud_models: Seq<ModelView>,
    pub custom_models: Seq<CustomModelView>,
    pub custom_selection: Option<Seq<char>>,
    pub available_models: Seq<ModelView>,
    pub picker_models: Seq<ModelView>,
    pub current_model_id: Option<Seq<char>>,
    pub host_catalog_ready: bool,
    pub own_models_supported: bool,
    pub global_model: Option<Seq<char>>,
}

impl View for ModelCatalog {
    type V = CatalogView;

    open spec fn view(&self) -> CatalogView {
        CatalogView {
            agent_models: models_view(self.agent_models@),
            agent_current_model_id: opt_view(self.agent_current_model_id),
            cloud_models: models_view(self.cloud_models@),
            custom_models: customs_view(self.custom_models@),
            custom_selection: opt_view(self.custom_selection),
            available_models: models_view(self.available_models@),
            picker_models: models_view(self.picker_models@),
            current_model_id: opt_view(self.current_model_id),
            host_catalog_ready: self.host_catalog_ready,
            own_models_supported: self.own_models_supported,
            global_model: opt_view(self.global_model),
        }
    }
}

/// Setting up and signing in.
pub struct SetupFlow {
    pub auth_recovery_generation: u64,
    pub preflight_setup_active: bool,
    pub setup: Option<SetupState>,
    pub auth: Option<AuthState>,
    /// What is needed to start the agent later is at hand.
    pub deferred_start: bool,
    pub pending_acp_start: bool,
    pub needs_post_login_authenticate: bool,
}

/// Settings of the pane.
pub struct PaneSettings {
    pub autofix_enabled: bool,
    pub log_agent_events: bool,
    /// The list of sessions has been asked for and is not there yet.
    pub agents_snapshot_pending: bool,
    pub prompt_name: Option<String>,
}

/// The agent pane.
pub struct App {
    pub ids: PaneIds,
    pub tabs: Keyed<TabSession>,
    pub sessions: SessionMaps,
    pub pointer: PointerState,
    pub screen: ScreenState,
    pub agent: AgentInfo,
    pub catalog: ModelCatalog,
    pub flow: SetupFlow,
    pub settings: PaneSettings,
    pub last_projected_activity: Keyed<ActivityProjection>,
    /// What is still to be done by the world around the pane.
    pub effects: Vec<Effect>,
}

/// The agent pane, mathematically.
pub struct AppView {
    pub ids: IdsView,
    pub tabs: Map<Seq<char>, TabView>,
    /// The keys of the tabs in the order in which they came.
    pub tab_order: Seq<Seq<char>>,
    pub sessions: SessionsView,
    pub pointer: PointerView,
    pub screen: ScreenView,
    pub agent: AgentView,
    pub catalog: CatalogView,
    pub flow: SetupFlow,
    pub settings: PaneSettings,
    pub last_projected_activity: Map<Seq<char>, ActivityView>,
    pub effects: Seq<EffectView>,
}

/// The tabs of a map, mathematically.
pub open spec fn tabs_view(m: Map<Seq<char>, TabSession>) -> Map<Seq<char>, TabView> {
    m.map_values(|t: TabSession| t@)
}

/// The texts of a map, mathematically.
pub open spec fn texts_view(m: Map<Seq<char>, String>) -> Map<Seq<char>, Seq<char>> {
    m.map_values(|s: String| s@)
}

/// The model configurations of a map, mathematically.
pub open spec fn configs_view(m: Map<Seq<char>, ModelConfig>) -> Map<Seq<char>, ModelConfigView> {
    m.map_values(|c: ModelConfig| c@)
}

/// The configuration options of a map, mathematically.
pub open spec fn option_lists_view(m: Map<Seq<char>, Vec<AcpSessionConfigOption>>) -> Map<
    Seq<char>,
    Seq<ConfigOptionView>,
> {
    m.map_values(|v: Vec<AcpSessionConfigOption>| options_view(v@))
}

/// The activities of a map, mathematically.
pub open spec fn activities_view(m: Map<Seq<char>, ActivityProjection>) -> Map<
    Seq<char>,
    ActivityView,
> {
    m.map_values(|a: ActivityProjection| a@)
}

impl View for App {
    type V = AppView;

    open spec fn view(&self) -> AppView {
        AppView {
            ids: self.ids@,
            tabs: tabs_view(self.tabs@),
            tab_order: self.tabs.keys(),
            sessions: self.sessions@,
            pointer: self.pointer@,
            screen: self.screen@,
            agent: self.agent@,
            catalog: self.catalog@,
            flow: self.flow,
            settings: self.settings,
            last_projected_activity: activities_view(self.last_projected_activity@),
            effects: effects_view(self.effects@),
        }
    }
}

// ---------------------------------------------------------------------------
// Tabs
// ---------------------------------------------------------------------------

impl AppView {
    /// The key of the tab in front.
    pub open spec fn active_key(self) -> Seq<char> {
        match self.ids.tab_id {
            Some(id) => id,
            None => default_tab_id(),
        }
    }

    /// What is kept for a tab: nothing yet, where the tab is new.
    pub open spec fn tab(self, key: Seq<char>) -> TabView {
        if self.tabs.contains_key(key) {
            self.tabs[key]
        } else {
            fresh_tab()
        }
    }

    /// The tab in front.
    pub open spec fn current_tab(self) -> TabView {
        self.tab(self.active_key())
    }

    /// The pane with something else kept for a tab.
    pub open spec fn with_tab(self, key: Seq<char>, tab: TabView) -> AppView {
        AppView {
            tabs: self.tabs.insert(key, tab),
            tab_order: if self.tabs.contains_key(key) {
                self.tab_order
            } else {
                self.tab_order.push(key)
            },
            ..self
        }
    }

    /// The pane with something else kept for the tab in front.
    pub open spec fn with_current(self, tab: TabView) -> AppView {
        self.with_tab(self.active_key(), tab)
    }

    /// The pane with one more request to the world.
    pub open spec fn asking(self, e: EffectView) -> AppView {
        AppView { effects: self.effects.push(e), ..self }
    }

    /// The tab that a session is bound to, from the `i`-th tab on.
    pub open spec fn tab_with_session(self, session_id: Seq<char>, i: int) -> Option<Seq<char>>
        decreases self.tab_order.len() - i,
    {
        if i < 0 || i >= self.tab_order.len() {
            None
        } else if self.tab(self.tab_order[i]).session_id == Some(session_id) {
            Some(self.tab_order[i])
        } else {
            self.tab_with_session(session_id, i + 1)
        }
    }

    /// The tab that a session is bound to.
    pub open spec fn bound_tab(self, session_id: Seq<char>) -> Option<Seq<char>> {
        if self.sessions.session_to_tab.contains_key(session_id) {
            Some(self.sessions.session_to_tab[session_id])
        } else {
            self.tab_with_session(session_id, 0)
        }
    }

    /// The tab that news of a session go to: the one in front, where the
    /// session is bound to none.
    pub open spec fn session_tab_key(self, session_id: Seq<char>) -> Seq<char> {
        match self.bound_tab(session_id) {
            Some(key) => key,
            None => self.active_key(),
        }
    }

    /// The tab that news of a session go to.
    pub open spec fn session_tab(self, session_id: Seq<char>) -> TabView {
        self.tab(self.session_tab_key(session_id))
    }

    /// The pane with something else kept for the tab of a session.
    pub open spec fn with_session_tab(self, session_id: Seq<char>, tab: TabView) -> AppView {
        self.with_tab(self.session_tab_key(session_id), tab)
    }
}

fn tab_slot<'a>(tabs: &'a mut Keyed<TabSession>, key: &str) -> (r: &'a mut TabSession)
    ensures
        r@ == (if tabs_view(old(tabs)@).contains_key(key@) {
            tabs_view(old(tabs)@)[key@]
        } else {
            fresh_tab()
        }),
        tabs_view(final(tabs)@) == tabs_view(old(tabs)@).insert(key@, (*final(r))@),
        final(tabs).keys() == (if tabs_view(old(tabs)@).contains_key(key@) {
            old(tabs).keys()
        } else {
            old(tabs).keys().push(key@)
        }),
{
    if !tabs.contains_key(key) {
        tabs.insert(key.to_owned(), TabSession::default());
    }
    proof {
        let before = tabs@;
        let first = tabs_view(old(tabs)@);
        assert forall|t: TabSession| #[trigger] tabs_view(before.insert(key@, t)) == first.insert(
            key@,
            t@,
        ) by {
            assert(tabs_view(before.insert(key@, t)) =~= first.insert(key@, t@));
        }
    }
    tabs.get_mut(key)
}

impl App {
    /// The key of the tab in front.
    pub fn active_tab_key(&self) -> (r: String)
        ensures
            r@ == self@.active_key(),
    {
        match &self.ids.tab_id {
            Some(id) => id.clone(),
            None => "default".to_owned(),
        }
    }

    /// What is kept for a tab, to be changed in place; a new tab begins with
    /// nothing.
    pub fn tab_mut(&mut self, key: &str) -> (r: &mut TabSession)
        ensures
            r@ == old(self)@.tab(key@),
            final(self)@ == old(self)@.with_tab(key@, (*final(r))@),
    {
        tab_slot(&mut self.tabs, key)
    }

    /// What is kept for the tab in front, to be changed in place.
    pub fn current_tab_mut(&mut self) -> (r: &mut TabSession)
        ensures
            r@ == old(self)@.current_tab(),
            final(self)@ == old(self)@.with_current((*final(r))@),
    {
        let key = self.active_tab_key();
        self.tab_mut(key.as_str())
    }

    /// What is kept for the tab of a session, to be changed in place.
    pub fn session_tab_mut(&mut self, session_id: &str) -> (r: &mut TabSession)
        ensures
            r@ == old(self)@.session_tab(session_id@),
            final(self)@ == old(self)@.with_session_tab(session_id@, (*final(r))@),
    {
        let key = self.tab_for_session(session_id);
        self.tab_mut(key.as_str())
    }

    /// Asks the world for something.
    pub fn ask(&mut self, e: Effect)
        ensures
            final(self)@ == old(self)@.asking(e@),
    {
        self.effects.push(e);
        proof {
            assert(effects_view(self.effects@) =~= old(self)@.effects.push(e@));
        }
    }

    /// What is kept for a tab, where there is anything.
    pub fn tab(&self, key: &str) -> (r: Option<&TabSession>)
        ensures
            match r {
                Some(t) => self@.tabs.contains_key(key@) && t@ == self@.tab(key@),
                None => !self@.tabs.contains_key(key@) && self@.tab(key@) == fresh_tab(),
            },
    {
        self.tabs.get(key)
    }

    /// What is kept for the tab in front, where there is anything.
    pub fn current_tab(&self) -> (r: Option<&TabSession>)
        ensures
            match r {
                Some(t) => self@.tabs.contains_key(self@.active_key()) && t@ == self@.current_tab(),
                None => !self@.tabs.contains_key(self@.active_key()) && self@.current_tab()
                    == fresh_tab(),
            },
    {
        let key = self.active_tab_key();
        self.tabs.get(key.as_str())
    }

    /// What the tab in front shows.
    pub fn current_view(&self) -> (r: PaneView)
        ensures
            r == self@.current_tab().current_view,
    {
        match self.current_tab() {
            Some(tab) => tab.current_view,
            None => PaneView::Chat,
        }
    }

    /// The tab that a session is bound to.
    pub fn bound_tab_for_session(&self, session_id: &str) -> (r: Option<String>)
        ensures
            opt_view(r) == self@.bound_tab(session_id@),
    {
        match self.sessions.session_to_tab.get(session_id) {
            Some(tab) => Some(tab.clone()),
            None => {
                let mut i: usize = 0;
                let n: usize = self.tabs.count();
                while i < n
                    invariant
                        i <= n,
                        n == self@.tab_order.len(),
                        !self@.sessions.session_to_tab.contains_key(session_id@),
                        self@.tab_with_session(session_id@, 0) == self@.tab_with_session(
                            session_id@,
                            i as int,
                        ),
                    decreases n - i,
                {
                    let key = self.tabs.key(i);
                    if let Some(tab) = self.tab(key.as_str()) {
                        if holds_text(&tab.session_id, session_id) {
                            return Some(key.clone());
                        }
                    }
                    i += 1;
                }
                None
            },
        }
    }

    /// The tab that news of a session go to.
    pub fn tab_for_session(&self, session_id: &str) -> (r: String)
        ensures
            r@ == self@.session_tab_key(session_id@),
    {
        match self.bound_tab_for_session(session_id) {
            Some(key) => key,
            None => self.active_tab_key(),
        }
    }
}

// ---------------------------------------------------------------------------
// Laws
// ---------------------------------------------------------------------------

proof fn lemma_first_tab_of(app: AppView, session_id: Seq<char>, i: int, from: int)
    requires
        0 <= from <= i < app.tab_order.len(),
        app.tab(app.tab_order[i]).session_id == Some(session_id),
        forall|k: int|
            from <= k < i ==> app.tab(#[trigger] app.tab_order[k]).session_id != Some(session_id),
    ensures
        app.tab_with_session(session_id, from) == Some(app.tab_order[i]),
    decreases i - from,
{
    if from < i {
        lemma_first_tab_of(app, session_id, i, from + 1);
    }
}

proof fn lemma_no_tab_of(app: AppView, session_id: Seq<char>, from: int)
    requires
        0 <= from,
        forall|k: int|
            from <= k < app.tab_order.len() ==> app.tab(#[trigger] app.tab_order[k]).session_id
                != Some(session_id),
    ensures
        app.tab_with_session(session_id, from) is None,
    decreases app.tab_order.len() - from,
{
    if from < app.tab_order.len() {
        lemma_no_tab_of(app, session_id, from + 1);
    }
}

/// What happens in a session happens in the tab that it is bound to, else in the first
/// tab that has it, and else in the tab in front.
pub proof fn law_a_session_is_found_in_its_tab(app: AppView, session_id: Seq<char>, i: int)
    ensures
        ({
            let key = app.session_tab_key(session_id);
            let bound = app.sessions.session_to_tab.contains_key(session_id);
            let first = 0 <= i < app.tab_order.len() && app.tab(app.tab_order[i]).session_id == Some(
                session_id,
            ) && forall|k: int|
                0 <= k < i ==> app.tab(#[trigger] app.tab_order[k]).session_id != Some(session_id);
            let none = forall|k: int|
                0 <= k < app.tab_order.len() ==> app.tab(#[trigger] app.tab_order[k]).session_id
                    != Some(session_id);
            &&& bound ==> key == app.sessions.session_to_tab[session_id]
            &&& !bound && first ==> key == app.tab_order[i]
            &&& !bound && none ==> key == app.active_key()
        }),
{
    if 0 <= i < app.tab_order.len() && app.tab(app.tab_order[i]).session_id == Some(session_id) && (
    forall|k: int|
        0 <= k < i ==> app.tab(#[trigger] app.tab_order[k]).session_id != Some(session_id)) {
        lemma_first_tab_of(app, session_id, i, 0);
    }
    if forall|k: int|
        0 <= k < app.tab_order.len() ==> app.tab(#[trigger] app.tab_order[k]).session_id != Some(
            session_id,
        ) {
        lemma_no_tab_of(app, session_id, 0);
    }
}

/// The tab in front is the one that the pane was told of, and else the default one; a
/// tab that is not there yet is a fresh one.
pub proof fn law_the_tab_in_front_is_the_one_told(app: AppView, key: Seq<char>)
    ensures
        app.ids.tab_id is Some ==> app.active_key() == app.ids.tab_id->0,
        app.ids.tab_id is None ==> app.active_key() == "default"@,
        app.tabs.contains_key(key) ==> app.tab(key) == app.tabs[key],
        !app.tabs.contains_key(key) ==> app.tab(key).messages.len() == 0 && app.tab(key).turn is Idle
            && app.tab(key).session_id is None && app.tab(key).completed_turns.len() == 0,
{
}

/// A region is hit in its row, from its first column up to its end.
pub proof fn law_a_region_is_hit_in_its_row(hit: CompletedTurnHitRegion, column: u16, row: u16)
    ensures
        hit.covers(column, row) <==> hit.row == row && hit.start_column <= column && column
            < hit.end_column,
{
}

} // verus!
