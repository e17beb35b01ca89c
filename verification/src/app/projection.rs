//! What the terminal is told of the pane.

use vstd::prelude::*;
use vstd::string::*;

use crate::app::effect::{EffectOf, EffectView};
use crate::app::state::{
    activities_view, ActivityPhase, ActivityProjection, ActivityView, AgentSource, AgentView, App,
    AppView, CatalogView, ConnectionState,
};
use crate::json::{
    entry, event, event_view, items_view, law_a_member_is_read_by_its_name,
    law_an_event_says_its_method, members_view, no_members, opt_text, put, Json, JsonView,
    MemberView,
};
use crate::keyed::law_a_key_has_one_entry;
use crate::models::{display_name, display_name_of, models_view, AcpModelInfo, ModelView};
use crate::tab::{
    AgentActivityOutcome, AutofixBarSnapshot, PaneView, TabSession, TabView, TurnState,
};
use crate::text::{decimal, opt_view, same, same_opt};
use crate::transcript::copy_text;
use crate::usage::{projected, UsageItemView, UsageProjection, UsageProjectionItem};

verus! {

// ---------------------------------------------------------------------------
// The state of a tab
// ---------------------------------------------------------------------------

impl TabView {
    /// What the tab is busy with: whether it waits for its user comes first.
    pub open spec fn phase(self) -> ActivityPhase {
        if self.permission.len() > 0 || self.user_input.len() > 0 {
            ActivityPhase::Waiting
        } else if self.turn.in_flight() {
            ActivityPhase::Working
        } else {
            ActivityPhase::Idle
        }
    }

    /// The operation the activity belongs to: that of the turn, or the last.
    pub open spec fn operation(self) -> u64 {
        match self.turn.prompt_id() {
            Some(id) => id,
            None => self.activity_operation_id,
        }
    }

    /// The activity of the tab.
    pub open spec fn activity(self, pane_id: Option<Seq<char>>) -> ActivityView {
        ActivityView {
            pane_id,
            phase: self.phase(),
            outcome: self.activity_outcome,
            operation_id: self.operation(),
            summary: self.activity_summary,
        }
    }
}

impl ActivityPhase {
    /// The name of the phase.
    pub open spec fn name(self) -> Seq<char> {
        match self {
            ActivityPhase::Waiting => "waiting"@,
            ActivityPhase::Working => "working"@,
            ActivityPhase::Idle => "idle"@,
        }
    }

    /// The name of the phase.
    pub fn as_str(self) -> (r: &'static str)
        ensures
            r@ == self.name(),
    {
        match self {
            ActivityPhase::Waiting => "waiting",
            ActivityPhase::Working => "working",
            ActivityPhase::Idle => "idle",
        }
    }
}

/// A figure of the usage as JSON.
pub open spec fn usage_item_json(item: UsageItemView) -> JsonView {
    let head = seq![
        entry("metric_id"@, JsonView::Text(item.metric_id)),
        entry("value_decimal_text"@, JsonView::Text(item.value)),
    ];
    let limit = match item.limit {
        Some(limit) => seq![entry("limit_decimal_text"@, JsonView::Text(limit))],
        None => Seq::empty(),
    };
    let tail = seq![
        entry("unit_id"@, JsonView::Text(item.unit_id)),
        entry("scope"@, JsonView::Text(item.scope)),
        entry("source"@, JsonView::Text(item.source)),
        entry("stale"@, JsonView::Bool(item.stale)),
    ];
    JsonView::Object(head + limit + tail)
}

/// The usage of a tab as JSON.
pub open spec fn usage_json(tab: TabView) -> JsonView {
    match tab.usage {
        Some(snapshot) => JsonView::Object(
            seq![
                entry(
                    "items"@,
                    JsonView::List(
                        projected(snapshot, tab.usage_staleness).map_values(
                            |i: UsageItemView| usage_item_json(i),
                        ),
                    ),
                ),
            ],
        ),
        None => JsonView::Null,
    }
}

/// The activity of a tab as JSON.
pub open spec fn activity_json(tab: TabView) -> JsonView {
    JsonView::Object(
        seq![
            entry("phase"@, JsonView::Text(tab.phase().name())),
            entry(
                "outcome"@,
                match tab.activity_outcome {
                    Some(outcome) => JsonView::Text(outcome.name()),
                    None => JsonView::Null,
                },
            ),
            entry("operation_id"@, JsonView::Number(decimal(tab.operation() as nat))),
            entry("summary"@, opt_text(tab.activity_summary)),
        ],
    )
}

/// The name of what a tab shows.
pub open spec fn pane_view_name(view: PaneView) -> Seq<char> {
    match view {
        PaneView::Agents => "sessions"@,
        PaneView::Chat => "chat"@,
    }
}

/// An optional member: none where there is no text.
pub open spec fn optional_entry(key: Seq<char>, value: Option<Seq<char>>) -> Seq<MemberView> {
    match value {
        Some(s) => seq![entry(key, JsonView::Text(s))],
        None => Seq::empty(),
    }
}

/// The event that tells the state of a tab.
#[verifier::opaque]
pub open spec fn tab_state_event(
    target_tab: Seq<char>,
    pane_id: Option<Seq<char>>,
    tab: TabView,
) -> JsonView {
    event_view(
        "agent_state_changed"@,
        JsonView::Object(
            seq![
                entry("tab_id"@, JsonView::Text(target_tab)),
                entry("view"@, JsonView::Text(pane_view_name(tab.current_view))),
                entry("pane_open"@, JsonView::Bool(tab.pane_open)),
                entry(
                    "pane_position"@,
                    match tab.agent_pane_position {
                        Some(p) => JsonView::Text(p.name()),
                        None => JsonView::Null,
                    },
                ),
                entry("usage"@, usage_json(tab)),
                entry("activity"@, activity_json(tab)),
            ] + optional_entry("pane_id"@, pane_id),
        ),
    )
}

fn phase_of(tab: &TabSession) -> (r: ActivityPhase)
    ensures
        r == tab@.phase(),
{
    proof {
        assert(tab@.user_input.len() == tab.user_input@.len());
    }
    if tab.permission.len() > 0 || tab.user_input.len() > 0 {
        ActivityPhase::Waiting
    } else if tab.turn.is_in_flight() {
        ActivityPhase::Working
    } else {
        ActivityPhase::Idle
    }
}

fn operation_of(tab: &TabSession) -> (r: u64)
    ensures
        r == tab@.operation(),
{
    match tab.turn.prompt() {
        Some(prompt) => prompt.id,
        None => tab.activity_operation_id,
    }
}

fn usage_item(item: &UsageProjectionItem) -> (r: Json)
    ensures
        r@ == usage_item_json(item@),
{
    let mut m = no_members();
    put(&mut m, "metric_id", Json::of_text(item.metric_id));
    put(&mut m, "value_decimal_text", Json::of_text(item.value_decimal_text.as_str()));
    if let Some(limit) = &item.limit_decimal_text {
        put(&mut m, "limit_decimal_text", Json::of_text(limit.as_str()));
    }
    put(&mut m, "unit_id", Json::of_text(item.unit_id.as_str()));
    put(&mut m, "scope", Json::of_text(item.scope));
    put(&mut m, "source", Json::of_text(item.source));
    put(&mut m, "stale", Json::Bool(item.stale));
    let r = Json::of_members(m);
    proof {
        assert(r@->Object_0 =~= usage_item_json(item@)->Object_0);
    }
    r
}

fn usage_document(tab: &TabSession) -> (r: Json)
    ensures
        r@ == usage_json(tab@),
{
    match &tab.usage {
        None => Json::Null,
        Some(snapshot) => {
            let shown = UsageProjection::with_staleness(snapshot, tab.usage_staleness);
            let ghost all = shown@.map_values(|i: UsageItemView| usage_item_json(i));
            let mut items: Vec<Json> = Vec::new();
            let mut i: usize = 0;
            proof {
                assert(items_view(items@) =~= all.take(0));
            }
            while i < shown.items.len()
                invariant
                    i <= shown.items.len(),
                    all == shown@.map_values(|i: UsageItemView| usage_item_json(i)),
                    items_view(items@) == all.take(i as int),
                decreases shown.items.len() - i,
            {
                let ghost had = items@;
                items.push(usage_item(&shown.items[i]));
                proof {
                    assert(shown@[i as int] == shown.items@[i as int]@);
                    assert(items_view(items@) =~= items_view(had).push(all[i as int]));
                    assert(all.take(i + 1) =~= all.take(i as int).push(all[i as int]));
                }
                i += 1;
            }
            proof {
                assert(all.take(all.len() as int) =~= all);
            }
            let mut m = no_members();
            put(&mut m, "items", Json::of_items(items));
            let r = Json::of_members(m);
            proof {
                assert(r@->Object_0 =~= usage_json(tab@)->Object_0);
            }
            r
        },
    }
}

fn activity_document(tab: &TabSession) -> (r: Json)
    ensures
        r@ == activity_json(tab@),
{
    let mut m = no_members();
    put(&mut m, "phase", Json::of_text(phase_of(tab).as_str()));
    put(
        &mut m,
        "outcome",
        match tab.activity_outcome {
            Some(outcome) => Json::of_text(outcome.as_str()),
            None => Json::Null,
        },
    );
    put(&mut m, "operation_id", Json::of_number(operation_of(tab)));
    put(&mut m, "summary", Json::of_opt_text(&tab.activity_summary));
    let r = Json::of_members(m);
    proof {
        assert(r@->Object_0 =~= activity_json(tab@)->Object_0);
    }
    r
}

/// The event that tells the state of a tab.
pub fn build_agent_state_changed_event(
    target_tab: &str,
    pane_id: &Option<String>,
    tab: &TabSession,
) -> (r: Json)
    ensures
        r@ == tab_state_event(target_tab@, opt_view(*pane_id), tab@),
{
    proof {
        reveal(tab_state_event);
    }
    let mut m = no_members();
    put(&mut m, "tab_id", Json::of_text(target_tab));
    put(
        &mut m,
        "view",
        Json::of_text(
            match tab.current_view {
                PaneView::Agents => "sessions",
                PaneView::Chat => "chat",
            },
        ),
    );
    put(&mut m, "pane_open", Json::Bool(tab.pane_open));
    put(
        &mut m,
        "pane_position",
        match tab.agent_pane_position {
            Some(p) => Json::of_text(p.as_str()),
            None => Json::Null,
        },
    );
    put(&mut m, "usage", usage_document(tab));
    put(&mut m, "activity", activity_document(tab));
    if let Some(pane) = pane_id {
        put(&mut m, "pane_id", Json::of_text(pane.as_str()));
    }
    let params = Json::of_members(m);
    proof {
        let want = tab_state_event(target_tab@, opt_view(*pane_id), tab@)->Object_0[2].value;
        assert(params@->Object_0 =~= want->Object_0);
    }
    event("agent_state_changed", params)
}

/// A tab that waits for its user is told as waiting, whatever its turn does;
/// else a turn in flight as working; else the tab as idle.
pub proof fn law_waiting_comes_first(tab: TabView)
    ensures
        tab.phase() == ActivityPhase::Waiting <==> (tab.permission.len() > 0 || tab.user_input.len()
            > 0),
        tab.phase() == ActivityPhase::Working <==> (tab.permission.len() == 0
            && tab.user_input.len() == 0 && tab.turn.in_flight()),
{
}

// ---------------------------------------------------------------------------
// Projections
// ---------------------------------------------------------------------------

impl AppView {
    /// The pane once the state of a tab was told: nothing is told of a tab that
    /// is not known, and the bar is shown only for the tab in front.
    pub open spec fn tab_projected(self, key: Seq<char>) -> AppView {
        if !self.tabs.contains_key(key) {
            self
        } else {
            let told = self.asking(
                EffectOf::Send(tab_state_event(key, self.ids.pane_id, self.tabs[key])),
            );
            if key == self.active_key() {
                told.asking(EffectOf::SendBar { tab_id: key, bar: self.tabs[key].autofix.bar })
            } else {
                told
            }
        }
    }

    /// The pane once the activities that changed, from the `i`-th tab on, were
    /// told.
    pub open spec fn activities_told(self, i: int) -> AppView
        decreases self.tab_order.len() - i,
    {
        if i < 0 || i >= self.tab_order.len() {
            self
        } else {
            self.activity_told(self.tab_order[i]).activities_told(i + 1)
        }
    }

    /// The pane once the activity of a tab was told, where it changed.
    pub open spec fn activity_told(self, key: Seq<char>) -> AppView {
        let activity = self.tab(key).activity(self.ids.pane_id);
        if self.last_projected_activity.contains_key(key) && self.last_projected_activity[key]
            == activity {
            self
        } else {
            AppView {
                last_projected_activity: self.last_projected_activity.insert(key, activity),
                ..self.asking(
                    EffectOf::Send(tab_state_event(key, self.ids.pane_id, self.tab(key))),
                )
            }
        }
    }

    /// The pane without what was told of tabs that are gone.
    pub open spec fn gone_forgotten(self) -> AppView {
        AppView {
            last_projected_activity: self.last_projected_activity.restrict(self.tabs.dom()),
            ..self
        }
    }

    /// The pane once the activities that changed were told.
    pub open spec fn activities_projected(self) -> AppView {
        self.gone_forgotten().activities_told(0)
    }

    /// The order of the tabs holds every tab once.
    pub open spec fn in_order(self) -> bool {
        &&& self.tab_order.no_duplicates()
        &&& self.tab_order.to_set() == self.tabs.dom()
    }

    /// Whether the activity of a tab is not the one that was last told.
    pub open spec fn activity_changed(self, key: Seq<char>) -> bool {
        !self.last_projected_activity.contains_key(key) || self.last_projected_activity[key]
            != self.tab(key).activity(self.ids.pane_id)
    }

    /// What tells of some tabs, an event for each.
    pub open spec fn tabs_told(self, keys: Seq<Seq<char>>) -> Seq<EffectView> {
        keys.map_values(
            |key: Seq<char>|
                EffectOf::Send(tab_state_event(key, self.ids.pane_id, self.tab(key))),
        )
    }

    /// The tabs whose activity is not the one that was last told.
    pub open spec fn changed_tabs(self) -> Seq<Seq<char>> {
        self.tab_order.filter(|key: Seq<char>| self.activity_changed(key))
    }
}

fn copy_bar(bar: &AutofixBarSnapshot) -> (r: AutofixBarSnapshot)
    ensures
        r@ == bar@,
{
    match bar {
        AutofixBarSnapshot::Idle => AutofixBarSnapshot::Idle,
        AutofixBarSnapshot::Detected { pane_id } => AutofixBarSnapshot::Detected {
            pane_id: pane_id.clone(),
        },
        AutofixBarSnapshot::Pending { pane_id } => AutofixBarSnapshot::Pending {
            pane_id: pane_id.clone(),
        },
        AutofixBarSnapshot::Review { pane_id } => AutofixBarSnapshot::Review {
            pane_id: pane_id.clone(),
        },
    }
}

fn same_activity(a: &ActivityProjection, b: &ActivityProjection) -> (r: bool)
    ensures
        r == (a@ == b@),
{
    let outcomes = match (a.outcome, b.outcome) {
        (Some(x), Some(y)) => x == y,
        (None, None) => true,
        _ => false,
    };
    same_opt(&a.pane_id, &b.pane_id) && a.phase == b.phase && outcomes && a.operation_id
        == b.operation_id && same_opt(&a.summary, &b.summary)
}

impl App {
    /// Tells the terminal the state of a tab.
    pub fn project_tab_state(&mut self, target_tab: &str)
        ensures
            final(self)@ == old(self)@.tab_projected(target_tab@),
    {
        let (told, bar) = match self.tab(target_tab) {
            None => {
                return;
            },
            Some(tab) => (
                build_agent_state_changed_event(target_tab, &self.ids.pane_id, tab),
                copy_bar(&tab.autofix.bar_snapshot),
            ),
        };
        self.ask(EffectOf::Send(told));
        let active = self.active_tab_key();
        if same(target_tab, active.as_str()) {
            self.ask(EffectOf::SendBar { tab_id: target_tab.to_owned(), bar });
        }
    }

    /// Tells the terminal the state of the tab in front.
    pub fn project_active_tab_state(&mut self)
        ensures
            final(self)@ == old(self)@.tab_projected(old(self)@.active_key()),
    {
        let active = self.active_tab_key();
        self.project_tab_state(active.as_str());
    }

    fn forget_gone_activities(&mut self)
        ensures
            final(self)@ == old(self)@.gone_forgotten(),
    {
        let n: usize = self.last_projected_activity.count();
        let ghost all = self.last_projected_activity@;
        let ghost keys = self.last_projected_activity.keys();
        let mut gone: Vec<String> = Vec::new();
        let mut i: usize = 0;
        while i < n
            invariant
                i <= n,
                *self == *old(self),
                n == keys.len(),
                keys == self.last_projected_activity.keys(),
                forall|k: int| 0 <= k < gone@.len() ==> !self@.tabs.contains_key((#[trigger] gone@[k])@),
                forall|k: int|
                    0 <= k < i && !self@.tabs.contains_key(#[trigger] keys[k]) ==> exists|j: int|
                        0 <= j < gone@.len() && (#[trigger] gone@[j])@ == keys[k],
            decreases n - i,
        {
            let key = self.last_projected_activity.key(i);
            if !self.tabs.contains_key(key.as_str()) {
                let ghost had = gone@;
                gone.push(key.clone());
                proof {
                    assert(gone@[gone@.len() - 1]@ == keys[i as int]);
                    assert forall|k: int|
                        0 <= k < i + 1 && !self@.tabs.contains_key(#[trigger] keys[k]) implies exists|
                        j: int,
                    |
                        0 <= j < gone@.len() && (#[trigger] gone@[j])@ == keys[k] by {
                        if k < i {
                            let j = choose|j: int| 0 <= j < had.len() && (#[trigger] had[j])@ == keys[k];
                            assert(gone@[j]@ == keys[k]);
                        }
                    }
                }
            }
            i += 1;
        }
        proof {
            self.last_projected_activity.lemma_keys();
        }
        let mut j: usize = 0;
        while j < gone.len()
            invariant
                j <= gone.len(),
                *self == (App { last_projected_activity: self.last_projected_activity, ..*old(self) }),
                forall|k: Seq<char>| #[trigger]
                    self.last_projected_activity@.contains_key(k) == (all.contains_key(k) && forall|
                        x: int,
                    |
                        0 <= x < j ==> (#[trigger] gone@[x])@ != k),
                forall|k: Seq<char>| #[trigger]
                    self.last_projected_activity@.contains_key(k) ==> self.last_projected_activity@[k]
                        == all[k],
            decreases gone.len() - j,
        {
            self.last_projected_activity.remove(gone[j].as_str());
            j += 1;
        }
        proof {
            let now = self.last_projected_activity@;
            assert forall|k: Seq<char>| #[trigger] now.contains_key(k) == (all.contains_key(k)
                && old(self)@.tabs.contains_key(k)) by {
                if all.contains_key(k) && !old(self)@.tabs.contains_key(k) {
                    assert(keys.contains(k));
                    let i = choose|i: int| 0 <= i < keys.len() && keys[i] == k;
                    assert(!old(self)@.tabs.contains_key(keys[i]));
                }
            }
            assert(activities_view(now) =~= activities_view(all).restrict(old(self)@.tabs.dom()));
        }
    }

    /// Tells the terminal the activities that have changed since they were
    /// last told: an event for each tab whose activity changed, and no other.
    /// What is remembered is then what was told of each tab, and telling again
    /// tells nothing.
    pub fn project_changed_activity_states(&mut self)
        ensures
            final(self)@ == old(self)@.activities_projected(),
            final(self)@.effects == old(self)@.effects + old(self)@.tabs_told(
                old(self)@.changed_tabs(),
            ),
            final(self)@.last_projected_activity.dom() == old(self)@.tabs.dom(),
            final(self)@.activities_projected() == final(self)@,
    {
        proof {
            use_type_invariant(&self.tabs);
            law_a_key_has_one_entry(self.tabs);
            assert(self@.tabs.dom() =~= self.tabs@.dom());
            law_each_changed_activity_is_told_once(self@);
            law_unchanged_activity_is_not_told_again(self@);
        }
        self.forget_gone_activities();
        let ghost start = self@;
        let n: usize = self.tabs.count();
        let mut i: usize = 0;
        while i < n
            invariant
                i <= n,
                n == self@.tab_order.len(),
                start.activities_told(0) == self@.activities_told(i as int),
            decreases n - i,
        {
            let key = self.tabs.key(i).clone();
            let (now, told) = match self.tab(key.as_str()) {
                Some(tab) => (
                    ActivityProjection {
                        pane_id: copy_text(&self.ids.pane_id),
                        phase: phase_of(tab),
                        outcome: tab.activity_outcome,
                        operation_id: operation_of(tab),
                        summary: copy_text(&tab.activity_summary),
                    },
                    build_agent_state_changed_event(key.as_str(), &self.ids.pane_id, tab),
                ),
                None => {
                    return;
                },
            };
            let ghost before = self@;
            let unchanged = match self.last_projected_activity.get(key.as_str()) {
                Some(last) => same_activity(last, &now),
                None => false,
            };
            if !unchanged {
                let ghost had = self.last_projected_activity@;
                self.last_projected_activity.insert(key.clone(), now);
                proof {
                    assert(activities_view(had.insert(key@, now)) =~= activities_view(had).insert(
                        key@,
                        now@,
                    ));
                }
                self.ask(EffectOf::Send(told));
            }
            proof {
                assert(self@ == before.activity_told(key@));
            }
            i += 1;
        }
    }
}

// ---------------------------------------------------------------------------
// The status of the agent
// ---------------------------------------------------------------------------

impl ConnectionState {
    /// The name of the state.
    pub open spec fn name(self) -> Seq<char> {
        match self {
            ConnectionState::Connecting(_) => "connecting"@,
            ConnectionState::Connected => "connected"@,
            ConnectionState::Failed(_) => "failed"@,
            ConnectionState::Disconnected => "disconnected"@,
        }
    }

    /// The name of the state.
    pub fn as_str(&self) -> (r: &'static str)
        ensures
            r@ == self.name(),
    {
        match self {
            ConnectionState::Connecting(_) => "connecting",
            ConnectionState::Connected => "connected",
            ConnectionState::Failed(_) => "failed",
            ConnectionState::Disconnected => "disconnected",
        }
    }
}

impl AgentSource {
    /// The name of where the agent runs.
    pub open spec fn kind_name(self) -> Seq<char> {
        match self {
            AgentSource::Host => "host"@,
            AgentSource::Wsl { .. } => "wsl"@,
        }
    }

    /// The name of where the agent runs.
    pub fn kind(&self) -> (r: &'static str)
        ensures
            r@ == self.kind_name(),
    {
        match self {
            AgentSource::Host => "host",
            AgentSource::Wsl { .. } => "wsl",
        }
    }
}

/// A model as JSON.
pub open spec fn model_json(m: ModelView) -> JsonView {
    JsonView::Object(
        seq![
            entry("id"@, JsonView::Text(m.id)),
            entry("name"@, JsonView::Text(m.name)),
            entry("description"@, opt_text(m.description)),
        ],
    )
}

impl CatalogView {
    /// The name of the model in use.
    pub open spec fn current_display(self) -> Option<Seq<char>> {
        match self.current_model_id {
            Some(id) => Some(display_name(self.available_models, id)),
            None => None,
        }
    }
}

/// The model that is shown: the one in use, or the one the agent named.
pub open spec fn shown_model(agent: AgentView, catalog: CatalogView) -> Option<Seq<char>> {
    match catalog.current_display() {
        Some(name) => Some(name),
        None => agent.model,
    }
}

impl AppView {
    /// The agent that was picked by hand, told once it is connected.
    pub open spec fn selected_to_tell(self) -> Option<Seq<char>> {
        if self.agent.state is Connected {
            self.agent.pending_selection
        } else {
            None
        }
    }

    /// The event that tells the status of the agent.
    #[verifier::opaque]
    pub open spec fn status_event(self) -> JsonView {
        event_view(
            "agent_status"@,
            JsonView::Object(
                seq![
                    entry("agent_id"@, JsonView::Text(self.agent.current_id)),
                    entry("name"@, JsonView::Text(self.agent.name)),
                    entry("version"@, opt_text(self.agent.version)),
                    entry("model"@, opt_text(shown_model(self.agent, self.catalog))),
                    entry("backend"@, opt_text(self.agent.backend_label)),
                    entry("agent_source"@, JsonView::Text(self.agent.source.kind_name())),
                    entry("state"@, JsonView::Text(self.agent.state.name())),
                    entry(
                        "available_models"@,
                        JsonView::List(
                            self.catalog.available_models.map_values(|m: ModelView| model_json(m)),
                        ),
                    ),
                    entry("current_model_id"@, opt_text(self.catalog.current_model_id)),
                    entry("host_catalog_ready"@, JsonView::Bool(self.catalog.host_catalog_ready)),
                ] + optional_entry("selected_agent"@, self.selected_to_tell()) + optional_entry(
                    "tab_id"@,
                    self.ids.owner_tab_id,
                ) + optional_entry("pane_id"@, self.ids.pane_id),
            ),
        )
    }

    /// The pane once the status of the agent was told.
    pub open spec fn status_published(self) -> AppView {
        AppView {
            agent: AgentView {
                pending_selection: if self.agent.state is Connected {
                    None
                } else {
                    self.agent.pending_selection
                },
                ..self.agent
            },
            ..self.asking(EffectOf::Send(self.status_event()))
        }
    }
}

fn models_document(models: &Vec<AcpModelInfo>) -> (r: Json)
    ensures
        r@ == JsonView::List(models_view(models@).map_values(|m: ModelView| model_json(m))),
{
    let ghost all = models_view(models@).map_values(|m: ModelView| model_json(m));
    let mut items: Vec<Json> = Vec::new();
    let mut i: usize = 0;
    proof {
        assert(items_view(items@) =~= all.take(0));
    }
    while i < models.len()
        invariant
            i <= models.len(),
            all == models_view(models@).map_values(|m: ModelView| model_json(m)),
            items_view(items@) == all.take(i as int),
        decreases models.len() - i,
    {
        let mut m = no_members();
        put(&mut m, "id", Json::of_text(models[i].id.as_str()));
        put(&mut m, "name", Json::of_text(models[i].name.as_str()));
        put(&mut m, "description", Json::of_opt_text(&models[i].description));
        let one = Json::of_members(m);
        let ghost had = items@;
        proof {
            assert(one@->Object_0 =~= model_json(models@[i as int]@)->Object_0);
            assert(one@ == all[i as int]);
        }
        items.push(one);
        proof {
            assert(items_view(items@) =~= items_view(had).push(all[i as int]));
            assert(all.take(i + 1) =~= all.take(i as int).push(all[i as int]));
        }
        i += 1;
    }
    proof {
        assert(all.take(all.len() as int) =~= all);
    }
    Json::of_items(items)
}

fn put_optional(m: &mut Vec<crate::json::Member>, key: &str, value: &Option<String>)
    ensures
        members_view(final(m)@) == members_view(old(m)@) + optional_entry(key@, opt_view(*value)),
{
    match value {
        Some(s) => {
            put(m, key, Json::of_text(s.as_str()));
            proof {
                assert(members_view(m@) =~= members_view(old(m)@) + optional_entry(
                    key@,
                    opt_view(*value),
                ));
            }
        },
        None => {
            proof {
                assert(members_view(m@) =~= members_view(old(m)@) + optional_entry(
                    key@,
                    opt_view(*value),
                ));
            }
        },
    }
}

impl App {
    fn status_document(&self, selected: &Option<String>) -> (r: Json)
        requires
            opt_view(*selected) == self@.selected_to_tell(),
        ensures
            r@ == self@.status_event(),
    {
        let model = match &self.catalog.current_model_id {
            Some(id) => Some(display_name_of(&self.catalog.available_models, id.as_str())),
            None => copy_text(&self.agent.model),
        };
        proof {
            reveal(AppView::status_event);
        }
        let mut m = no_members();
        put(&mut m, "agent_id", Json::of_text(self.agent.current_id.as_str()));
        put(&mut m, "name", Json::of_text(self.agent.name.as_str()));
        put(&mut m, "version", Json::of_opt_text(&self.agent.version));
        put(&mut m, "model", Json::of_opt_text(&model));
        put(&mut m, "backend", Json::of_opt_text(&self.agent.backend_label));
        put(&mut m, "agent_source", Json::of_text(self.agent.source.kind()));
        put(&mut m, "state", Json::of_text(self.agent.state.as_str()));
        put(&mut m, "available_models", models_document(&self.catalog.available_models));
        put(&mut m, "current_model_id", Json::of_opt_text(&self.catalog.current_model_id));
        put(&mut m, "host_catalog_ready", Json::Bool(self.catalog.host_catalog_ready));
        proof {
            let want = self@.status_event()->Object_0[2].value->Object_0;
            assert(members_view(m@) =~= want.take(10));
        }
        let ghost fixed = members_view(m@);
        put_optional(&mut m, "selected_agent", selected);
        put_optional(&mut m, "tab_id", &self.ids.owner_tab_id);
        put_optional(&mut m, "pane_id", &self.ids.pane_id);
        let params = Json::of_members(m);
        proof {
            let want = self@.status_event()->Object_0[2].value->Object_0;
            assert(params@->Object_0 =~= want);
        }
        event("agent_status", params)
    }

    /// Tells the terminal the status of the agent. An agent that was picked by
    /// hand is named once, when it is connected.
    pub fn publish_agent_status(&mut self)
        ensures
            final(self)@ == old(self)@.status_published(),
    {
        let connected = match &self.agent.state {
            ConnectionState::Connected => true,
            _ => false,
        };
        let selected = if connected {
            copy_text(&self.agent.pending_selection)
        } else {
            None
        };
        let told = self.status_document(&selected);
        if connected {
            self.agent.pending_selection = None;
        }
        self.ask(EffectOf::Send(told));
    }
}

// ---------------------------------------------------------------------------
// Laws
// ---------------------------------------------------------------------------

/// Telling the state of a tab changes nothing of the pane but what it asks of
/// the world, and asks the same again when it is told again.
pub proof fn law_projection_is_idempotent(app: AppView, key: Seq<char>)
    ensures
        app.tab_projected(key).tabs == app.tabs,
        (AppView { effects: app.effects, ..app.tab_projected(key) }) == app,
        app.tab_projected(key).tab_projected(key).effects.skip(app.tab_projected(key).effects.len() as int)
            == app.tab_projected(key).effects.skip(app.effects.len() as int),
{
    let once = app.tab_projected(key);
    let twice = once.tab_projected(key);
    assert(twice.effects.skip(once.effects.len() as int) =~= once.effects.skip(
        app.effects.len() as int,
    ));
}

/// The bar is shown for the tab in front and for no other.
pub proof fn law_bar_follows_the_active_tab(app: AppView, key: Seq<char>)
    requires
        key != app.active_key(),
    ensures
        app.tab_projected(key).effects.len() <= app.effects.len() + 1,
        forall|i: int|
            app.effects.len() <= i < app.tab_projected(key).effects.len() ==> !(
            #[trigger] app.tab_projected(key).effects[i] is SendBar),
{
}

/// The status that follows one that named a picked agent names none.
pub proof fn law_selection_is_told_once(app: AppView)
    requires
        app.agent.state is Connected,
    ensures
        app.status_published().selected_to_tell() is None,
{
}

proof fn lemma_told_keeps_tabs(app: AppView, i: int)
    ensures
        app.activities_told(i).tabs == app.tabs,
        app.activities_told(i).tab_order == app.tab_order,
        app.activities_told(i).ids == app.ids,
    decreases app.tab_order.len() - i,
{
    if 0 <= i < app.tab_order.len() {
        lemma_told_keeps_tabs(app.activity_told(app.tab_order[i]), i + 1);
    }
}

/// The activity of a key was already told.
spec fn is_told(app: AppView, key: Seq<char>) -> bool {
    !app.activity_changed(key)
}

proof fn lemma_told_stays_told(app: AppView, i: int, key: Seq<char>)
    requires
        is_told(app, key),
    ensures
        is_told(app.activities_told(i), key),
    decreases app.tab_order.len() - i,
{
    if 0 <= i < app.tab_order.len() {
        lemma_told_stays_told(app.activity_told(app.tab_order[i]), i + 1, key);
    }
}

proof fn lemma_all_told(app: AppView, i: int)
    requires
        0 <= i,
    ensures
        forall|k: int|
            i <= k < app.tab_order.len() ==> is_told(
                app.activities_told(i),
                #[trigger] app.tab_order[k],
            ),
    decreases app.tab_order.len() - i,
{
    if i < app.tab_order.len() {
        let next = app.activity_told(app.tab_order[i]);
        lemma_told_stays_told(next, i + 1, app.tab_order[i]);
        lemma_all_told(next, i + 1);
        assert(next.tab_order == app.tab_order);
        assert forall|k: int| i <= k < app.tab_order.len() implies is_told(
            app.activities_told(i),
            #[trigger] app.tab_order[k],
        ) by {
            if k > i {
                assert(is_told(next.activities_told(i + 1), next.tab_order[k]));
            }
        }
    }
}

proof fn lemma_nothing_to_tell(app: AppView, i: int)
    requires
        0 <= i,
        forall|k: int| i <= k < app.tab_order.len() ==> is_told(app, #[trigger] app.tab_order[k]),
    ensures
        app.activities_told(i) == app,
    decreases app.tab_order.len() - i,
{
    if i < app.tab_order.len() {
        assert(is_told(app, app.tab_order[i]));
        assert(app.activity_told(app.tab_order[i]) == app);
        lemma_nothing_to_tell(app, i + 1);
    }
}

/// What is remembered from the `i`-th tab on.
proof fn lemma_told_is_remembered(app: AppView, i: int)
    requires
        0 <= i <= app.tab_order.len(),
    ensures
        app.activities_told(i).last_projected_activity.dom() == app.last_projected_activity.dom()
            + app.tab_order.skip(i).to_set(),
    decreases app.tab_order.len() - i,
{
    let order = app.tab_order;
    if i < order.len() {
        let next = app.activity_told(order[i]);
        lemma_told_is_remembered(next, i + 1);
        assert(order.skip(i) =~= seq![order[i]] + order.skip(i + 1));
        assert forall|k: Seq<char>| order.skip(i).to_set().contains(k) == (k == order[i]
            || order.skip(i + 1).to_set().contains(k)) by {
            let rest = order.skip(i + 1);
            if rest.contains(k) {
                let j = choose|j: int| 0 <= j < rest.len() && rest[j] == k;
                assert(order.skip(i)[j + 1] == k);
            }
            if k == order[i] {
                assert(order.skip(i)[0] == k);
            }
            if order.skip(i).contains(k) && k != order[i] {
                let j = choose|j: int| 0 <= j < order.skip(i).len() && order.skip(i)[j] == k;
                assert(rest[j - 1] == k);
            }
        }
        assert(app.activities_told(i).last_projected_activity.dom()
            =~= app.last_projected_activity.dom() + order.skip(i).to_set());
    } else {
        assert(order.skip(i) =~= Seq::<Seq<char>>::empty());
        assert(app.last_projected_activity.dom() + order.skip(i).to_set()
            =~= app.last_projected_activity.dom());
    }
}

/// What is told from the `i`-th tab on.
proof fn lemma_told_effects(app: AppView, i: int, changed: spec_fn(Seq<char>) -> bool)
    requires
        0 <= i <= app.tab_order.len(),
        app.tab_order.no_duplicates(),
        forall|k: int|
            i <= k < app.tab_order.len() ==> changed(#[trigger] app.tab_order[k])
                == app.activity_changed(app.tab_order[k]),
    ensures
        app.activities_told(i).effects == app.effects + app.tabs_told(
            app.tab_order.skip(i).filter(changed),
        ),
    decreases app.tab_order.len() - i,
{
    let order = app.tab_order;
    reveal_with_fuel(Seq::filter, 2);
    if i < order.len() {
        let key = order[i];
        let next = app.activity_told(key);
        assert forall|k: int| i + 1 <= k < next.tab_order.len() implies changed(
            #[trigger] next.tab_order[k],
        ) == next.activity_changed(next.tab_order[k]) by {
            assert(order[k] != key);
        }
        lemma_told_effects(next, i + 1, changed);
        let first = seq![key];
        let rest = order.skip(i + 1);
        assert(order.skip(i) =~= first + rest);
        Seq::filter_distributes_over_add(first, rest, changed);
        assert(first.drop_last() =~= Seq::<Seq<char>>::empty());
        assert(first.filter(changed) =~= if changed(key) {
            first
        } else {
            Seq::<Seq<char>>::empty()
        });
        assert(next.tabs_told(rest.filter(changed)) =~= app.tabs_told(rest.filter(changed)));
        assert(app.activities_told(i).effects =~= app.effects + app.tabs_told(
            order.skip(i).filter(changed),
        ));
    } else {
        assert(order.skip(i) =~= Seq::<Seq<char>>::empty());
        assert(app.effects + app.tabs_told(order.skip(i).filter(changed)) =~= app.effects);
    }
}

/// Every activity that changed is told by one event, in the order of the tabs,
/// and nothing else is; what is remembered is then of the tabs there are, and
/// of each what it is at.
pub proof fn law_each_changed_activity_is_told_once(app: AppView)
    requires
        app.in_order(),
    ensures
        app.activities_projected().effects == app.effects + app.tabs_told(app.changed_tabs()),
        app.activities_projected().last_projected_activity.dom() == app.tabs.dom(),
        forall|key: Seq<char>|
            app.tabs.contains_key(key) ==> !#[trigger] app.activities_projected().activity_changed(
                key,
            ),
        app.activities_projected().tabs == app.tabs,
        app.activities_projected().tab_order == app.tab_order,
{
    let start = app.gone_forgotten();
    let order = app.tab_order;
    let changed = |key: Seq<char>| app.activity_changed(key);
    assert forall|k: int| 0 <= k < order.len() implies changed(#[trigger] order[k])
        == start.activity_changed(order[k]) by {
        assert(order.to_set().contains(order[k]));
    }
    lemma_told_effects(start, 0, changed);
    lemma_told_is_remembered(start, 0);
    lemma_told_keeps_tabs(start, 0);
    lemma_all_told(start, 0);
    assert(order.skip(0) =~= order);
    assert(start.tabs_told(app.changed_tabs()) =~= app.tabs_told(app.changed_tabs()));
    assert(start.last_projected_activity.dom() + order.to_set() =~= app.tabs.dom());
    assert forall|key: Seq<char>| app.tabs.contains_key(key) implies !#[trigger]
        app.activities_projected().activity_changed(key) by {
        assert(order.to_set().contains(key));
        let k = choose|k: int| 0 <= k < order.len() && order[k] == key;
        assert(is_told(start.activities_told(0), order[k]));
    }
}

/// What was told and has not changed is not told again.
pub proof fn law_unchanged_activity_is_not_told_again(app: AppView)
    requires
        app.in_order(),
    ensures
        app.activities_projected().activities_projected() == app.activities_projected(),
{
    let once = app.activities_projected();
    law_each_changed_activity_is_told_once(app);
    assert(once.gone_forgotten().last_projected_activity =~= once.last_projected_activity);
    assert(once.gone_forgotten() =~= once);
    assert forall|k: int| 0 <= k < once.tab_order.len() implies is_told(
        once,
        #[trigger] once.tab_order[k],
    ) by {
        assert(once.tab_order.to_set().contains(once.tab_order[k]));
        assert(app.tabs.contains_key(once.tab_order[k]));
    }
    lemma_nothing_to_tell(once, 0);
}

proof fn lemma_tab_members()
    ensures
        "tab_id"@.len() == 6 && "tab_id"@[0] == 't',
        "view"@.len() == 4,
        "pane_open"@.len() == 9,
        "pane_position"@.len() == 13,
        "usage"@.len() == 5,
        "activity"@.len() == 8,
        "pane_id"@.len() == 7,
        "phase"@.len() == 5,
        "outcome"@.len() == 7 && "outcome"@[0] == 'o',
        "operation_id"@.len() == 12,
        "summary"@.len() == 7 && "summary"@[0] == 's',
        "params"@.len() == 6 && "params"@[0] == 'p',
{
    reveal_strlit("tab_id");
    reveal_strlit("view");
    reveal_strlit("pane_open");
    reveal_strlit("pane_position");
    reveal_strlit("usage");
    reveal_strlit("activity");
    reveal_strlit("pane_id");
    reveal_strlit("phase");
    reveal_strlit("outcome");
    reveal_strlit("operation_id");
    reveal_strlit("summary");
    reveal_strlit("params");
}

/// What the terminal is told of a tab is what the tab is: which it is, what it shows,
/// whether it is open and where, and what it used.
#[verifier::rlimit(40)]
pub proof fn law_the_terminal_is_told_what_a_tab_is(
    target_tab: Seq<char>,
    pane_id: Option<Seq<char>>,
    tab: TabView,
)
    ensures
        ({
            let told = tab_state_event(target_tab, pane_id, tab);
            let params = told.member("params"@)->0;
            &&& told.text_member("type"@) == Some("event"@)
            &&& told.text_member("method"@) == Some("agent_state_changed"@)
            &&& told.member("params"@) is Some
            &&& params.text_member("tab_id"@) == Some(target_tab)
            &&& params.text_member("pane_id"@) == pane_id
            &&& tab.current_view is Agents ==> params.text_member("view"@) == Some("sessions"@)
            &&& tab.current_view is Chat ==> params.text_member("view"@) == Some("chat"@)
            &&& params.bool_member("pane_open"@) == Some(tab.pane_open)
            &&& tab.agent_pane_position is None ==> params.member("pane_position"@) == Some(
                JsonView::Null,
            )
            &&& tab.agent_pane_position is Some ==> params.text_member("pane_position"@) == Some(
                tab.agent_pane_position->0.name(),
            )
            &&& tab.usage is None ==> params.member("usage"@) == Some(JsonView::Null)
            &&& params.member("activity"@) == Some(activity_json(tab))
        }),
{
    reveal(tab_state_event);
    lemma_tab_members();
    let told = tab_state_event(target_tab, pane_id, tab);
    let params = told->Object_0[2].value;
    law_an_event_says_its_method("agent_state_changed"@, params);
    let v = params->Object_0;
    law_a_member_is_read_by_its_name(v, "tab_id"@, 0);
    law_a_member_is_read_by_its_name(v, "view"@, 1);
    law_a_member_is_read_by_its_name(v, "pane_open"@, 2);
    law_a_member_is_read_by_its_name(v, "pane_position"@, 3);
    law_a_member_is_read_by_its_name(v, "usage"@, 4);
    law_a_member_is_read_by_its_name(v, "activity"@, 5);
    law_a_member_is_read_by_its_name(v, "pane_id"@, 6);
}

/// What is told of a tab's work is what it does: whether it waits for its user, works
/// or rests, at what, and how the last of it ended.
pub proof fn law_the_terminal_is_told_what_a_tab_does(tab: TabView)
    ensures
        ({
            let told = activity_json(tab);
            let waits = tab.permission.len() > 0 || tab.user_input.len() > 0;
            let works = tab.turn is Submitted || tab.turn is Streaming;
            &&& waits ==> told.text_member("phase"@) == Some("waiting"@)
            &&& !waits && works ==> told.text_member("phase"@) == Some("working"@)
            &&& !waits && !works ==> told.text_member("phase"@) == Some("idle"@)
            &&& tab.activity_outcome is None ==> told.member("outcome"@) == Some(JsonView::Null)
            &&& tab.activity_outcome == Some(AgentActivityOutcome::Succeeded) ==> told.text_member(
                "outcome"@,
            ) == Some("succeeded"@)
            &&& tab.activity_outcome == Some(AgentActivityOutcome::Failed) ==> told.text_member(
                "outcome"@,
            ) == Some("failed"@)
            &&& tab.activity_outcome == Some(AgentActivityOutcome::Cancelled) ==> told.text_member(
                "outcome"@,
            ) == Some("cancelled"@)
            &&& told.member("operation_id"@) == Some(
                JsonView::Number(
                    decimal(
                        match tab.turn {
                            TurnState::Idle => tab.activity_operation_id,
                            TurnState::Submitted(p) => p.id,
                            TurnState::Streaming(p) => p.id,
                            TurnState::Surfaced(p) => p.id,
                        } as nat,
                    ),
                ),
            )
            &&& told.text_member("summary"@) == tab.activity_summary
        }),
{
    lemma_tab_members();
    let v = activity_json(tab)->Object_0;
    law_a_member_is_read_by_its_name(v, "phase"@, 0);
    law_a_member_is_read_by_its_name(v, "outcome"@, 1);
    law_a_member_is_read_by_its_name(v, "operation_id"@, 2);
    law_a_member_is_read_by_its_name(v, "summary"@, 3);
}

proof fn lemma_agent_members()
    ensures
        "agent_id"@.len() == 8,
        "name"@.len() == 4,
        "version"@.len() == 7 && "version"@[0] == 'v',
        "model"@.len() == 5 && "model"@[0] == 'm',
        "backend"@.len() == 7 && "backend"@[0] == 'b',
        "agent_source"@.len() == 12,
        "state"@.len() == 5 && "state"@[0] == 's',
        "available_models"@.len() == 16 && "available_models"@[0] == 'a',
        "current_model_id"@.len() == 16 && "current_model_id"@[0] == 'c',
        "host_catalog_ready"@.len() == 18,
        "selected_agent"@.len() == 14,
        "tab_id"@.len() == 6,
        "pane_id"@.len() == 7 && "pane_id"@[0] == 'p',
{
    reveal_strlit("agent_id");
    reveal_strlit("name");
    reveal_strlit("version");
    reveal_strlit("model");
    reveal_strlit("backend");
    reveal_strlit("agent_source");
    reveal_strlit("state");
    reveal_strlit("available_models");
    reveal_strlit("current_model_id");
    reveal_strlit("host_catalog_ready");
    reveal_strlit("selected_agent");
    reveal_strlit("tab_id");
    reveal_strlit("pane_id");
}

/// What the terminal is told of the agent is what is known of it.
#[verifier::rlimit(40)]
pub proof fn law_the_terminal_is_told_who_the_agent_is(app: AppView)
    ensures
        ({
            let told = app.status_event();
            let params = told.member("params"@)->0;
            &&& told.text_member("method"@) == Some("agent_status"@)
            &&& told.member("params"@) is Some
            &&& params.text_member("agent_id"@) == Some(app.agent.current_id)
            &&& params.text_member("name"@) == Some(app.agent.name)
            &&& params.text_member("version"@) == app.agent.version
            &&& params.text_member("backend"@) == app.agent.backend_label
            &&& app.catalog.current_model_id is None ==> params.text_member("model"@)
                == app.agent.model
            &&& app.agent.source is Host ==> params.text_member("agent_source"@) == Some("host"@)
            &&& app.agent.source is Wsl ==> params.text_member("agent_source"@) == Some("wsl"@)
            &&& app.agent.state is Connected ==> params.text_member("state"@) == Some("connected"@)
            &&& app.agent.state is Connecting ==> params.text_member("state"@) == Some(
                "connecting"@,
            )
            &&& app.agent.state is Failed ==> params.text_member("state"@) == Some("failed"@)
            &&& app.agent.state is Disconnected ==> params.text_member("state"@) == Some(
                "disconnected"@,
            )
            &&& params.text_member("current_model_id"@) == app.catalog.current_model_id
            &&& params.bool_member("host_catalog_ready"@) == Some(app.catalog.host_catalog_ready)
        }),
{
    reveal(AppView::status_event);
    lemma_agent_members();
    let told = app.status_event();
    let params = told->Object_0[2].value;
    law_an_event_says_its_method("agent_status"@, params);
    let v = params->Object_0;
    law_a_member_is_read_by_its_name(v, "agent_id"@, 0);
    law_a_member_is_read_by_its_name(v, "name"@, 1);
    law_a_member_is_read_by_its_name(v, "version"@, 2);
    law_a_member_is_read_by_its_name(v, "model"@, 3);
    law_a_member_is_read_by_its_name(v, "backend"@, 4);
    law_a_member_is_read_by_its_name(v, "agent_source"@, 5);
    law_a_member_is_read_by_its_name(v, "state"@, 6);
    law_a_member_is_read_by_its_name(v, "current_model_id"@, 8);
    law_a_member_is_read_by_its_name(v, "host_catalog_ready"@, 9);
}

/// Every model that can be picked is told, by its id and its name, in its place.
#[verifier::rlimit(40)]
pub proof fn law_every_model_is_told(app: AppView, i: int)
    requires
        0 <= i < app.catalog.available_models.len(),
    ensures
        ({
            let params = app.status_event().member("params"@)->0;
            let list = params.list_member("available_models"@);
            let m = app.catalog.available_models[i];
            &&& list is Some
            &&& list->0.len() == app.catalog.available_models.len()
            &&& list->0[i].text_member("id"@) == Some(m.id)
            &&& list->0[i].text_member("name"@) == Some(m.name)
            &&& list->0[i].text_member("description"@) == m.description
        }),
{
    reveal(AppView::status_event);
    lemma_agent_members();
    let told = app.status_event();
    let params = told->Object_0[2].value;
    law_an_event_says_its_method("agent_status"@, params);
    law_a_member_is_read_by_its_name(params->Object_0, "available_models"@, 7);
    let m = app.catalog.available_models[i];
    let v = model_json(m)->Object_0;
    reveal_strlit("id");
    reveal_strlit("description");
    assert("id"@.len() == 2 && "description"@.len() == 11);
    law_a_member_is_read_by_its_name(v, "id"@, 0);
    law_a_member_is_read_by_its_name(v, "name"@, 1);
    law_a_member_is_read_by_its_name(v, "description"@, 2);
}

/// Which agent was picked is told with the status, and to which tab it belongs.
#[verifier::rlimit(40)]
pub proof fn law_the_picked_agent_is_told(app: AppView)
    ensures
        ({
            let params = app.status_event().member("params"@)->0;
            &&& app.agent.state is Connected ==> params.text_member("selected_agent"@)
                == app.agent.pending_selection
            &&& !(app.agent.state is Connected) ==> params.text_member("selected_agent"@) is None
            &&& params.text_member("tab_id"@) == app.ids.owner_tab_id
            &&& params.text_member("pane_id"@) == app.ids.pane_id
        }),
{
    reveal(AppView::status_event);
    lemma_agent_members();
    let told = app.status_event();
    let params = told->Object_0[2].value;
    law_an_event_says_its_method("agent_status"@, params);
    let v = params->Object_0;
    let picked: int = if app.selected_to_tell() is Some { 1 } else { 0 };
    let owned: int = if app.ids.owner_tab_id is Some { 1 } else { 0 };
    law_a_member_is_read_by_its_name(v, "selected_agent"@, 10);
    law_a_member_is_read_by_its_name(v, "tab_id"@, 10 + picked);
    law_a_member_is_read_by_its_name(v, "pane_id"@, 10 + picked + owned);
}

/// What was used is told number by number, as it is shown.
pub proof fn law_usage_is_told_number_by_number(item: UsageItemView)
    ensures
        ({
            let told = usage_item_json(item);
            &&& told.text_member("metric_id"@) == Some(item.metric_id)
            &&& told.text_member("value_decimal_text"@) == Some(item.value)
            &&& told.text_member("limit_decimal_text"@) == item.limit
            &&& told.text_member("unit_id"@) == Some(item.unit_id)
            &&& told.text_member("scope"@) == Some(item.scope)
            &&& told.text_member("source"@) == Some(item.source)
            &&& told.bool_member("stale"@) == Some(item.stale)
        }),
{
    reveal_strlit("metric_id");
    reveal_strlit("value_decimal_text");
    reveal_strlit("limit_decimal_text");
    reveal_strlit("unit_id");
    reveal_strlit("scope");
    reveal_strlit("source");
    reveal_strlit("stale");
    assert("metric_id"@.len() == 9 && "unit_id"@.len() == 7 && "source"@.len() == 6);
    assert("value_decimal_text"@.len() == 18 && "value_decimal_text"@[0] == 'v');
    assert("limit_decimal_text"@.len() == 18 && "limit_decimal_text"@[0] == 'l');
    assert("scope"@.len() == 5 && "scope"@[1] == 'c');
    assert("stale"@.len() == 5 && "stale"@[1] == 't');
    let v = usage_item_json(item)->Object_0;
    let k: int = if item.limit is Some { 1 } else { 0 };
    law_a_member_is_read_by_its_name(v, "metric_id"@, 0);
    law_a_member_is_read_by_its_name(v, "value_decimal_text"@, 1);
    law_a_member_is_read_by_its_name(v, "limit_decimal_text"@, 2);
    law_a_member_is_read_by_its_name(v, "unit_id"@, 2 + k);
    law_a_member_is_read_by_its_name(v, "scope"@, 3 + k);
    law_a_member_is_read_by_its_name(v, "source"@, 4 + k);
    law_a_member_is_read_by_its_name(v, "stale"@, 5 + k);
}

} // verus!
