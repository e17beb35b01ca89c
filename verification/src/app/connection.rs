//! The connection to the agent, its sessions and their settings.

use vstd::prelude::*;
use vstd::string::*;

use crate::app::effect::EffectOf;
use crate::app::state::{
    configs_view, option_lists_view, options_view, texts_view, AcpSessionConfigOption,
    AcpSessionConfigValue, AgentView, App, AppMode, AppView, CatalogView, ConfigOptionView,
    ConnectionState, IdsView, ModelCatalog, ModelConfig, ModelConfigView, ScreenView, SessionMaps,
    SessionsView, SetupFlow,
};
use crate::keyed::Keyed;
use crate::models::{
    copy_models, customs_view, display_name, display_name_of, hosted, hosted_models, merge_models,
    merged_models, models_view, normalize_catalog, normalize_selection, pickable, pickable_models,
    tidy_catalog, tidy_selection, AcpModelInfo, CustomModelCatalogEntry, CustomModelView, ModelView,
};
use crate::phrases::{Phrase, PhraseOf};
use crate::tab::{ConfigPicker, TabSession, TabView};
use crate::tab_actions::next_generation;
use crate::text::{holds_text, opt_view, same};
use crate::transcript::{copy_text, ChatMessage, ChatMessageView, NoticeKind};
use crate::usage::UsageSnapshot;

verus! {

// ---------------------------------------------------------------------------
// The models
// ---------------------------------------------------------------------------

impl CatalogView {
    /// The catalog worked out anew from where its models come from.
    #[verifier::opaque]
    pub open spec fn rebuilt(self) -> CatalogView {
        let all = hosted_models(self.cloud_models, self.agent_models);
        CatalogView {
            available_models: merged_models(all, self.custom_models),
            picker_models: pickable_models(all, self.custom_models, self.custom_selection),
            current_model_id: match self.custom_selection {
                Some(id) => Some(id),
                None => self.agent_current_model_id,
            },
            ..self
        }
    }

    /// The catalog with the agent's models.
    pub open spec fn with_agent(self, config: ModelConfigView) -> CatalogView {
        CatalogView {
            agent_models: config.models,
            agent_current_model_id: config.current,
            ..self
        }.rebuilt()
    }

    /// The catalog with another model of the agent in use.
    pub open spec fn with_agent_model(self, id: Seq<char>) -> CatalogView {
        CatalogView { agent_current_model_id: Some(id), ..self }.rebuilt()
    }

    /// The catalog with the models of the cloud.
    pub open spec fn with_cloud(self, models: Seq<ModelView>) -> CatalogView {
        CatalogView { cloud_models: models, ..self }.rebuilt()
    }

    /// The catalog with the models of the user's own.
    pub open spec fn with_custom(
        self,
        models: Seq<CustomModelView>,
        selection: Option<Seq<char>>,
    ) -> CatalogView {
        CatalogView {
            custom_models: tidy_catalog(models),
            custom_selection: tidy_selection(selection),
            ..self
        }.rebuilt()
    }
}

impl ModelCatalog {
    /// Works the catalog out anew from where its models come from.
    pub fn rebuild(&mut self)
        ensures
            final(self)@ == old(self)@.rebuilt(),
    {
        proof {
            reveal(CatalogView::rebuilt);
        }
        let all = hosted(&self.cloud_models, &self.agent_models);
        self.available_models = merge_models(&all, &self.custom_models);
        self.picker_models = pickable(&all, &self.custom_models, &self.custom_selection);
        self.current_model_id = match &self.custom_selection {
            Some(id) => Some(id.clone()),
            None => copy_text(&self.agent_current_model_id),
        };
    }

    /// Takes over the models of the agent.
    pub fn set_agent(&mut self, config: ModelConfig)
        ensures
            final(self)@ == old(self)@.with_agent(config@),
    {
        self.agent_models = config.models;
        self.agent_current_model_id = config.current;
        self.rebuild();
    }

    /// Another model of the agent is in use.
    pub fn set_agent_model(&mut self, id: String)
        ensures
            final(self)@ == old(self)@.with_agent_model(id@),
    {
        self.agent_current_model_id = Some(id);
        self.rebuild();
    }

    /// Takes over the models of the cloud.
    pub fn set_cloud_models(&mut self, models: Vec<AcpModelInfo>)
        ensures
            final(self)@ == old(self)@.with_cloud(models_view(models@)),
    {
        self.cloud_models = models;
        self.rebuild();
    }

    /// Takes over the models of the user's own.
    pub fn set_custom_models(
        &mut self,
        models: Vec<CustomModelCatalogEntry>,
        selection: Option<String>,
    )
        ensures
            final(self)@ == old(self)@.with_custom(customs_view(models@), opt_view(selection)),
    {
        self.custom_models = normalize_catalog(models);
        self.custom_selection = normalize_selection(selection);
        self.rebuild();
    }
}

// ---------------------------------------------------------------------------
// The sessions
// ---------------------------------------------------------------------------

impl SessionsView {
    /// What is known of a session's models: what was known before counts.
    pub open spec fn model_config_or(
        self,
        session_id: Seq<char>,
        given: ModelConfigView,
    ) -> ModelConfigView {
        if self.model_configs.contains_key(session_id) {
            self.model_configs[session_id]
        } else {
            given
        }
    }

    /// The sessions with a session's models known.
    pub open spec fn with_model_config(
        self,
        session_id: Seq<char>,
        config: ModelConfigView,
    ) -> SessionsView {
        SessionsView { model_configs: self.model_configs.insert(session_id, config), ..self }
    }

    /// The sessions with another model in use, where the session's models are
    /// known.
    pub open spec fn with_model(self, session_id: Seq<char>, model: Seq<char>) -> SessionsView {
        if self.model_configs.contains_key(session_id) {
            self.with_model_config(
                session_id,
                ModelConfigView { current: Some(model), ..self.model_configs[session_id] },
            )
        } else {
            self
        }
    }

    /// The sessions with a session bound to a tab.
    pub open spec fn bound(self, session_id: Seq<char>, tab_id: Seq<char>) -> SessionsView {
        SessionsView { session_to_tab: self.session_to_tab.insert(session_id, tab_id), ..self }
    }

    /// Whether another session was bound to the tab.
    pub open spec fn is_replaced(self, known: Seq<char>, session_id: Seq<char>, tab_id: Seq<char>) -> bool {
        self.session_to_tab.contains_key(known) && self.session_to_tab[known] == tab_id && known
            != session_id
    }

    /// The sessions without those that a tab had before it got this one.
    pub open spec fn without_replaced(self, session_id: Seq<char>, tab_id: Seq<char>) -> SessionsView {
        let gone = Set::new(|k: Seq<char>| self.is_replaced(k, session_id, tab_id));
        SessionsView {
            session_to_tab: self.session_to_tab.remove_keys(gone),
            model_configs: self.model_configs.remove_keys(gone),
            config_options: self.config_options.remove_keys(gone),
        }
    }
}

/// Whether a key is one of the first `n` texts.
spec fn among(v: Seq<String>, n: int, k: Seq<char>) -> bool {
    exists|x: int| 0 <= x < n && (#[trigger] v[x])@ == k
}

fn remove_all<V>(map: &mut Keyed<V>, gone: &Vec<String>)
    ensures
        forall|k: Seq<char>| #[trigger]
            final(map)@.contains_key(k) == (old(map)@.contains_key(k) && !among(
                gone@,
                gone@.len() as int,
                k,
            )),
        forall|k: Seq<char>| #[trigger]
            final(map)@.contains_key(k) ==> final(map)@[k] == old(map)@[k],
{
    let ghost before = map@;
    let mut i: usize = 0;
    while i < gone.len()
        invariant
            i <= gone.len(),
            forall|k: Seq<char>| #[trigger]
                map@.contains_key(k) == (before.contains_key(k) && !among(gone@, i as int, k)),
            forall|k: Seq<char>| #[trigger] map@.contains_key(k) ==> map@[k] == before[k],
        decreases gone.len() - i,
    {
        let ghost had = map@;
        map.remove(gone[i].as_str());
        proof {
            assert forall|k: Seq<char>| #[trigger] map@.contains_key(k) == (before.contains_key(k)
                && !among(gone@, i + 1, k)) by {
                if among(gone@, i as int, k) {
                    let x = choose|x: int| 0 <= x < i && (#[trigger] gone@[x])@ == k;
                    assert(gone@[x]@ == k);
                    assert(among(gone@, i + 1, k));
                }
                if k == gone@[i as int]@ {
                    assert(among(gone@, i + 1, k));
                }
                if among(gone@, i + 1, k) && k != gone@[i as int]@ {
                    let x = choose|x: int| 0 <= x < i + 1 && (#[trigger] gone@[x])@ == k;
                    assert(among(gone@, i as int, k));
                }
                assert(map@.contains_key(k) == (had.contains_key(k) && k != gone@[i as int]@));
            }
        }
        i += 1;
    }
}

impl SessionMaps {
    fn replaced_sessions(&self, session_id: &str, tab_id: &str) -> (r: Vec<String>)
        ensures
            forall|k: Seq<char>| #[trigger]
                among(r@, r@.len() as int, k) == self@.is_replaced(k, session_id@, tab_id@),
    {
        let mut out: Vec<String> = Vec::new();
        let n: usize = self.session_to_tab.count();
        let ghost keys = self.session_to_tab.keys();
        let mut i: usize = 0;
        while i < n
            invariant
                i <= n,
                n == keys.len(),
                keys == self.session_to_tab.keys(),
                forall|x: int|
                    0 <= x < out@.len() ==> self@.is_replaced(
                        (#[trigger] out@[x])@,
                        session_id@,
                        tab_id@,
                    ),
                forall|x: int|
                    0 <= x < i && self@.is_replaced(#[trigger] keys[x], session_id@, tab_id@)
                        ==> among(out@, out@.len() as int, keys[x]),
            decreases n - i,
        {
            let key = self.session_to_tab.key(i);
            let ghost had = out@;
            if let Some(tab) = self.session_to_tab.get(key.as_str()) {
                if same(tab.as_str(), tab_id) && !same(key.as_str(), session_id) {
                    out.push(key.clone());
                    proof {
                        assert(out@[had.len() as int]@ == keys[i as int]);
                    }
                }
            }
            proof {
                assert forall|x: int|
                    0 <= x < i + 1 && self@.is_replaced(#[trigger] keys[x], session_id@, tab_id@) implies among(
                    out@,
                    out@.len() as int,
                    keys[x],
                ) by {
                    if x < i {
                        let y = choose|y: int| 0 <= y < had.len() && (#[trigger] had[y])@ == keys[x];
                        assert(out@[y]@ == keys[x]);
                    }
                }
            }
            i += 1;
        }
        proof {
            self.session_to_tab.lemma_keys();
            assert forall|k: Seq<char>| #[trigger]
                among(out@, out@.len() as int, k) == self@.is_replaced(k, session_id@, tab_id@) by {
                if self@.is_replaced(k, session_id@, tab_id@) {
                    assert(self.session_to_tab@.contains_key(k));
                    let x = choose|x: int| 0 <= x < keys.len() && keys[x] == k;
                    assert(self@.is_replaced(keys[x], session_id@, tab_id@));
                }
                if among(out@, out@.len() as int, k) {
                    let y = choose|y: int| 0 <= y < out@.len() && (#[trigger] out@[y])@ == k;
                    assert(self@.is_replaced(out@[y]@, session_id@, tab_id@));
                }
            }
        }
        out
    }

    /// Forgets the sessions that a tab had before it got this one.
    pub fn forget_replaced(&mut self, session_id: &str, tab_id: &str)
        ensures
            final(self)@ == old(self)@.without_replaced(session_id@, tab_id@),
    {
        let ghost gone_keys = Set::new(
            |k: Seq<char>| old(self)@.is_replaced(k, session_id@, tab_id@),
        );
        let gone = self.replaced_sessions(session_id, tab_id);
        remove_all(&mut self.session_to_tab, &gone);
        remove_all(&mut self.model_configs, &gone);
        remove_all(&mut self.config_options, &gone);
        proof {
            let want = old(self)@.without_replaced(session_id@, tab_id@);
            assert(self@.session_to_tab =~= want.session_to_tab);
            assert(self@.model_configs =~= want.model_configs);
            assert(self@.config_options =~= want.config_options);
        }
    }

    /// Binds a session to a tab.
    pub fn bind(&mut self, session_id: &str, tab_id: &str)
        ensures
            final(self)@ == old(self)@.bound(session_id@, tab_id@),
    {
        let ghost before = self.session_to_tab@;
        let tab = tab_id.to_owned();
        self.session_to_tab.insert(session_id.to_owned(), tab);
        proof {
            assert(texts_view(before.insert(session_id@, tab)) =~= texts_view(before).insert(
                session_id@,
                tab_id@,
            ));
        }
    }

    /// Takes note of a session's models.
    pub fn set_model_config(&mut self, session_id: &str, config: ModelConfig)
        ensures
            final(self)@ == old(self)@.with_model_config(session_id@, config@),
    {
        let ghost before = self.model_configs@;
        self.model_configs.insert(session_id.to_owned(), config);
        proof {
            assert(configs_view(before.insert(session_id@, config)) =~= configs_view(before).insert(
                session_id@,
                config@,
            ));
        }
    }

    /// The models of a session: what was known before counts, and what is given
    /// is taken note of otherwise.
    pub fn adopt_model_config(&mut self, session_id: &str, given: ModelConfig) -> (r: ModelConfig)
        ensures
            r@ == old(self)@.model_config_or(session_id@, given@),
            final(self)@ == old(self)@.with_model_config(session_id@, r@),
    {
        if let Some(known) = self.model_configs.get(session_id) {
            let r = ModelConfig {
                models: copy_models(&known.models),
                current: copy_text(&known.current),
            };
            proof {
                assert(self@.model_configs.insert(session_id@, r@) =~= self@.model_configs);
            }
            r
        } else {
            let r = ModelConfig {
                models: copy_models(&given.models),
                current: copy_text(&given.current),
            };
            self.set_model_config(session_id, given);
            r
        }
    }

    /// Another model of a session is in use.
    pub fn set_model(&mut self, session_id: &str, model: &str)
        ensures
            final(self)@ == old(self)@.with_model(session_id@, model@),
    {
        let next = match self.model_configs.get(session_id) {
            Some(known) => ModelConfig {
                models: copy_models(&known.models),
                current: Some(model.to_owned()),
            },
            None => {
                return;
            },
        };
        self.set_model_config(session_id, next);
    }
}

// ---------------------------------------------------------------------------
// Connecting
// ---------------------------------------------------------------------------

impl TabView {
    /// The tab bound to a session: usage of another session is forgotten.
    pub open spec fn bound_to(self, session_id: Seq<char>) -> TabView {
        let s = if self.session_id == Some(session_id) {
            self
        } else {
            self.usage_cleared()
        };
        TabView { session_id: Some(session_id), ..s }
    }

    /// The tab with the disclaimer, where its conversation is empty.
    pub open spec fn with_disclaimer(self) -> TabView {
        if self.completed_turns.len() == 0 && self.messages.len() == 0 {
            TabView { messages: seq![ChatMessageView::Disclaimer], ..self }
        } else {
            self
        }
    }

    /// The tab once a session it was loading is there.
    pub open spec fn loaded(self) -> TabView {
        TabView {
            loading_session: false,
            loading_target_session_id: None,
            ..self.user_flushed().agent_flushed().at_bottom()
        }
    }

    /// Whether the session is the one that the tab loads.
    pub open spec fn loads(self, session_id: Seq<char>) -> bool {
        self.loading_target_session_id == Some(session_id)
    }
}

impl AppView {
    /// The pane at another stage of connecting.
    pub open spec fn connecting(self, stage: String) -> AppView {
        AppView {
            agent: AgentView { state: ConnectionState::Connecting(PhraseOf::Text(stage)), ..self.agent },
            ..self
        }.status_published()
    }

    /// The pane with the models of the cloud, which are for agents on the host.
    #[verifier::opaque]
    pub open spec fn cloud_models_known(self, models: Seq<ModelView>) -> AppView {
        if self.agent.source is Host {
            AppView { catalog: self.catalog.with_cloud(models), ..self }.status_published()
        } else {
            self
        }
    }

    /// The pane with the model of a session in use, where the session is in
    /// front.
    pub open spec fn in_front(self, session_id: Seq<char>) -> bool {
        self.current_tab().session_id == Some(session_id)
    }

    /// The model that a fresh session of a tab is to run on.
    pub open spec fn effective_model(self, tab_id: Seq<char>) -> Option<Seq<char>> {
        match self.tab(tab_id).model_override {
            Some(model) => Some(model),
            None => self.catalog.global_model,
        }
    }
}

/// The agent once it is connected.
pub open spec fn introduced(
    agent: AgentView,
    name: Seq<char>,
    model: Option<Seq<char>>,
    version: Option<Seq<char>>,
    load_session_supported: bool,
    image_supported: bool,
) -> AgentView {
    AgentView {
        state: ConnectionState::Connected,
        name,
        model,
        version,
        supports_load_session: load_session_supported,
        supports_image: image_supported,
        ..agent
    }
}

impl AppView {
    /// The pane with a session of the agent that belongs to the tab in front.
    pub open spec fn session_known(self, session_id: Seq<char>, given: ModelConfigView) -> AppView {
        let config = self.sessions.model_config_or(session_id, given);
        AppView {
            ids: IdsView { session_id, ..self.ids },
            sessions: self.sessions.with_model_config(session_id, config).bound(
                session_id,
                self.active_key(),
            ),
            catalog: self.catalog.with_agent(config),
            ..self
        }
    }

    /// The pane with nothing left of setting up: a recovery that is under way
    /// has become out of date.
    pub open spec fn setup_over(self, welcome_shown: bool) -> AppView {
        AppView {
            flow: SetupFlow {
                auth_recovery_generation: next_generation(self.flow.auth_recovery_generation),
                preflight_setup_active: false,
                setup: if self.screen.mode == AppMode::Setup {
                    None
                } else {
                    self.flow.setup
                },
                ..self.flow
            },
            screen: ScreenView {
                mode: if self.screen.mode == AppMode::Setup {
                    AppMode::Chat
                } else {
                    self.screen.mode
                },
                show_welcome_hint: self.screen.show_welcome_hint || !welcome_shown,
                ..self.screen
            },
            ..self
        }
    }

    /// The pane whose tab in front is bound to a session.
    pub open spec fn front_bound(self, session_id: Seq<char>) -> AppView {
        self.with_current(self.current_tab().bound_to(session_id).with_disclaimer())
    }
}

/// The pane once the agent is connected.
#[verifier::opaque]
pub open spec fn connected(
    app: AppView,
    agent: AgentView,
    session_id: Seq<char>,
    given: ModelConfigView,
    welcome_shown: bool,
) -> AppView {
    AppView { agent, ..app }.session_known(session_id, given).setup_over(welcome_shown).asking(
        EffectOf::SetTransportAvailable,
    ).front_bound(session_id).status_published()
}

/// The pane once a session is attached to a tab.
#[verifier::opaque]
pub open spec fn attached(
    app: AppView,
    tab_id: Seq<char>,
    session_id: Seq<char>,
    given: ModelConfigView,
) -> AppView {
    let bound = AppView {
        sessions: app.sessions.without_replaced(session_id, tab_id).bound(session_id, tab_id),
        ..app
    };
    let tab = TabView { session_id: Some(session_id), ..bound.tab(tab_id) };
    let is_target = tab.loads(session_id);
    let opened = if tab.loading_session && is_target {
        bound.with_tab(tab_id, tab.loaded()).asking(EffectOf::PackReplay { tab_id })
    } else {
        bound.with_tab(tab_id, tab)
    };
    let config = opened.sessions.model_config_or(session_id, given);
    let known = AppView {
        sessions: opened.sessions.with_model_config(session_id, config),
        catalog: if app.active_key() == tab_id {
            opened.catalog.with_agent(config)
        } else {
            opened.catalog
        },
        ..opened
    };
    let set = match known.effective_model(tab_id) {
        Some(model) if !is_target => known.asking(
            EffectOf::SetSessionModel { session_id, model, pane_override: false },
        ),
        _ => known,
    };
    set.status_published()
}

impl App {
    /// Connecting has got to another stage.
    pub fn on_connection_stage(&mut self, stage: String)
        ensures
            final(self)@ == old(self)@.connecting(stage),
    {
        self.agent.state = ConnectionState::Connecting(Phrase::Text(stage));
        self.publish_agent_status();
    }

    /// The models of the cloud are known.
    pub fn on_cloud_models(&mut self, models: Vec<AcpModelInfo>)
        ensures
            final(self)@ == old(self)@.cloud_models_known(models_view(models@)),
    {
        proof {
            reveal(AppView::cloud_models_known);
        }
        if self.agent.source.is_host() {
            self.catalog.set_cloud_models(models);
            self.publish_agent_status();
        }
    }

    fn bind_front_tab(&mut self, session_id: &str)
        ensures
            final(self)@ == old(self)@.front_bound(session_id@),
    {
        let tab = self.current_tab_mut();
        if !holds_text(&tab.session_id, session_id) {
            tab.clear_usage();
        }
        tab.session_id = Some(session_id.to_owned());
        proof {
            assert(tab@.messages.len() == tab.messages@.len());
            assert(tab@.completed_turns.len() == tab.completed_turns@.len());
        }
        if tab.completed_turns.len() == 0 && tab.messages.len() == 0 {
            tab.say(ChatMessage::Disclaimer);
            proof {
                assert(tab@.messages =~= seq![ChatMessageView::Disclaimer]);
            }
        }
    }

    fn know_session(&mut self, session_id: &str, config: ModelConfig)
        ensures
            final(self)@ == old(self)@.session_known(session_id@, config@),
    {
        let bind_tab = self.active_tab_key();
        self.ids.session_id = session_id.to_owned();
        let config = self.sessions.adopt_model_config(session_id, config);
        self.catalog.set_agent(config);
        self.sessions.bind(session_id, bind_tab.as_str());
    }

    fn end_setup(&mut self, welcome_shown: bool)
        ensures
            final(self)@ == old(self)@.setup_over(welcome_shown),
    {
        self.flow.auth_recovery_generation = self.flow.auth_recovery_generation.wrapping_add(1);
        self.flow.preflight_setup_active = false;
        if self.screen.mode == AppMode::Setup {
            self.screen.mode = AppMode::Chat;
            self.flow.setup = None;
        }
        if !welcome_shown {
            self.screen.show_welcome_hint = true;
        }
    }

    /// The agent is connected.
    pub fn on_agent_connected(
        &mut self,
        name: String,
        model: Option<String>,
        version: Option<String>,
        session_id: String,
        config: ModelConfig,
        load_session_supported: bool,
        image_supported: bool,
        welcome_shown: bool,
    )
        ensures
            final(self)@ == connected(
                old(self)@,
                introduced(
                    old(self)@.agent,
                    name@,
                    opt_view(model),
                    opt_view(version),
                    load_session_supported,
                    image_supported,
                ),
                session_id@,
                config@,
                welcome_shown,
            ),
    {
        proof {
            reveal(connected);
        }
        self.agent.name = name;
        self.agent.model = model;
        self.agent.version = version;
        self.agent.supports_load_session = load_session_supported;
        self.agent.supports_image = image_supported;
        self.agent.state = ConnectionState::Connected;
        self.know_session(session_id.as_str(), config);
        self.end_setup(welcome_shown);
        self.ask(EffectOf::SetTransportAvailable);
        self.bind_front_tab(session_id.as_str());
        self.publish_agent_status();
    }

    fn open_attached_tab(&mut self, tab_id: &str, session_id: &str) -> (r: bool)
        ensures
            r == old(self)@.tab(tab_id@).loads(session_id@),
            final(self)@ == ({
                let tab = TabView { session_id: Some(session_id@), ..old(self)@.tab(tab_id@) };
                if tab.loading_session && r {
                    old(self)@.with_tab(tab_id@, tab.loaded()).asking(
                        EffectOf::PackReplay { tab_id: tab_id@ },
                    )
                } else {
                    old(self)@.with_tab(tab_id@, tab)
                }
            }),
    {
        let tab = self.tab_mut(tab_id);
        tab.session_id = Some(session_id.to_owned());
        let is_target = holds_text(&tab.loading_target_session_id, session_id);
        let closes = tab.loading_session && is_target;
        if closes {
            tab.flush_replayed_user();
            tab.flush_replayed_agent();
            tab.loading_session = false;
            tab.loading_target_session_id = None;
            tab.scroll_to_bottom();
        }
        if closes {
            self.ask(EffectOf::PackReplay { tab_id: tab_id.to_owned() });
        }
        is_target
    }

    /// The model that a fresh session of a tab is to run on.
    pub fn effective_model_for_tab(&self, tab_id: &str) -> (r: Option<String>)
        ensures
            opt_view(r) == self@.effective_model(tab_id@),
    {
        let own = match self.tab(tab_id) {
            Some(tab) => copy_text(&tab.model_override),
            None => None,
        };
        match own {
            Some(model) => Some(model),
            None => copy_text(&self.catalog.global_model),
        }
    }

    /// A session is attached to a tab.
    pub fn on_session_attached(&mut self, tab_id: String, session_id: String, config: ModelConfig)
        ensures
            final(self)@ == attached(old(self)@, tab_id@, session_id@, config@),
    {
        proof {
            reveal(attached);
        }
        let active = self.active_tab_key();
        let is_active_tab = same(active.as_str(), tab_id.as_str());
        self.sessions.forget_replaced(session_id.as_str(), tab_id.as_str());
        self.sessions.bind(session_id.as_str(), tab_id.as_str());
        let is_target = self.open_attached_tab(tab_id.as_str(), session_id.as_str());
        let config = self.sessions.adopt_model_config(session_id.as_str(), config);
        if is_active_tab {
            self.catalog.set_agent(config);
        }
        if !is_target {
            if let Some(model) = self.effective_model_for_tab(tab_id.as_str()) {
                self.ask(
                    EffectOf::SetSessionModel {
                        session_id: session_id.clone(),
                        model,
                        pane_override: false,
                    },
                );
            }
        }
        self.publish_agent_status();
    }
}

// ---------------------------------------------------------------------------
// Usage
// ---------------------------------------------------------------------------

impl AppView {
    /// The pane once the usage of a session was reported.
    #[verifier::opaque]
    pub open spec fn usage_reported(self, session_id: Seq<char>, snapshot: UsageSnapshot) -> AppView {
        let key = self.session_tab_key(session_id);
        self.with_tab(key, self.tab(key).usage_reported(snapshot)).tab_projected(key)
    }

    /// The pane once the usage of a session was cleared.
    #[verifier::opaque]
    pub open spec fn usage_cleared(self, session_id: Seq<char>) -> AppView {
        let key = self.session_tab_key(session_id);
        self.with_tab(key, self.tab(key).usage_cleared()).tab_projected(key)
    }
}

impl App {
    /// The usage of a session was reported.
    pub fn on_usage_reported(&mut self, session_id: &str, snapshot: UsageSnapshot)
        ensures
            final(self)@ == old(self)@.usage_reported(session_id@, snapshot),
    {
        proof {
            reveal(AppView::usage_reported);
        }
        let key = self.tab_for_session(session_id);
        let tab = self.tab_mut(key.as_str());
        tab.report_usage(snapshot);
        self.project_tab_state(key.as_str());
    }

    /// The usage of a session was cleared.
    pub fn on_usage_cleared(&mut self, session_id: &str)
        ensures
            final(self)@ == old(self)@.usage_cleared(session_id@),
    {
        proof {
            reveal(AppView::usage_cleared);
        }
        let key = self.tab_for_session(session_id);
        let tab = self.tab_mut(key.as_str());
        tab.clear_usage();
        self.project_tab_state(key.as_str());
    }
}

// ---------------------------------------------------------------------------
// Models of a session
// ---------------------------------------------------------------------------

impl AppView {
    /// The pane once the models of a session were reported.
    #[verifier::opaque]
    pub open spec fn model_config_updated(
        self,
        session_id: Seq<char>,
        config: ModelConfigView,
    ) -> AppView {
        let s = AppView {
            sessions: self.sessions.with_model_config(session_id, config),
            ..self
        };
        if s.in_front(session_id) {
            AppView { catalog: s.catalog.with_agent(config), ..s }.status_published()
        } else {
            s
        }
    }

    /// The pane once the session in front runs on another model.
    pub open spec fn model_in_use(self, session_id: Seq<char>, model: Seq<char>) -> AppView {
        if self.in_front(session_id) {
            AppView { catalog: self.catalog.with_agent_model(model), ..self }.status_published()
        } else {
            self
        }
    }

    /// The pane once a model was set: nothing happens for a session that is
    /// bound to no tab.
    #[verifier::opaque]
    pub open spec fn model_set(
        self,
        session_id: Seq<char>,
        model: Seq<char>,
        pane_override: bool,
    ) -> AppView {
        match self.bound_tab(session_id) {
            None => self,
            Some(key) => {
                let s = AppView { sessions: self.sessions.with_model(session_id, model), ..self };
                let said = if pane_override {
                    let name = display_name(s.catalog.available_models, model);
                    s.with_tab(
                        key,
                        TabView { model_override: Some(model), ..s.tab(key) }.saying(
                            ChatMessageView::Notice {
                                kind: NoticeKind::Success,
                                text: PhraseOf::ModelSet { model: name },
                            },
                        ).at_bottom(),
                    )
                } else {
                    s
                };
                said.model_in_use(session_id, model)
            },
        }
    }

    /// The pane once a model could not be set.
    #[verifier::opaque]
    pub open spec fn model_set_failed(
        self,
        session_id: Seq<char>,
        model: Seq<char>,
        pane_override: bool,
        message: Seq<char>,
    ) -> AppView {
        match self.bound_tab(session_id) {
            Some(key) if pane_override => self.with_tab(
                key,
                self.tab(key).saying(
                    ChatMessageView::Notice {
                        kind: NoticeKind::Error,
                        text: PhraseOf::ConfigUpdateFailed {
                            option: display_name(self.catalog.available_models, model),
                            error: message,
                        },
                    },
                ).at_bottom(),
            ),
            _ => self,
        }
    }
}

impl App {
    fn is_in_front(&self, session_id: &str) -> (r: bool)
        ensures
            r == self@.in_front(session_id@),
    {
        match self.current_tab() {
            Some(tab) => holds_text(&tab.session_id, session_id),
            None => false,
        }
    }

    /// The models of a session were reported.
    pub fn on_model_config_updated(&mut self, session_id: &str, config: ModelConfig)
        ensures
            final(self)@ == old(self)@.model_config_updated(session_id@, config@),
    {
        proof {
            reveal(AppView::model_config_updated);
        }
        let shown = ModelConfig {
            models: copy_models(&config.models),
            current: copy_text(&config.current),
        };
        self.sessions.set_model_config(session_id, config);
        if self.is_in_front(session_id) {
            self.catalog.set_agent(shown);
            self.publish_agent_status();
        }
    }

    fn use_model(&mut self, session_id: &str, model: String)
        ensures
            final(self)@ == old(self)@.model_in_use(session_id@, model@),
    {
        if self.is_in_front(session_id) {
            self.catalog.set_agent_model(model);
            self.publish_agent_status();
        }
    }

    /// A model was set.
    pub fn on_model_set(&mut self, session_id: &str, model: String, pane_override: bool)
        ensures
            final(self)@ == old(self)@.model_set(session_id@, model@, pane_override),
    {
        proof {
            reveal(AppView::model_set);
        }
        let key = match self.bound_tab_for_session(session_id) {
            Some(key) => key,
            None => {
                return;
            },
        };
        self.sessions.set_model(session_id, model.as_str());
        if pane_override {
            let name = display_name_of(&self.catalog.available_models, model.as_str());
            let tab = self.tab_mut(key.as_str());
            tab.model_override = Some(model.clone());
            tab.say(ChatMessage::success(Phrase::ModelSet { model: name }));
            tab.scroll_to_bottom();
        }
        self.use_model(session_id, model);
    }

    /// A model could not be set.
    pub fn on_model_set_failed(
        &mut self,
        session_id: &str,
        model: &str,
        pane_override: bool,
        message: String,
    )
        ensures
            final(self)@ == old(self)@.model_set_failed(
                session_id@,
                model@,
                pane_override,
                message@,
            ),
    {
        proof {
            reveal(AppView::model_set_failed);
        }
        let key = match self.bound_tab_for_session(session_id) {
            Some(key) => key,
            None => {
                return;
            },
        };
        if pane_override {
            let name = display_name_of(&self.catalog.available_models, model);
            let tab = self.tab_mut(key.as_str());
            tab.say(
                ChatMessage::error(Phrase::ConfigUpdateFailed { option: name, error: message }),
            );
            tab.scroll_to_bottom();
        }
    }
}

// ---------------------------------------------------------------------------
// Configuration options of a session
// ---------------------------------------------------------------------------

/// Where the option with the id first stands, from the `i`-th on.
pub open spec fn option_at(options: Seq<ConfigOptionView>, id: Seq<char>, i: int) -> Option<int>
    decreases options.len() - i,
{
    if i < 0 || i >= options.len() {
        None
    } else if options[i].id == id {
        Some(i)
    } else {
        option_at(options, id, i + 1)
    }
}

/// The name of the first value with the id, from the `i`-th on, or the id
/// itself.
pub open spec fn value_name(values: Seq<AcpSessionConfigValue>, id: Seq<char>, i: int) -> Seq<char>
    decreases values.len() - i,
{
    if i < 0 || i >= values.len() {
        id
    } else if values[i].id@ == id {
        values[i].name@
    } else {
        value_name(values, id, i + 1)
    }
}

impl SessionsView {
    /// The options of a session, as far as they are known.
    pub open spec fn options(self, session_id: Seq<char>) -> Seq<ConfigOptionView> {
        if self.config_options.contains_key(session_id) {
            self.config_options[session_id]
        } else {
            Seq::empty()
        }
    }

    /// The sessions with another value of an option, where the option is known.
    pub open spec fn with_option_value(
        self,
        session_id: Seq<char>,
        config_id: Seq<char>,
        value: Seq<char>,
    ) -> SessionsView {
        match option_at(self.options(session_id), config_id, 0) {
            None => self,
            Some(i) => SessionsView {
                config_options: self.config_options.insert(
                    session_id,
                    self.options(session_id).update(
                        i,
                        ConfigOptionView {
                            current_value: value,
                            ..self.options(session_id)[i]
                        },
                    ),
                ),
                ..self
            },
        }
    }

    /// The name of an option, or its id where it is not known.
    pub open spec fn option_name(self, session_id: Seq<char>, config_id: Seq<char>) -> Seq<char> {
        match option_at(self.options(session_id), config_id, 0) {
            Some(i) => self.options(session_id)[i].name,
            None => config_id,
        }
    }

    /// The name of a value of an option, or the value itself where the option
    /// is not known.
    pub open spec fn option_value_name(
        self,
        session_id: Seq<char>,
        config_id: Seq<char>,
        value: Seq<char>,
    ) -> Seq<char> {
        match option_at(self.options(session_id), config_id, 0) {
            Some(i) => value_name(self.options(session_id)[i].values, value, 0),
            None => value,
        }
    }
}

impl AcpSessionConfigOption {
    /// The name of the value that the option has.
    pub fn current_value_name(&self) -> (r: String)
        ensures
            r@ == value_name(self.values@, self.current_value@, 0),
    {
        let mut i: usize = 0;
        while i < self.values.len()
            invariant
                i <= self.values.len(),
                value_name(self.values@, self.current_value@, 0) == value_name(
                    self.values@,
                    self.current_value@,
                    i as int,
                ),
            decreases self.values.len() - i,
        {
            if same(self.values[i].id.as_str(), self.current_value.as_str()) {
                return self.values[i].name.clone();
            }
            i += 1;
        }
        self.current_value.clone()
    }
}

/// Where the option with the id first stands.
pub fn find_option(options: &Vec<AcpSessionConfigOption>, id: &str) -> (r: Option<usize>)
    ensures
        match r {
            Some(i) => option_at(options_view(options@), id@, 0) == Some(i as int) && i
                < options.len(),
            None => option_at(options_view(options@), id@, 0) is None,
        },
{
    let mut i: usize = 0;
    while i < options.len()
        invariant
            i <= options.len(),
            option_at(options_view(options@), id@, 0) == option_at(
                options_view(options@),
                id@,
                i as int,
            ),
        decreases options.len() - i,
    {
        proof {
            assert(options_view(options@)[i as int] == options@[i as int]@);
        }
        if same(options[i].id.as_str(), id) {
            return Some(i);
        }
        i += 1;
    }
    None
}

impl SessionMaps {
    /// Sets the value of an option; returns the names of the option and of the
    /// value.
    pub fn set_option_value(&mut self, session_id: &str, config_id: &str, value: &str) -> (r: (
        String,
        String,
    ))
        ensures
            final(self)@ == old(self)@.with_option_value(session_id@, config_id@, value@),
            r.0@ == old(self)@.option_name(session_id@, config_id@),
            r.1@ == old(self)@.option_value_name(session_id@, config_id@, value@),
    {
        if !self.config_options.contains_key(session_id) {
            return (config_id.to_owned(), value.to_owned());
        }
        let ghost before = self.config_options@;
        let options = self.config_options.get_mut(session_id);
        let ghost all = options_view(options@);
        match find_option(options, config_id) {
            None => {
                proof {
                    assert(option_lists_view(before.insert(session_id@, *options))
                        =~= option_lists_view(before));
                }
                (config_id.to_owned(), value.to_owned())
            },
            Some(i) => {
                proof {
                    assert(all[i as int] == options@[i as int]@);
                }
                let option = &mut options[i];
                option.current_value = value.to_owned();
                let names = (option.name.clone(), option.current_value_name());
                proof {
                    let after = *options;
                    assert(options_view(after@) =~= all.update(
                        i as int,
                        ConfigOptionView { current_value: value@, ..all[i as int] },
                    ));
                    assert(option_lists_view(before.insert(session_id@, after))
                        =~= option_lists_view(before).insert(session_id@, options_view(after@)));
                }
                names
            },
        }
    }

    /// The name of an option, or its id where it is not known.
    pub fn option_name_of(&self, session_id: &str, config_id: &str) -> (r: String)
        ensures
            r@ == self@.option_name(session_id@, config_id@),
    {
        match self.config_options.get(session_id) {
            Some(options) => match find_option(options, config_id) {
                Some(i) => {
                    proof {
                        assert(options_view(options@)[i as int] == options@[i as int]@);
                    }
                    options[i].name.clone()
                },
                None => config_id.to_owned(),
            },
            None => config_id.to_owned(),
        }
    }

    /// Takes note of the options of a session.
    pub fn set_options(&mut self, session_id: &str, options: Vec<AcpSessionConfigOption>)
        ensures
            final(self)@ == (SessionsView {
                config_options: old(self)@.config_options.insert(session_id@, options_view(options@)),
                ..old(self)@
            }),
    {
        let ghost before = self.config_options@;
        self.config_options.insert(session_id.to_owned(), options);
        proof {
            assert(option_lists_view(before.insert(session_id@, options)) =~= option_lists_view(
                before,
            ).insert(session_id@, options_view(options@)));
        }
    }
}

impl TabView {
    /// The tab without a change of the option under way.
    pub open spec fn config_settled(self, config_id: Seq<char>) -> TabView {
        if self.config_pending_id == Some(config_id) {
            TabView { config_pending_id: None, ..self }
        } else {
            self
        }
    }
}

impl TabView {
    /// The tab once it was told that an option has a new value.
    pub open spec fn option_told(
        self,
        config_id: Seq<char>,
        option_name: Seq<char>,
        value: Seq<char>,
        shown: Seq<char>,
        model_compat: bool,
    ) -> TabView {
        let tab = self.config_settled(config_id);
        let said = if model_compat {
            TabView { model_override: Some(value), ..tab }.saying(
                ChatMessageView::Notice {
                    kind: NoticeKind::Success,
                    text: PhraseOf::ModelSet { model: shown },
                },
            )
        } else {
            tab.saying(
                ChatMessageView::Notice {
                    kind: NoticeKind::Success,
                    text: PhraseOf::OptionSet { option: option_name, value: shown },
                },
            )
        };
        said.at_bottom()
    }
}

impl TabSession {
    fn tell_option(
        &mut self,
        config_id: &str,
        option_name: String,
        value: &str,
        shown: String,
        model_compat: bool,
    )
        ensures
            final(self)@ == old(self)@.option_told(
                config_id@,
                option_name@,
                value@,
                shown@,
                model_compat,
            ),
    {
        if holds_text(&self.config_pending_id, config_id) {
            self.config_pending_id = None;
        }
        if model_compat {
            self.model_override = Some(value.to_owned());
            self.say(ChatMessage::success(Phrase::ModelSet { model: shown }));
        } else {
            self.say(
                ChatMessage::success(Phrase::OptionSet { option: option_name, value: shown }),
            );
        }
        self.scroll_to_bottom();
    }
}

impl AppView {
    /// The pane once the options of a session were reported.
    #[verifier::opaque]
    pub open spec fn options_updated(
        self,
        session_id: Seq<char>,
        options: Seq<ConfigOptionView>,
    ) -> AppView {
        let s = AppView {
            sessions: SessionsView {
                config_options: self.sessions.config_options.insert(session_id, options),
                ..self.sessions
            },
            ..self
        };
        match s.bound_tab(session_id) {
            Some(key) => s.with_tab(
                key,
                TabView {
                    config_picker: s.tab(key).config_picker.reconciled(options),
                    ..s.tab(key)
                },
            ),
            None => s,
        }
    }

    /// The pane once an option was set: nothing is said for a session that is
    /// bound to no tab.
    #[verifier::opaque]
    pub open spec fn option_set(
        self,
        session_id: Seq<char>,
        config_id: Seq<char>,
        value: Seq<char>,
        model_compat: bool,
    ) -> AppView {
        let option_name = self.sessions.option_name(session_id, config_id);
        let shown = self.sessions.option_value_name(session_id, config_id, value);
        let s = AppView {
            sessions: self.sessions.with_option_value(session_id, config_id, value),
            ..self
        };
        match s.bound_tab(session_id) {
            None => s,
            Some(key) => {
                let told = s.with_tab(
                    key,
                    s.tab(key).option_told(config_id, option_name, value, shown, model_compat),
                );
                if model_compat {
                    AppView {
                        sessions: told.sessions.with_model(session_id, value),
                        ..told
                    }.model_in_use(session_id, value)
                } else {
                    told
                }
            },
        }
    }

    /// The pane once an option could not be set.
    #[verifier::opaque]
    pub open spec fn option_set_failed(
        self,
        session_id: Seq<char>,
        config_id: Seq<char>,
        message: Seq<char>,
    ) -> AppView {
        match self.bound_tab(session_id) {
            None => self,
            Some(key) => self.with_tab(
                key,
                self.tab(key).config_settled(config_id).saying(
                    ChatMessageView::Notice {
                        kind: NoticeKind::Error,
                        text: PhraseOf::ConfigUpdateFailed {
                            option: self.sessions.option_name(session_id, config_id),
                            error: message,
                        },
                    },
                ).at_bottom(),
            ),
        }
    }
}

impl App {
    /// The options of a session were reported.
    pub fn on_options_updated(&mut self, session_id: &str, options: Vec<AcpSessionConfigOption>)
        ensures
            final(self)@ == old(self)@.options_updated(session_id@, options_view(options@)),
    {
        proof {
            reveal(AppView::options_updated);
        }
        self.sessions.set_options(session_id, options);
        proof {
            assert(self@.sessions.config_options.contains_key(session_id@));
            assert(self.sessions.config_options@.contains_key(session_id@));
            assert(options_view(self.sessions.config_options@[session_id@]@) == options_view(
                options@,
            )) by {
                assert(self@.sessions.config_options[session_id@] == options_view(
                    self.sessions.config_options@[session_id@]@,
                ));
            }
        }
        let key = match self.bound_tab_for_session(session_id) {
            Some(key) => key,
            None => {
                return;
            },
        };
        let picker = match (self.tab(key.as_str()), self.sessions.config_options.get(session_id)) {
            (Some(tab), Some(options)) => tab.config_picker.reconcile(options),
            _ => ConfigPicker::Closed,
        };
        let tab = self.tab_mut(key.as_str());
        tab.config_picker = picker;
    }

    /// An option was set.
    pub fn on_option_set(
        &mut self,
        session_id: &str,
        config_id: &str,
        value: String,
        model_compat: bool,
    )
        ensures
            final(self)@ == old(self)@.option_set(session_id@, config_id@, value@, model_compat),
    {
        proof {
            reveal(AppView::option_set);
        }
        let (option_name, shown) = self.sessions.set_option_value(
            session_id,
            config_id,
            value.as_str(),
        );
        let key = match self.bound_tab_for_session(session_id) {
            Some(key) => key,
            None => {
                return;
            },
        };
        let tab = self.tab_mut(key.as_str());
        tab.tell_option(config_id, option_name, value.as_str(), shown, model_compat);
        if model_compat {
            self.sessions.set_model(session_id, value.as_str());
            self.use_model(session_id, value);
        }
    }

    /// An option could not be set.
    pub fn on_option_set_failed(&mut self, session_id: &str, config_id: &str, message: String)
        ensures
            final(self)@ == old(self)@.option_set_failed(session_id@, config_id@, message@),
    {
        proof {
            reveal(AppView::option_set_failed);
        }
        let option = self.sessions.option_name_of(session_id, config_id);
        let key = match self.bound_tab_for_session(session_id) {
            Some(key) => key,
            None => {
                return;
            },
        };
        let tab = self.tab_mut(key.as_str());
        if holds_text(&tab.config_pending_id, config_id) {
            tab.config_pending_id = None;
        }
        tab.say(ChatMessage::error(Phrase::ConfigUpdateFailed { option, error: message }));
        tab.scroll_to_bottom();
    }
}

// ---------------------------------------------------------------------------
// Laws
// ---------------------------------------------------------------------------

/// News of a session that is bound to no tab change no tab.
pub proof fn law_unbound_session_touches_no_tab(
    app: AppView,
    session_id: Seq<char>,
    id: Seq<char>,
    text: Seq<char>,
    flag: bool,
)
    requires
        app.bound_tab(session_id) is None,
    ensures
        app.option_set_failed(session_id, id, text) == app,
        app.model_set(session_id, id, flag) == app,
        app.model_set_failed(session_id, id, flag, text) == app,
{
    reveal(AppView::model_set);
    reveal(AppView::model_set_failed);
    reveal(AppView::option_set_failed);
}

/// Attaching a session binds it to its tab, and no other session stays bound to
/// that tab.
pub proof fn law_a_tab_has_one_session(
    app: AppView,
    tab_id: Seq<char>,
    session_id: Seq<char>,
    given: ModelConfigView,
    other: Seq<char>,
)
    ensures
        attached(app, tab_id, session_id, given).sessions.session_to_tab.contains_key(session_id),
        attached(app, tab_id, session_id, given).sessions.session_to_tab[session_id] == tab_id,
        attached(app, tab_id, session_id, given).tab(tab_id).session_id == Some(session_id),
        other != session_id && attached(
            app,
            tab_id,
            session_id,
            given,
        ).sessions.session_to_tab.contains_key(other) ==> attached(
            app,
            tab_id,
            session_id,
            given,
        ).sessions.session_to_tab[other] != tab_id,
{
    reveal(attached);
}

/// Attaching a session other than the one that a tab loads leaves the loading
/// open.
pub proof fn law_unrelated_attach_keeps_loading(
    app: AppView,
    tab_id: Seq<char>,
    session_id: Seq<char>,
    given: ModelConfigView,
)
    requires
        app.tab(tab_id).loading_session,
        !app.tab(tab_id).loads(session_id),
    ensures
        attached(app, tab_id, session_id, given).tab(tab_id).loading_session,
        attached(app, tab_id, session_id, given).tab(tab_id).loading_target_session_id == app.tab(
            tab_id,
        ).loading_target_session_id,
{
    reveal(attached);
}

/// The pane that comes up on an empty conversation shows the disclaimer; one
/// that has something to show is left as it is.
pub proof fn law_disclaimer_only_on_empty(tab: TabView)
    ensures
        tab.completed_turns.len() == 0 && tab.messages.len() == 0 ==> tab.with_disclaimer().messages
            == seq![ChatMessageView::Disclaimer],
        tab.has_content() ==> tab.with_disclaimer() == tab,
        tab.with_disclaimer().with_disclaimer() == tab.with_disclaimer(),
{
}

} // verus!
