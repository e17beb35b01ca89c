//! Events of the terminal.

use vstd::prelude::*;
use vstd::string::*;

use crate::app::effect::EffectOf;
use crate::app::event::Parsed;
use crate::app::state::{App, AppView, CatalogView, PaneSettings, ScreenView};
use crate::json::{Json, JsonView};
use crate::models::{
    customs_view, models_view, AcpModelInfo, CustomModelCatalogEntry, CustomModelView,
};
use crate::tab::{AutofixBarSnapshot, AutofixView, BarView, PaneView, TabView, TurnState};
use crate::tab_actions::next_generation;
use crate::text::{
    begins, chars_of, holds_text, is_empty_text, opt_view, same, strip_prefix, trim, trimmed,
};
use crate::transcript::{copy_text, turns_view, CompletedTurnView};

verus! {

// ---------------------------------------------------------------------------
// Shell marks
// ---------------------------------------------------------------------------

/// A row of zeros.
pub open spec fn all_zeros(s: Seq<char>) -> bool {
    s.len() > 0 && forall|i: int| 0 <= i < s.len() ==> #[trigger] s[i] == '0'
}

/// A number that is zero, with or without a sign.
pub open spec fn is_zero(s: Seq<char>) -> bool {
    if s.len() > 0 && (s[0] == '+' || s[0] == '-') {
        all_zeros(s.skip(1))
    } else {
        all_zeros(s)
    }
}

/// The mark that a command ended well.
pub open spec fn marks_success(seq: Seq<char>) -> bool {
    begins(seq, "osc:133;"@) && begins(seq.skip("osc:133;"@.len() as int), "D;"@) && is_zero(
        trimmed(seq.skip("osc:133;"@.len() as int).skip("D;"@.len() as int)),
    )
}

/// The mark that the shell shows a prompt.
pub open spec fn marks_prompt(seq: Seq<char>) -> bool {
    seq == "osc:133;A"@
}

fn is_zero_text(s: &str) -> (r: bool)
    ensures
        r == is_zero(s@),
{
    let v = chars_of(s);
    let start: usize = if v.len() > 0 && (v[0] == '+' || v[0] == '-') {
        1
    } else {
        0
    };
    let ghost digits = if start == 1 {
        s@.skip(1)
    } else {
        s@
    };
    if start == v.len() {
        return false;
    }
    let mut i: usize = start;
    while i < v.len()
        invariant
            start <= i <= v.len(),
            v@ == s@,
            is_zero(s@) == all_zeros(digits),
            digits.len() == v@.len() - start,
            forall|k: int| 0 <= k < digits.len() ==> digits[k] == v@[k + start],
            forall|k: int| start <= k < i ==> v@[k] == '0',
        decreases v.len() - i,
    {
        if v[i] != '0' {
            proof {
                assert(digits[i - start] == v@[i as int]);
                assert(!all_zeros(digits));
            }
            return false;
        }
        i += 1;
    }
    true
}

fn is_success_mark(seq: &str) -> (r: bool)
    ensures
        r == marks_success(seq@),
{
    match strip_prefix(seq, "osc:133;") {
        Some(rest) => match strip_prefix(rest.as_str(), "D;") {
            Some(code) => {
                let code = trim(code.as_str());
                is_zero_text(code.as_str())
            },
            None => false,
        },
        None => false,
    }
}

// ---------------------------------------------------------------------------
// Fixes
// ---------------------------------------------------------------------------

impl TabView {
    /// The tab with another state of its fix.
    pub open spec fn with_autofix(self, autofix: AutofixView) -> TabView {
        TabView { autofix, ..self }
    }

    /// The tab without a suggestion.
    pub open spec fn without_suggestion(self) -> TabView {
        self.with_autofix(AutofixView { suggested_pane_id: None, ..self.autofix })
    }

    /// The tab that works out no fix: answers that are under way are out of
    /// date.
    pub open spec fn fix_dropped(self) -> TabView {
        self.with_autofix(
            AutofixView {
                generation: next_generation(self.autofix.generation),
                pane_id: None,
                ..self.autofix
            },
        )
    }
}

impl AppView {
    /// The pane with the bar of a tab cleared.
    pub open spec fn bar_cleared(self, key: Seq<char>) -> AppView {
        self.with_tab(
            key,
            self.tab(key).with_autofix(AutofixView { bar: BarView::Idle, ..self.tab(key).autofix }),
        ).asking(EffectOf::AutofixCleared { tab_id: key })
    }

    /// The pane without the suggestion of a tab.
    pub open spec fn suggestion_dismissed(self, key: Seq<char>) -> AppView {
        let s = self.with_tab(key, self.tab(key).without_suggestion());
        if self.tab(key).autofix.suggested_pane_id is Some {
            s.bar_cleared(key)
        } else {
            s
        }
    }

    /// The pane without the fix that a tab works out.
    pub open spec fn fix_dropped(self, key: Seq<char>) -> AppView {
        let s = self.with_tab(key, self.tab(key).fix_dropped()).asking(
            EffectOf::ClearRecommendations { tab_id: key },
        );
        if self.tab(key).autofix.pane_id is Some {
            s.bar_cleared(key)
        } else {
            s
        }
    }

    /// The pane without the turn of a session.
    pub open spec fn turn_cancelled(self, session_id: Seq<char>) -> AppView {
        let key = self.session_tab_key(session_id);
        let s = self.fix_dropped(key);
        s.with_tab(key, s.tab(key).idle()).asking(EffectOf::CancelTurn { session_id })
    }

    /// The pane once the time to a fix was recorded.
    pub open spec fn fix_timed(self, key: Seq<char>, pane_id: Seq<char>) -> AppView {
        let tab = self.tab(key);
        let s = self.with_tab(
            key,
            tab.with_autofix(AutofixView { armed_at: None, ..tab.autofix }),
        );
        match tab.autofix.armed_at {
            Some(armed_at) => s.asking(EffectOf::LogFixResolved { pane_id, armed_at }),
            None => s,
        }
    }

    /// The pane once the user moved on in the pane of a fix.
    pub open spec fn fix_outlived(self, key: Seq<char>, pane_id: Seq<char>) -> AppView {
        let s = self.fix_timed(key, pane_id);
        match s.tab(key).session_id {
            Some(session_id) => s.turn_cancelled(session_id),
            None => s.fix_dropped(key),
        }
    }

    /// Whether a prompt in a pane merely follows the failure that set things
    /// going.
    pub open spec fn is_echo(self, tab_id: Option<Seq<char>>, pane_id: Seq<char>) -> bool {
        match tab_id {
            Some(key) => self.tab(key).autofix.trigger_echo_pane == Some(pane_id),
            None => false,
        }
    }

    /// The pane once it has seen the prompt that follows a failure.
    pub open spec fn echo_seen(self, tab_id: Option<Seq<char>>, pane_id: Seq<char>) -> AppView {
        match tab_id {
            Some(key) => {
                let tab = self.tab(key);
                self.with_tab(
                    key,
                    if self.is_echo(tab_id, pane_id) {
                        tab.with_autofix(AutofixView { trigger_echo_pane: None, ..tab.autofix })
                    } else {
                        tab
                    },
                )
            },
            None => self,
        }
    }

    /// Whether a fix is worked out for a pane.
    pub open spec fn is_armed(self, tab_id: Option<Seq<char>>, pane_id: Seq<char>) -> bool {
        match tab_id {
            Some(key) => self.tabs.contains_key(key) && self.tabs[key].autofix.pane_id == Some(
                pane_id,
            ),
            None => false,
        }
    }

    /// The pane once a detected failure was left behind.
    pub open spec fn detection_dismissed(self, key: Seq<char>, pane_id: Seq<char>) -> AppView {
        let s = self.with_tab(key, self.tab(key));
        if self.tab(key).autofix.bar == BarView::Detected(pane_id) {
            s.bar_cleared(key)
        } else {
            s
        }
    }

    /// The pane after a mark of the shell that tells of no failure: the user
    /// may have moved on from one.
    #[verifier::opaque]
    pub open spec fn shell_marked(
        self,
        tab_id: Option<Seq<char>>,
        pane_id: Seq<char>,
        seq: Seq<char>,
    ) -> AppView {
        let success = marks_success(seq);
        let prompt = marks_prompt(seq);
        let moved_on = success || (prompt && !self.is_echo(tab_id, pane_id));
        let s0 = if prompt {
            self.echo_seen(tab_id, pane_id)
        } else {
            self
        };
        let s1 = if moved_on && s0.is_armed(tab_id, pane_id) {
            s0.fix_outlived(tab_id->0, pane_id)
        } else {
            s0
        };
        match tab_id {
            None => s1,
            Some(key) => {
                let s2 = if success || prompt {
                    s1.suggestion_dismissed(key)
                } else {
                    s1
                };
                if moved_on {
                    s2.detection_dismissed(key, pane_id)
                } else {
                    s2
                }
            },
        }
    }
}

impl App {
    fn clear_bar(&mut self, key: &str)
        ensures
            final(self)@ == old(self)@.bar_cleared(key@),
    {
        let tab = self.tab_mut(key);
        tab.autofix.bar_snapshot = AutofixBarSnapshot::Idle;
        self.ask(EffectOf::AutofixCleared { tab_id: key.to_owned() });
    }

    /// Dismisses the suggestion of a tab.
    pub fn dismiss_suggestion(&mut self, key: &str)
        ensures
            final(self)@ == old(self)@.suggestion_dismissed(key@),
    {
        let tab = self.tab_mut(key);
        let had = tab.autofix.suggested_pane_id.is_some();
        tab.autofix.suggested_pane_id = None;
        if had {
            self.clear_bar(key);
        }
    }

    fn drop_fix(&mut self, key: &str)
        ensures
            final(self)@ == old(self)@.fix_dropped(key@),
    {
        let tab = self.tab_mut(key);
        let had = tab.autofix.pane_id.is_some();
        tab.autofix.generation = tab.autofix.generation.wrapping_add(1);
        tab.autofix.pane_id = None;
        self.ask(EffectOf::ClearRecommendations { tab_id: key.to_owned() });
        if had {
            self.clear_bar(key);
        }
    }

    /// Ends the turn of a session.
    pub fn cancel_turn(&mut self, session_id: &str)
        ensures
            final(self)@ == old(self)@.turn_cancelled(session_id@),
    {
        let key = self.tab_for_session(session_id);
        self.drop_fix(key.as_str());
        let tab = self.tab_mut(key.as_str());
        tab.turn = TurnState::Idle;
        self.ask(EffectOf::CancelTurn { session_id: session_id.to_owned() });
    }

    fn time_fix(&mut self, key: &str, pane_id: &str)
        ensures
            final(self)@ == old(self)@.fix_timed(key@, pane_id@),
    {
        let tab = self.tab_mut(key);
        let armed = tab.autofix.armed_at;
        tab.autofix.armed_at = None;
        if let Some(armed_at) = armed {
            self.ask(EffectOf::LogFixResolved { pane_id: pane_id.to_owned(), armed_at });
        }
    }

    fn outlive_fix(&mut self, key: &str, pane_id: &str)
        ensures
            final(self)@ == old(self)@.fix_outlived(key@, pane_id@),
    {
        self.time_fix(key, pane_id);
        let session = match self.tab(key) {
            Some(tab) => copy_text(&tab.session_id),
            None => None,
        };
        match session {
            Some(session_id) => {
                self.cancel_turn(session_id.as_str());
            },
            None => {
                self.drop_fix(key);
            },
        }
    }

    fn see_echo(&mut self, tab_id: &Option<String>, pane_id: &str) -> (r: bool)
        ensures
            r == old(self)@.is_echo(opt_view(*tab_id), pane_id@),
            final(self)@ == old(self)@.echo_seen(opt_view(*tab_id), pane_id@),
    {
        match tab_id {
            Some(key) => {
                let tab = self.tab_mut(key.as_str());
                let echo = holds_text(&tab.autofix.trigger_echo_pane, pane_id);
                if echo {
                    tab.autofix.trigger_echo_pane = None;
                }
                echo
            },
            None => false,
        }
    }

    fn armed_for(&self, tab_id: &Option<String>, pane_id: &str) -> (r: bool)
        ensures
            r == self@.is_armed(opt_view(*tab_id), pane_id@),
    {
        match tab_id {
            Some(key) => match self.tab(key.as_str()) {
                Some(tab) => holds_text(&tab.autofix.pane_id, pane_id),
                None => false,
            },
            None => false,
        }
    }

    fn dismiss_detection(&mut self, key: &str, pane_id: &str)
        ensures
            final(self)@ == old(self)@.detection_dismissed(key@, pane_id@),
    {
        let tab = self.tab_mut(key);
        let detected = match &tab.autofix.bar_snapshot {
            AutofixBarSnapshot::Detected { pane_id: pane } => same(pane.as_str(), pane_id),
            _ => false,
        };
        if detected {
            self.clear_bar(key);
        }
    }

    /// A mark of a shell that tells of no failure.
    pub fn on_shell_mark(&mut self, tab_id: &Option<String>, pane_id: &str, seq: &str)
        ensures
            final(self)@ == old(self)@.shell_marked(opt_view(*tab_id), pane_id@, seq@),
    {
        proof {
            reveal(AppView::shell_marked);
        }
        let success = is_success_mark(seq);
        let prompt = same(seq, "osc:133;A");
        let mut moved_on = success;
        if prompt {
            let echo = self.see_echo(tab_id, pane_id);
            if !echo {
                moved_on = true;
            }
        }
        if moved_on && self.armed_for(tab_id, pane_id) {
            if let Some(key) = tab_id {
                self.outlive_fix(key.as_str(), pane_id);
            }
        }
        if let Some(key) = tab_id {
            if success || prompt {
                self.dismiss_suggestion(key.as_str());
            }
            if moved_on {
                self.dismiss_detection(key.as_str(), pane_id);
            }
        }
    }
}

// ---------------------------------------------------------------------------
// Settings
// ---------------------------------------------------------------------------

/// Whether two texts are there and differ.
pub open spec fn differ(a: Seq<char>, b: Seq<char>) -> bool {
    a.len() > 0 && b.len() > 0 && a != b
}

/// An optional text, or the empty one.
pub open spec fn or_empty(s: Option<Seq<char>>) -> Seq<char> {
    match s {
        Some(s) => s,
        None => Seq::empty(),
    }
}

fn texts_differ(a: &str, b: &Option<String>) -> (r: bool)
    ensures
        r == differ(a@, or_empty(opt_view(*b))),
{
    match b {
        Some(b) => !is_empty_text(a) && !is_empty_text(b.as_str()) && !same(a, b.as_str()),
        None => false,
    }
}

impl AppView {
    /// Whether an event is meant for another window: not where one of the two
    /// does not say which it is.
    pub open spec fn other_window(self, params: JsonView) -> bool {
        differ(params.text_or_empty("window_id"@), or_empty(self.ids.window_id))
    }

    /// Whether an event is meant for another pane's tab.
    pub open spec fn other_owner(self, params: JsonView) -> bool {
        differ(params.text_or_empty("tab_id"@), or_empty(self.ids.owner_tab_id))
    }

    /// The pane with the setting for fixes that an event brings.
    pub open spec fn autofix_configured(self, params: JsonView) -> AppView {
        match params.bool_member("autofix_enabled"@) {
            Some(enabled) => AppView {
                settings: PaneSettings { autofix_enabled: enabled, ..self.settings },
                ..self
            },
            None => self,
        }
    }

    /// The pane with the settings for delegation that an event brings.
    pub open spec fn delegate_configured(self, params: JsonView) -> AppView {
        if params.member("delegate_agent"@) is Some || params.member("delegate_model"@) is Some {
            self.asking(
                EffectOf::ApplyDelegateConfig {
                    agent: params.text_or_empty("delegate_agent"@),
                    model: params.text_or_empty("delegate_model"@),
                },
            )
        } else {
            self
        }
    }

    /// The pane with the model that an event sets for an agent.
    pub open spec fn model_configured(self, params: JsonView) -> AppView {
        match (params.text_member("acp_model"@), params.text_member("target_agent_id"@)) {
            (Some(model), Some(agent_id)) => self.asking(
                EffectOf::ApplyGlobalModel { agent_id, model },
            ),
            _ => self,
        }
    }
}

/// The catalog that an event brings: none where its lists cannot be read.
pub open spec fn delivered(
    catalog: CatalogView,
    cloud: Parsed<Vec<AcpModelInfo>>,
    custom: Parsed<Vec<CustomModelCatalogEntry>>,
    has_selection: bool,
    selection: Option<Seq<char>>,
) -> (CatalogView, bool) {
    match cloud {
        Parsed::Invalid => (catalog, false),
        _ => {
            let c = match cloud {
                Parsed::Present(models) => catalog.with_cloud(models_view(models@)),
                _ => catalog,
            };
            if custom is Absent && !has_selection {
                (c, true)
            } else if !c.own_models_supported {
                (c.with_custom(Seq::empty(), None), true)
            } else {
                let chosen = match selection {
                    Some(s) => Some(s),
                    None => c.custom_selection,
                };
                match custom {
                    Parsed::Invalid => (c, false),
                    Parsed::Present(models) => (c.with_custom(customs_view(models@), chosen), true),
                    Parsed::Absent => (c.with_custom(c.custom_models, chosen), true),
                }
            }
        },
    }
}

impl AppView {
    /// The pane with the models that an event brings; they are for agents on
    /// the host.
    pub open spec fn catalog_configured(
        self,
        params: JsonView,
        cloud: Parsed<Vec<AcpModelInfo>>,
        custom: Parsed<Vec<CustomModelCatalogEntry>>,
    ) -> AppView {
        if !(self.agent.source is Host) {
            self
        } else {
            let has_selection = params.member("custom_model_selection"@) is Some;
            let (catalog, complete) = delivered(
                self.catalog,
                cloud,
                custom,
                has_selection,
                params.text_member("custom_model_selection"@),
            );
            let delivery = !(cloud is Absent) || !(custom is Absent);
            if !complete {
                AppView { catalog, ..self }
            } else {
                let s = AppView {
                    catalog: CatalogView {
                        host_catalog_ready: catalog.host_catalog_ready || delivery,
                        ..catalog
                    },
                    ..self
                };
                if delivery || has_selection {
                    s.status_published()
                } else {
                    s
                }
            }
        }
    }

    /// The pane after a change of settings.
    #[verifier::opaque]
    pub open spec fn configured(
        self,
        params: JsonView,
        cloud: Parsed<Vec<AcpModelInfo>>,
        custom: Parsed<Vec<CustomModelCatalogEntry>>,
    ) -> AppView {
        if self.other_owner(params) {
            self
        } else {
            self.autofix_configured(params).delegate_configured(params).model_configured(
                params,
            ).catalog_configured(params, cloud, custom)
        }
    }
}

fn copy_customs(v: &Vec<CustomModelCatalogEntry>) -> (r: Vec<CustomModelCatalogEntry>)
    ensures
        customs_view(r@) == customs_view(v@),
{
    let mut out: Vec<CustomModelCatalogEntry> = Vec::new();
    let mut i: usize = 0;
    while i < v.len()
        invariant
            i <= v.len(),
            customs_view(out@) == customs_view(v@).take(i as int),
        decreases v.len() - i,
    {
        let ghost had = out@;
        let one = CustomModelCatalogEntry {
            selection_id: v[i].selection_id.clone(),
            api_contract: v[i].api_contract.clone(),
            model_id: v[i].model_id.clone(),
        };
        out.push(one);
        proof {
            assert(customs_view(out@) =~= customs_view(had).push(one@));
            assert(customs_view(v@)[i as int] == v@[i as int]@);
            assert(customs_view(v@).take(i + 1) =~= customs_view(v@).take(i as int).push(one@));
        }
        i += 1;
    }
    proof {
        assert(customs_view(v@).take(v@.len() as int) =~= customs_view(v@));
    }
    out
}

impl App {
    fn deliver_catalog(
        &mut self,
        cloud: Parsed<Vec<AcpModelInfo>>,
        custom: Parsed<Vec<CustomModelCatalogEntry>>,
        has_selection: bool,
        selection: Option<String>,
    ) -> (r: bool)
        ensures
            ({
                let (catalog, complete) = delivered(
                    old(self)@.catalog,
                    cloud,
                    custom,
                    has_selection,
                    opt_view(selection),
                );
                r == complete && final(self)@ == (AppView { catalog, ..old(self)@ })
            }),
    {
        match cloud {
            Parsed::Invalid => {
                return false;
            },
            Parsed::Present(models) => {
                self.catalog.set_cloud_models(models);
            },
            Parsed::Absent => {},
        }
        let untouched = match &custom {
            Parsed::Absent => !has_selection,
            _ => false,
        };
        if untouched {
            return true;
        }
        if !self.catalog.own_models_supported {
            let none: Vec<CustomModelCatalogEntry> = Vec::new();
            proof {
                assert(customs_view(none@) =~= Seq::<CustomModelView>::empty());
            }
            self.catalog.set_custom_models(none, None);
            return true;
        }
        let models = match custom {
            Parsed::Invalid => {
                return false;
            },
            Parsed::Present(models) => models,
            Parsed::Absent => copy_customs(&self.catalog.custom_models),
        };
        let chosen = match selection {
            Some(s) => Some(s),
            None => copy_text(&self.catalog.custom_selection),
        };
        self.catalog.set_custom_models(models, chosen);
        true
    }

    fn configure_catalog(
        &mut self,
        params: &Json,
        cloud: Parsed<Vec<AcpModelInfo>>,
        custom: Parsed<Vec<CustomModelCatalogEntry>>,
    )
        ensures
            final(self)@ == old(self)@.catalog_configured(params@, cloud, custom),
    {
        if !self.agent.source.is_host() {
            return;
        }
        let has_selection = params.has("custom_model_selection");
        let selection = params.text_member("custom_model_selection");
        let brings_cloud = match &cloud {
            Parsed::Absent => false,
            _ => true,
        };
        let brings_custom = match &custom {
            Parsed::Absent => false,
            _ => true,
        };
        let delivery = brings_cloud || brings_custom;
        if !self.deliver_catalog(cloud, custom, has_selection, selection) {
            return;
        }
        if delivery {
            self.catalog.host_catalog_ready = true;
        }
        if delivery || has_selection {
            self.publish_agent_status();
        }
    }

    /// Settings have changed.
    pub fn configure(
        &mut self,
        params: &Json,
        cloud: Parsed<Vec<AcpModelInfo>>,
        custom: Parsed<Vec<CustomModelCatalogEntry>>,
    )
        ensures
            final(self)@ == old(self)@.configured(params@, cloud, custom),
    {
        proof {
            reveal(AppView::configured);
        }
        let target = params.text_or_empty("tab_id");
        if texts_differ(target.as_str(), &self.ids.owner_tab_id) {
            return;
        }
        if let Some(enabled) = params.bool_member("autofix_enabled") {
            self.settings.autofix_enabled = enabled;
        }
        if params.has("delegate_agent") || params.has("delegate_model") {
            let agent = params.text_or_empty("delegate_agent");
            let model = params.text_or_empty("delegate_model");
            self.ask(EffectOf::ApplyDelegateConfig { agent, model });
        }
        match (params.text_member("acp_model"), params.text_member("target_agent_id")) {
            (Some(model), Some(agent_id)) => {
                self.ask(EffectOf::ApplyGlobalModel { agent_id, model });
            },
            _ => {},
        }
        self.configure_catalog(params, cloud, custom);
    }
}

// ---------------------------------------------------------------------------
// Tabs and sessions
// ---------------------------------------------------------------------------

impl TabView {
    /// The tab about to load a stored session.
    pub open spec fn loading(self, session_id: Seq<char>) -> TabView {
        TabView {
            current_view: PaneView::Chat,
            completed_turns: Seq::empty(),
            loading_session: true,
            loading_target_session_id: Some(session_id),
            ..self.history_cleared().usage_cleared()
        }
    }

    /// The tab with its pane opened or closed; a paste into a pane that closes
    /// is given up.
    pub open spec fn pane_toggled(self, open: bool) -> TabView {
        TabView {
            pane_open: open,
            ..if open {
                self
            } else {
                self.paste_invalidated()
            }
        }
    }
}

impl AppView {
    /// The pane after the terminal changed its tab.
    #[verifier::opaque]
    pub open spec fn tab_changed(self, params: JsonView) -> AppView {
        match params.text_member("tab_id"@) {
            Some(tab_id) if !self.other_window(params) => self.asking(
                EffectOf::SwitchTab { tab_id },
            ),
            _ => self,
        }
    }

    /// The pane after a tab was closed: that of another window is only passed
    /// on.
    #[verifier::opaque]
    pub open spec fn tab_closed(self, params: JsonView) -> AppView {
        match params.text_member("tab_id"@) {
            Some(tab_id) => if self.other_window(params) {
                self.asking(EffectOf::RequestTabClose { tab_id })
            } else {
                self.asking(EffectOf::DropTab { tab_id })
            },
            None => self,
        }
    }

    /// The pane after a tab got another id.
    #[verifier::opaque]
    pub open spec fn tab_renamed(self, params: JsonView) -> AppView {
        let old_tab_id = params.text_or_empty("old_tab_id"@);
        let new_tab_id = params.text_or_empty("new_tab_id"@);
        if old_tab_id.len() == 0 || new_tab_id.len() == 0 {
            self
        } else {
            self.asking(
                EffectOf::RenameTab {
                    old_tab_id,
                    new_tab_id,
                    new_window_id: match params.text_member("window_id"@) {
                        Some(w) if w.len() > 0 => Some(w),
                        _ => None,
                    },
                },
            )
        }
    }

    /// The pane after a tab is to begin anew.
    #[verifier::opaque]
    pub open spec fn tab_reset(self, params: JsonView) -> AppView {
        match params.text_member("tab_id"@) {
            Some(tab_id) => self.asking(EffectOf::ResetTab { tab_id }),
            None => self,
        }
    }

    /// The pane about to load a stored session into its own tab.
    #[verifier::opaque]
    pub open spec fn session_load_asked(self, params: JsonView) -> AppView {
        let tab_id = params.text_or_empty("tab_id"@);
        let session_id = params.text_or_empty("session_id"@);
        if tab_id.len() == 0 || session_id.len() == 0 {
            self
        } else if self.ids.owner_tab_id is Some && self.ids.owner_tab_id != Some(tab_id) {
            self
        } else {
            let s = self.with_tab(tab_id, self.tab(tab_id).loading(session_id));
            let told = if tab_id == s.active_key() {
                s.tab_projected(tab_id)
            } else {
                s
            };
            told.asking(
                EffectOf::LoadSession {
                    tab_id,
                    session_id,
                    cwd: match params.text_member("cwd"@) {
                        Some(cwd) if cwd.len() > 0 => Some(cwd),
                        _ => None,
                    },
                },
            )
        }
    }

    /// The tab that an event is about: the one in front, where it names none.
    pub open spec fn event_tab(self, params: JsonView) -> Seq<char> {
        match params.text_member("tab_id"@) {
            Some(tab_id) => tab_id,
            None => self.active_key(),
        }
    }

    /// The pane with the list of sessions in a tab.
    pub open spec fn agents_view_opened(self, key: Seq<char>) -> AppView {
        self.with_tab(key, TabView { current_view: PaneView::Agents, ..self.tab(key) }).asking(
            EffectOf::OpenAgentsView { tab_id: key },
        )
    }

    /// The pane with the conversation in a tab.
    pub open spec fn agents_view_closed(self, key: Seq<char>) -> AppView {
        self.with_tab(key, TabView { current_view: PaneView::Chat, ..self.tab(key) }).asking(
            EffectOf::CloseAgentsView { tab_id: key },
        )
    }

    /// The pane that has shown its welcome.
    pub open spec fn welcomed(self) -> AppView {
        if self.screen.show_welcome_hint {
            AppView { screen: ScreenView { show_welcome_hint: false, ..self.screen }, ..self }.asking(
                EffectOf::MarkWelcomeShown,
            )
        } else {
            self
        }
    }

    /// The pane with the view that an event asks for; a view that is not known
    /// is ignored.
    pub open spec fn view_set(self, key: Seq<char>, view: Option<Seq<char>>) -> AppView {
        match view {
            Some(name) => if name == "sessions"@ || name == "agents"@ {
                self.welcomed().agents_view_opened(key)
            } else if name == "chat"@ {
                self.agents_view_closed(key)
            } else {
                self
            },
            None => self,
        }
    }

    /// The pane opened or closed as an event asks.
    pub open spec fn pane_set(self, key: Seq<char>, open: Option<bool>) -> AppView {
        match open {
            Some(open) => {
                let s = self.with_tab(key, self.tab(key).pane_toggled(open));
                match s.tab(key).autofix.suggested_pane_id {
                    Some(pane_id) => s.asking(EffectOf::AutofixResult { tab_id: key, pane_id }),
                    None => s,
                }
            },
            None => self,
        }
    }

    /// The pane after the terminal asked for a change of a tab's state.
    #[verifier::opaque]
    pub open spec fn state_set(self, params: JsonView) -> AppView {
        let key = self.event_tab(params);
        if self.other_window(params) {
            self
        } else if self.ids.owner_tab_id is Some && self.ids.owner_tab_id != Some(key) {
            self
        } else {
            self.view_set(key, params.text_member("view"@)).pane_set(
                key,
                params.bool_member("pane_open"@),
            ).tab_projected(key)
        }
    }
}

impl App {
    fn is_other_window(&self, params: &Json) -> (r: bool)
        ensures
            r == self@.other_window(params@),
    {
        let target = params.text_or_empty("window_id");
        texts_differ(target.as_str(), &self.ids.window_id)
    }

    /// The terminal changed its tab.
    pub fn on_tab_changed(&mut self, params: &Json)
        ensures
            final(self)@ == old(self)@.tab_changed(params@),
    {
        proof {
            reveal(AppView::tab_changed);
        }
        if self.is_other_window(params) {
            return;
        }
        if let Some(tab_id) = params.text_member("tab_id") {
            self.ask(EffectOf::SwitchTab { tab_id });
        }
    }

    /// A tab was closed.
    pub fn on_tab_closed(&mut self, params: &Json)
        ensures
            final(self)@ == old(self)@.tab_closed(params@),
    {
        proof {
            reveal(AppView::tab_closed);
        }
        if let Some(tab_id) = params.text_member("tab_id") {
            if self.is_other_window(params) {
                self.ask(EffectOf::RequestTabClose { tab_id });
            } else {
                self.ask(EffectOf::DropTab { tab_id });
            }
        }
    }

    /// A tab got another id.
    pub fn on_tab_renamed(&mut self, params: &Json)
        ensures
            final(self)@ == old(self)@.tab_renamed(params@),
    {
        proof {
            reveal(AppView::tab_renamed);
        }
        let old_tab_id = params.text_or_empty("old_tab_id");
        let new_tab_id = params.text_or_empty("new_tab_id");
        if is_empty_text(old_tab_id.as_str()) || is_empty_text(new_tab_id.as_str()) {
            return;
        }
        let new_window_id = match params.text_member("window_id") {
            Some(w) => if is_empty_text(w.as_str()) {
                None
            } else {
                Some(w)
            },
            None => None,
        };
        self.ask(EffectOf::RenameTab { old_tab_id, new_tab_id, new_window_id });
    }

    /// A tab is to begin anew.
    pub fn on_tab_reset(&mut self, params: &Json)
        ensures
            final(self)@ == old(self)@.tab_reset(params@),
    {
        proof {
            reveal(AppView::tab_reset);
        }
        if let Some(tab_id) = params.text_member("tab_id") {
            self.ask(EffectOf::ResetTab { tab_id });
        }
    }

    fn is_foreign_tab(&self, key: &str) -> (r: bool)
        ensures
            r == (self@.ids.owner_tab_id is Some && self@.ids.owner_tab_id != Some(key@)),
    {
        match &self.ids.owner_tab_id {
            Some(owner) => !same(owner.as_str(), key),
            None => false,
        }
    }

    fn start_loading(&mut self, tab_id: &str, session_id: &str)
        ensures
            final(self)@ == old(self)@.with_tab(
                tab_id@,
                old(self)@.tab(tab_id@).loading(session_id@),
            ),
    {
        let tab = self.tab_mut(tab_id);
        tab.current_view = PaneView::Chat;
        tab.clear_chat_history();
        tab.clear_usage();
        tab.completed_turns.clear();
        proof {
            assert(turns_view(tab.completed_turns@) =~= Seq::<CompletedTurnView>::empty());
        }
        tab.loading_session = true;
        tab.loading_target_session_id = Some(session_id.to_owned());
    }

    /// A stored session is to be loaded.
    pub fn on_load_session(&mut self, params: &Json)
        ensures
            final(self)@ == old(self)@.session_load_asked(params@),
    {
        proof {
            reveal(AppView::session_load_asked);
        }
        let tab_id = params.text_or_empty("tab_id");
        let session_id = params.text_or_empty("session_id");
        if is_empty_text(tab_id.as_str()) || is_empty_text(session_id.as_str()) {
            return;
        }
        if self.is_foreign_tab(tab_id.as_str()) {
            return;
        }
        self.start_loading(tab_id.as_str(), session_id.as_str());
        let active = self.active_tab_key();
        if same(tab_id.as_str(), active.as_str()) {
            self.project_tab_state(tab_id.as_str());
        }
        let cwd = match params.text_member("cwd") {
            Some(cwd) => if is_empty_text(cwd.as_str()) {
                None
            } else {
                Some(cwd)
            },
            None => None,
        };
        self.ask(EffectOf::LoadSession { tab_id, session_id, cwd });
    }

    /// Shows the list of sessions in a tab.
    pub fn open_agents_view_for_tab(&mut self, key: &str)
        ensures
            final(self)@ == old(self)@.agents_view_opened(key@),
    {
        let tab = self.tab_mut(key);
        tab.current_view = PaneView::Agents;
        self.ask(EffectOf::OpenAgentsView { tab_id: key.to_owned() });
    }

    /// Shows the conversation in a tab.
    pub fn close_agents_view_for_tab(&mut self, key: &str)
        ensures
            final(self)@ == old(self)@.agents_view_closed(key@),
    {
        let tab = self.tab_mut(key);
        tab.current_view = PaneView::Chat;
        self.ask(EffectOf::CloseAgentsView { tab_id: key.to_owned() });
    }

    fn set_view(&mut self, key: &str, view: &Option<String>)
        ensures
            final(self)@ == old(self)@.view_set(key@, opt_view(*view)),
    {
        if let Some(name) = view {
            if same(name.as_str(), "sessions") || same(name.as_str(), "agents") {
                if self.screen.show_welcome_hint {
                    self.screen.show_welcome_hint = false;
                    self.ask(EffectOf::MarkWelcomeShown);
                }
                self.open_agents_view_for_tab(key);
            } else if same(name.as_str(), "chat") {
                self.close_agents_view_for_tab(key);
            }
        }
    }

    fn set_pane_open(&mut self, key: &str, open: Option<bool>)
        ensures
            final(self)@ == old(self)@.pane_set(key@, open),
    {
        if let Some(open) = open {
            let tab = self.tab_mut(key);
            if !open {
                tab.invalidate_pending_paste();
            }
            tab.pane_open = open;
            let suggested = copy_text(&tab.autofix.suggested_pane_id);
            if let Some(pane_id) = suggested {
                self.ask(EffectOf::AutofixResult { tab_id: key.to_owned(), pane_id });
            }
        }
    }

    /// The terminal asks for a change of a tab's state.
    pub fn on_set_agent_state(&mut self, params: &Json)
        ensures
            final(self)@ == old(self)@.state_set(params@),
    {
        proof {
            reveal(AppView::state_set);
        }
        if self.is_other_window(params) {
            return;
        }
        let key = match params.text_member("tab_id") {
            Some(tab_id) => tab_id,
            None => self.active_tab_key(),
        };
        if self.is_foreign_tab(key.as_str()) {
            return;
        }
        let view = params.text_member("view");
        self.set_view(key.as_str(), &view);
        self.set_pane_open(key.as_str(), params.bool_member("pane_open"));
        self.project_tab_state(key.as_str());
    }
}

} // verus!
