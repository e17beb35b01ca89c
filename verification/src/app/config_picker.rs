//! The picker for the options of a session.

use vstd::prelude::*;
use vstd::string::*;

use crate::app::connection::{find_option, option_at};
use crate::app::effect::EffectOf;
use crate::app::state::{
    options_view, AcpSessionConfigOption, AcpSessionConfigValue, App, AppView, ConfigOptionView,
};
use crate::tab::{ConfigPicker, ConfigPickerView, TabView};
use crate::text::{holds_text, same};

verus! {

/// Where the value with the id first stands, from the `i`-th on: the first
/// place of all, where it stands nowhere.
pub open spec fn value_at(values: Seq<AcpSessionConfigValue>, id: Seq<char>, i: int) -> int
    decreases values.len() - i,
{
    if i < 0 || i >= values.len() {
        0
    } else if values[i].id@ == id {
        i
    } else {
        value_at(values, id, i + 1)
    }
}

/// Where the first option of a category stands, from the `i`-th on.
pub open spec fn category_at(
    options: Seq<ConfigOptionView>,
    category: Seq<char>,
    i: int,
) -> Option<int>
    decreases options.len() - i,
{
    if i < 0 || i >= options.len() {
        None
    } else if options[i].category == Some(category) {
        Some(i)
    } else {
        category_at(options, category, i + 1)
    }
}

fn find_value(values: &Vec<AcpSessionConfigValue>, id: &str) -> (r: usize)
    ensures
        r == value_at(values@, id@, 0),
{
    let mut i: usize = 0;
    while i < values.len()
        invariant
            i <= values.len(),
            value_at(values@, id@, 0) == value_at(values@, id@, i as int),
        decreases values.len() - i,
    {
        if same(values[i].id.as_str(), id) {
            return i;
        }
        i += 1;
    }
    0
}

/// Where the first option of a category stands.
pub fn find_category(options: &Vec<AcpSessionConfigOption>, category: &str) -> (r: Option<usize>)
    ensures
        match r {
            Some(i) => category_at(options_view(options@), category@, 0) == Some(i as int) && i
                < options.len(),
            None => category_at(options_view(options@), category@, 0) is None,
        },
{
    let mut i: usize = 0;
    while i < options.len()
        invariant
            i <= options.len(),
            category_at(options_view(options@), category@, 0) == category_at(
                options_view(options@),
                category@,
                i as int,
            ),
        decreases options.len() - i,
    {
        proof {
            assert(options_view(options@)[i as int] == options@[i as int]@);
        }
        if holds_text(&options[i].category, category) {
            return Some(i);
        }
        i += 1;
    }
    None
}

/// The last place of a list, at most.
pub open spec fn clamped(selected: usize, len: nat) -> usize {
    if selected < len {
        selected
    } else {
        (len - 1) as usize
    }
}

/// The picker opened at the values of an option, its own value highlighted.
pub open spec fn values_of(option: ConfigOptionView, direct: bool) -> ConfigPickerView {
    ConfigPickerView::Values {
        option_id: option.id,
        selected: value_at(option.values, option.current_value, 0) as usize,
        direct,
    }
}

/// The list of options, where there are any.
pub open spec fn option_list(options: Seq<ConfigOptionView>, selected: usize) -> ConfigPickerView {
    if options.len() == 0 {
        ConfigPickerView::Closed
    } else {
        ConfigPickerView::Options { selected: clamped(selected, options.len()) }
    }
}

impl ConfigPickerView {
    /// The picker in line with the options there are: what it highlights is
    /// still there, and an option that is gone is left.
    pub open spec fn reconciled(self, options: Seq<ConfigOptionView>) -> ConfigPickerView {
        match self {
            ConfigPickerView::Closed => ConfigPickerView::Closed,
            ConfigPickerView::Options { selected } => option_list(options, selected),
            ConfigPickerView::Values { option_id, selected, direct } => match option_at(
                options,
                option_id,
                0,
            ) {
                Some(k) if options[k].values.len() > 0 => ConfigPickerView::Values {
                    option_id,
                    selected: clamped(selected, options[k].values.len()),
                    direct,
                },
                _ => if direct {
                    ConfigPickerView::Closed
                } else {
                    option_list(options, 0)
                },
            },
        }
    }

    /// How many rows the picker has.
    pub open spec fn rows(self, options: Seq<ConfigOptionView>) -> nat {
        match self {
            ConfigPickerView::Closed => 0,
            ConfigPickerView::Options { .. } => options.len(),
            ConfigPickerView::Values { option_id, .. } => match option_at(options, option_id, 0) {
                Some(k) => options[k].values.len(),
                None => 0,
            },
        }
    }

    /// The row that is highlighted.
    pub open spec fn row(self) -> usize {
        match self {
            ConfigPickerView::Closed => 0,
            ConfigPickerView::Options { selected } => selected,
            ConfigPickerView::Values { selected, .. } => selected,
        }
    }

    /// The picker with another row highlighted.
    pub open spec fn at_row(self, row: usize) -> ConfigPickerView {
        match self {
            ConfigPickerView::Closed => ConfigPickerView::Closed,
            ConfigPickerView::Options { .. } => ConfigPickerView::Options { selected: row },
            ConfigPickerView::Values { option_id, direct, .. } => ConfigPickerView::Values {
                option_id,
                selected: row,
                direct,
            },
        }
    }

    /// The picker after Escape: from the values back to the options, where the
    /// picker came from there, and else out of it.
    pub open spec fn escaped(self) -> ConfigPickerView {
        match self {
            ConfigPickerView::Values { direct: false, .. } => ConfigPickerView::Options {
                selected: 0,
            },
            _ => ConfigPickerView::Closed,
        }
    }
}

impl ConfigPicker {
    fn list(options: &Vec<AcpSessionConfigOption>, selected: usize) -> (r: ConfigPicker)
        ensures
            r@ == option_list(options_view(options@), selected),
    {
        if options.len() == 0 {
            ConfigPicker::Closed
        } else if selected < options.len() {
            ConfigPicker::Options { selected }
        } else {
            ConfigPicker::Options { selected: options.len() - 1 }
        }
    }

    /// The picker in line with the options there are.
    pub fn reconcile(&self, options: &Vec<AcpSessionConfigOption>) -> (r: ConfigPicker)
        ensures
            r@ == self@.reconciled(options_view(options@)),
    {
        match self {
            ConfigPicker::Closed => ConfigPicker::Closed,
            ConfigPicker::Options { selected } => ConfigPicker::list(options, *selected),
            ConfigPicker::Values { option_id, selected, direct } => {
                let known = match find_option(options, option_id.as_str()) {
                    Some(k) => {
                        proof {
                            assert(options_view(options@)[k as int] == options@[k as int]@);
                        }
                        options[k].values.len()
                    },
                    None => 0,
                };
                if known > 0 {
                    ConfigPicker::Values {
                        option_id: option_id.clone(),
                        selected: if *selected < known {
                            *selected
                        } else {
                            known - 1
                        },
                        direct: *direct,
                    }
                } else if *direct {
                    ConfigPicker::Closed
                } else {
                    ConfigPicker::list(options, 0)
                }
            },
        }
    }

    fn row(&self) -> (r: usize)
        ensures
            r == self@.row(),
    {
        match self {
            ConfigPicker::Closed => 0,
            ConfigPicker::Options { selected } => *selected,
            ConfigPicker::Values { selected, .. } => *selected,
        }
    }

    fn set_row(&mut self, row: usize)
        ensures
            final(self)@ == old(self)@.at_row(row),
    {
        let next = match &*self {
            ConfigPicker::Closed => ConfigPicker::Closed,
            ConfigPicker::Options { .. } => ConfigPicker::Options { selected: row },
            ConfigPicker::Values { option_id, direct, .. } => ConfigPicker::Values {
                option_id: option_id.clone(),
                selected: row,
                direct: *direct,
            },
        };
        *self = next;
    }

    fn at_values(option: &AcpSessionConfigOption, direct: bool) -> (r: ConfigPicker)
        ensures
            r@ == values_of(option@, direct),
    {
        ConfigPicker::Values {
            option_id: option.id.clone(),
            selected: find_value(&option.values, option.current_value.as_str()),
            direct,
        }
    }
}

// ---------------------------------------------------------------------------
// The picker over the tab in front
// ---------------------------------------------------------------------------

impl TabView {
    /// The tab with the configuration picker, and no other picker, open.
    pub open spec fn picking(self, picker: ConfigPickerView) -> TabView {
        TabView {
            config_picker: picker,
            model_picker_open: false,
            agent_picker_open: false,
            ..self
        }
    }

    /// The tab with the configuration picker at another place.
    pub open spec fn with_picker(self, picker: ConfigPickerView) -> TabView {
        TabView { config_picker: picker, ..self }
    }
}

/// What the configuration picker shows.
pub struct ConfigPopupState<'a> {
    pub options: &'a Vec<AcpSessionConfigOption>,
    /// The option whose values are shown.
    pub value_option: Option<usize>,
    pub selected: usize,
}

impl AppView {
    /// The options of the session of the tab in front, as far as they are
    /// known.
    pub open spec fn front_options(self) -> Seq<ConfigOptionView> {
        match self.current_tab().session_id {
            Some(id) => self.sessions.options(id),
            None => Seq::empty(),
        }
    }

    /// The pane with the configuration picker of the tab in front elsewhere.
    pub open spec fn with_front_picker(self, picker: ConfigPickerView) -> AppView {
        self.with_current(self.current_tab().with_picker(picker))
    }

    /// The pane with the highlighted row of the configuration picker a row
    /// further down, where there is one.
    pub open spec fn picker_lowered(self) -> AppView {
        let picker = self.current_tab().config_picker;
        if picker.row() + 1 < picker.rows(self.front_options()) {
            self.with_front_picker(picker.at_row((picker.row() + 1) as usize))
        } else {
            self
        }
    }

    /// The pane with the highlighted row of the configuration picker a row
    /// further up, where there is one.
    pub open spec fn picker_raised(self) -> AppView {
        let picker = self.current_tab().config_picker;
        if picker.row() > 0 {
            self.with_front_picker(picker.at_row((picker.row() - 1) as usize))
        } else {
            self
        }
    }

    /// The pane after a value was chosen: the change is asked for, and the
    /// option waits for it.
    pub open spec fn value_chosen(
        self,
        option: int,
        value: Seq<char>,
        direct: bool,
    ) -> AppView {
        let id = self.front_options()[option].id;
        self.with_current(
            TabView {
                config_pending_id: Some(id),
                config_picker: if direct {
                    ConfigPickerView::Closed
                } else {
                    ConfigPickerView::Options { selected: option as usize }
                },
                ..self.current_tab()
            },
        ).asking(
            EffectOf::SetConfigOption {
                session_id: self.current_tab().session_id->0,
                config_id: id,
                value,
            },
        )
    }

    /// The pane after Enter in the configuration picker: from an option to its
    /// values, and from a value to asking for it.
    #[verifier::opaque]
    pub open spec fn picker_entered(self) -> AppView {
        let options = self.front_options();
        match self.current_tab().config_picker {
            ConfigPickerView::Closed => self,
            ConfigPickerView::Options { selected } => if selected < options.len() {
                self.with_front_picker(values_of(options[selected as int], false))
            } else {
                self
            },
            ConfigPickerView::Values { option_id, selected, direct } => match option_at(
                options,
                option_id,
                0,
            ) {
                Some(k) if selected < options[k].values.len() => self.value_chosen(
                    k,
                    options[k].values[selected as int].id@,
                    direct,
                ),
                _ => self,
            },
        }
    }

    /// The pane after Escape in the configuration picker.
    pub open spec fn picker_escaped(self) -> AppView {
        self.with_front_picker(self.current_tab().config_picker.escaped())
    }
}

impl App {
    /// The options of the session of the tab in front.
    fn options_in_front(&self) -> (r: Option<&Vec<AcpSessionConfigOption>>)
        ensures
            match r {
                Some(options) => self@.current_tab().session_id is Some && options_view(options@)
                    == self@.front_options(),
                None => self@.front_options() =~= Seq::empty(),
            },
    {
        match self.current_tab() {
            Some(tab) => match &tab.session_id {
                Some(id) => self.sessions.config_options.get(id.as_str()),
                None => None,
            },
            None => None,
        }
    }

    /// How many options the session of the tab in front has.
    pub fn option_count(&self) -> (r: usize)
        ensures
            r == self@.front_options().len(),
    {
        match self.options_in_front() {
            Some(options) => options.len(),
            None => 0,
        }
    }

    /// The picker at the values of the first option of a category.
    pub fn category_values(&self, category: &str) -> (r: Option<ConfigPicker>)
        ensures
            match category_at(self@.front_options(), category@, 0) {
                Some(k) => r is Some && r->0@ == values_of(self@.front_options()[k], true),
                None => r is None,
            },
    {
        match self.options_in_front() {
            Some(options) => match find_category(options, category) {
                Some(k) => {
                    proof {
                        assert(options_view(options@)[k as int] == options@[k as int]@);
                    }
                    Some(ConfigPicker::at_values(&options[k], true))
                },
                None => None,
            },
            None => None,
        }
    }

    /// What the configuration picker shows, where it is open and there are
    /// options.
    pub fn config_popup_state(&self) -> (r: Option<ConfigPopupState<'_>>)
        ensures
            match r {
                Some(state) => !(self@.current_tab().config_picker is Closed) && options_view(
                    state.options@,
                ) == self@.front_options() && self@.front_options().len() > 0 && state.selected
                    == self@.current_tab().config_picker.row() && (match state.value_option {
                    Some(k) => self@.current_tab().config_picker is Values && option_at(
                        self@.front_options(),
                        self@.current_tab().config_picker->option_id,
                        0,
                    ) == Some(k as int),
                    None => self@.current_tab().config_picker is Values ==> option_at(
                        self@.front_options(),
                        self@.current_tab().config_picker->option_id,
                        0,
                    ) is None,
                }),
                None => self@.current_tab().config_picker is Closed || self@.front_options().len()
                    == 0,
            },
    {
        let tab = match self.current_tab() {
            Some(tab) => tab,
            None => {
                return None;
            },
        };
        if !tab.config_picker.is_open() {
            return None;
        }
        match self.options_in_front() {
            Some(options) => if options.len() == 0 {
                None
            } else {
                let value_option = match tab.config_picker.option_id() {
                    Some(id) => find_option(options, id),
                    None => None,
                };
                Some(ConfigPopupState { options, value_option, selected: tab.config_picker.row() })
            },
            None => None,
        }
    }

    /// How many rows the configuration picker has.
    fn picker_rows(&self) -> (r: usize)
        ensures
            r == self@.current_tab().config_picker.rows(self@.front_options()),
    {
        let options = match self.options_in_front() {
            Some(options) => options,
            None => {
                return 0;
            },
        };
        match self.current_tab() {
            Some(tab) => match &tab.config_picker {
                ConfigPicker::Closed => 0,
                ConfigPicker::Options { .. } => options.len(),
                ConfigPicker::Values { option_id, .. } => match find_option(
                    options,
                    option_id.as_str(),
                ) {
                    Some(k) => {
                        proof {
                            assert(options_view(options@)[k as int] == options@[k as int]@);
                        }
                        options[k].values.len()
                    },
                    None => 0,
                },
            },
            None => 0,
        }
    }

    fn picker_row(&self) -> (r: usize)
        ensures
            r == self@.current_tab().config_picker.row(),
    {
        match self.current_tab() {
            Some(tab) => tab.config_picker.row(),
            None => 0,
        }
    }

    /// Highlights the next row of the configuration picker.
    pub fn config_picker_down(&mut self)
        ensures
            final(self)@ == old(self)@.picker_lowered(),
    {
        let rows: usize = self.picker_rows();
        let row: usize = self.picker_row();
        if row < rows && row + 1 < rows {
            let tab = self.current_tab_mut();
            tab.config_picker.set_row(row + 1);
        }
    }

    /// Highlights the row before in the configuration picker.
    pub fn config_picker_up(&mut self)
        ensures
            final(self)@ == old(self)@.picker_raised(),
    {
        let row: usize = self.picker_row();
        if row > 0 {
            let tab = self.current_tab_mut();
            tab.config_picker.set_row(row - 1);
        }
    }

    fn choose_value(&mut self, session_id: String, option: usize, id: String, value: String, direct: bool)
        requires
            old(self)@.current_tab().session_id == Some(session_id@),
            id@ == old(self)@.front_options()[option as int].id,
        ensures
            final(self)@ == old(self)@.value_chosen(option as int, value@, direct),
    {
        let tab = self.current_tab_mut();
        tab.config_pending_id = Some(id.clone());
        tab.config_picker = if direct {
            ConfigPicker::Closed
        } else {
            ConfigPicker::Options { selected: option }
        };
        self.ask(EffectOf::SetConfigOption { session_id, config_id: id, value });
    }

    /// Takes what is highlighted in the configuration picker.
    pub fn config_picker_enter(&mut self)
        ensures
            final(self)@ == old(self)@.picker_entered(),
    {
        proof {
            reveal(AppView::picker_entered);
        }
        let options = match self.options_in_front() {
            Some(options) => options,
            None => {
                return;
            },
        };
        let ghost all = options_view(options@);
        let tab = match self.current_tab() {
            Some(tab) => tab,
            None => {
                return;
            },
        };
        match &tab.config_picker {
            ConfigPicker::Closed => {},
            ConfigPicker::Options { selected } => {
                if *selected < options.len() {
                    proof {
                        assert(all[*selected as int] == options@[*selected as int]@);
                    }
                    let picker = ConfigPicker::at_values(&options[*selected], false);
                    let tab = self.current_tab_mut();
                    tab.config_picker = picker;
                }
            },
            ConfigPicker::Values { option_id, selected, direct } => {
                if let Some(k) = find_option(options, option_id.as_str()) {
                    proof {
                        assert(all[k as int] == options@[k as int]@);
                    }
                    if *selected < options[k].values.len() {
                        let id = options[k].id.clone();
                        let value = options[k].values[*selected].id.clone();
                        let direct = *direct;
                        if let Some(session_id) = &tab.session_id {
                            let session_id = session_id.clone();
                            self.choose_value(session_id, k, id, value, direct);
                        }
                    }
                }
            },
        }
    }

    /// Leaves what the configuration picker shows.
    pub fn config_picker_escape(&mut self)
        ensures
            final(self)@ == old(self)@.picker_escaped(),
    {
        let tab = self.current_tab_mut();
        let back = match &tab.config_picker {
            ConfigPicker::Values { direct, .. } => !*direct,
            _ => false,
        };
        tab.config_picker = if back {
            ConfigPicker::Options { selected: 0 }
        } else {
            ConfigPicker::Closed
        };
    }
}

/// Values that were opened directly are left in one step, and those that were
/// reached through the options in two.
pub proof fn law_escape_leads_out(picker: ConfigPickerView)
    ensures
        picker.escaped().escaped() is Closed,
        picker is Values && picker->direct ==> picker.escaped() is Closed,
{
}

/// A picker in line with the options highlights a row that there is, and being
/// brought in line again changes nothing.
pub proof fn law_reconciled_picker_is_in_range(
    picker: ConfigPickerView,
    options: Seq<ConfigOptionView>,
)
    requires
        options.len() <= usize::MAX,
        forall|i: int| 0 <= i < options.len() ==> (#[trigger] options[i]).values.len() <= usize::MAX,
    ensures
        ({
            let p = picker.reconciled(options);
            &&& p is Closed || p.row() < p.rows(options)
            &&& p.reconciled(options) == p
        }),
{
    if picker is Values {
        lemma_option_at(options, picker->option_id, 0);
    }
}

proof fn lemma_option_at(options: Seq<ConfigOptionView>, id: Seq<char>, i: int)
    requires
        0 <= i,
    ensures
        match option_at(options, id, i) {
            Some(k) => i <= k < options.len() && options[k].id == id,
            None => true,
        },
    decreases options.len() - i,
{
    if i < options.len() && options[i].id != id {
        lemma_option_at(options, id, i + 1);
    }
}

} // verus!
