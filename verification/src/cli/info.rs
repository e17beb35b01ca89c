//! Finding the pane of the program among all panes of the terminal.

use vstd::prelude::*;
use vstd::string::*;

use crate::chat::plan::more;
use crate::chat::wrap::capped;
use crate::json::{items_view, Json, JsonView};
use crate::text::{cat, decimal, decimal_text, opt_view, views};
use crate::transcript::copy_text;

verus! {

/// A pane, the tab it is in, and the window that is in.
pub struct PanePlace {
    pub pane_id: String,
    pub tab_id: String,
    pub window_id: String,
}

/// Where a pane is, mathematically.
#[verifier::ext_equal]
pub struct PanePlaceView {
    pub pane_id: Seq<char>,
    pub tab_id: Seq<char>,
    pub window_id: Seq<char>,
}

/// Where a pane is, mathematically.
pub open spec fn place_view(p: Option<PanePlace>) -> Option<PanePlaceView> {
    match p {
        Some(p) => Some(
            PanePlaceView { pane_id: p.pane_id@, tab_id: p.tab_id@, window_id: p.window_id@ },
        ),
        None => None,
    }
}

/// A walk through the windows, their tabs and the panes of those.
pub struct InfoWalk {
    pub our_pid: u32,
    /// The windows that are still to be looked at.
    pub windows: Vec<String>,
    /// The window that is being looked at.
    pub window: Option<String>,
    /// The tabs of that window that are still to be looked at.
    pub tabs: Vec<String>,
    /// The tab that is being looked at.
    pub tab: Option<String>,
    pub total_windows: usize,
    pub total_tabs: usize,
    pub total_panes: usize,
    pub found: Option<PanePlace>,
}

/// A walk, mathematically.
#[verifier::ext_equal]
pub struct InfoView {
    pub our_pid: u32,
    pub windows: Seq<Seq<char>>,
    pub window: Option<Seq<char>>,
    pub tabs: Seq<Seq<char>>,
    pub tab: Option<Seq<char>>,
    pub total_windows: usize,
    pub total_tabs: usize,
    pub total_panes: usize,
    pub found: Option<PanePlaceView>,
}

impl View for InfoWalk {
    type V = InfoView;

    open spec fn view(&self) -> InfoView {
        InfoView {
            our_pid: self.our_pid,
            windows: views(self.windows@),
            window: opt_view(self.window),
            tabs: views(self.tabs@),
            tab: opt_view(self.tab),
            total_windows: self.total_windows,
            total_tabs: self.total_tabs,
            total_panes: self.total_panes,
            found: place_view(self.found),
        }
    }
}

/// What is to be asked next.
pub enum InfoActionOf<T> {
    ListTabs { window_id: T },
    ListPanes { tab_id: T },
    Report,
}

/// What is to be asked next.
pub type InfoAction = InfoActionOf<String>;

/// What is to be asked next, mathematically.
pub type InfoActionView = InfoActionOf<Seq<char>>;

impl View for InfoActionOf<String> {
    type V = InfoActionView;

    open spec fn view(&self) -> InfoActionView {
        match *self {
            InfoActionOf::ListTabs { window_id } => InfoActionOf::ListTabs {
                window_id: window_id@,
            },
            InfoActionOf::ListPanes { tab_id } => InfoActionOf::ListPanes { tab_id: tab_id@ },
            InfoActionOf::Report => InfoActionOf::Report,
        }
    }
}

/// The ids of windows; one whose id is no text is passed over.
pub open spec fn window_ids(v: Seq<JsonView>) -> Seq<Seq<char>>
    decreases v.len(),
{
    if v.len() == 0 {
        Seq::empty()
    } else {
        match v.last().text_member("window_id"@) {
            Some(id) => window_ids(v.drop_last()).push(id),
            None => window_ids(v.drop_last()),
        }
    }
}

/// The ids of tabs; one whose id is neither text nor number is passed over.
pub open spec fn tab_ids(v: Seq<JsonView>) -> Seq<Seq<char>>
    decreases v.len(),
{
    if v.len() == 0 {
        Seq::empty()
    } else {
        match v.last().label_member("tab_id"@) {
            Some(id) => tab_ids(v.drop_last()).push(id),
            None => tab_ids(v.drop_last()),
        }
    }
}

/// The id of a pane, or a question mark.
pub open spec fn pane_label(pane: JsonView) -> Seq<char> {
    match pane.label_member("session_id"@) {
        Some(id) => id,
        None => "?"@,
    }
}

/// The last of some panes that runs a process, where there is one; else what
/// was found before.
pub open spec fn found_among(
    v: Seq<JsonView>,
    pid: u32,
    tab_id: Seq<char>,
    window_id: Seq<char>,
    before: Option<PanePlaceView>,
) -> Option<PanePlaceView>
    decreases v.len(),
{
    if v.len() == 0 {
        before
    } else if v.last().whole_member("pid"@) == Some(pid as nat) {
        Some(PanePlaceView { pane_id: pane_label(v.last()), tab_id, window_id })
    } else {
        found_among(v.drop_last(), pid, tab_id, window_id, before)
    }
}

/// A list of an answer, where there is one.
pub open spec fn listed(answer: Option<JsonView>, key: Seq<char>) -> Option<Seq<JsonView>> {
    match answer {
        Some(answer) => answer.list_member(key),
        None => None,
    }
}

impl InfoView {
    /// What is asked next: the panes of the next tab, or the tabs of the next
    /// window.
    pub open spec fn onwards(self) -> (InfoView, InfoActionView) {
        if self.tabs.len() > 0 {
            (
                InfoView { tab: Some(self.tabs[0]), tabs: self.tabs.skip(1), ..self },
                InfoActionOf::ListPanes { tab_id: self.tabs[0] },
            )
        } else if self.windows.len() > 0 {
            (
                InfoView {
                    window: Some(self.windows[0]),
                    windows: self.windows.skip(1),
                    tab: None,
                    ..self
                },
                InfoActionOf::ListTabs { window_id: self.windows[0] },
            )
        } else {
            (self, InfoActionOf::Report)
        }
    }

    /// The windows are known, where the terminal told them.
    pub open spec fn windows_told(self, answer: Option<JsonView>) -> (InfoView, InfoActionView) {
        match listed(answer, "windows"@) {
            Some(list) => InfoView {
                total_windows: capped(list.len()),
                windows: window_ids(list),
                ..self
            }.onwards(),
            None => self.onwards(),
        }
    }

    /// The tabs of a window are known, where the terminal told them.
    pub open spec fn tabs_told(self, answer: Option<JsonView>) -> (InfoView, InfoActionView) {
        match listed(answer, "tabs"@) {
            Some(list) => InfoView {
                total_tabs: more(self.total_tabs, capped(list.len())),
                tabs: tab_ids(list),
                ..self
            }.onwards(),
            None => self.onwards(),
        }
    }

    /// The panes of a tab are known, where the terminal told them.
    pub open spec fn panes_told(self, answer: Option<JsonView>) -> (InfoView, InfoActionView) {
        match (listed(answer, "panes"@), self.tab, self.window) {
            (Some(list), Some(tab_id), Some(window_id)) => InfoView {
                total_panes: more(self.total_panes, capped(list.len())),
                found: found_among(list, self.our_pid, tab_id, window_id, self.found),
                ..self
            }.onwards(),
            _ => self.onwards(),
        }
    }

    /// What was found, as lines.
    pub open spec fn report(self) -> Seq<Seq<char>> {
        let pid = decimal(self.our_pid as nat);
        (match self.found {
            Some(place) => seq![
                "Current Pane (PID "@ + pid + "):"@,
                "  Window ID: "@ + place.window_id,
                "  Tab ID:    "@ + place.tab_id,
                "  Pane ID:   "@ + place.pane_id,
            ],
            None => seq!["Current Pane (PID "@ + pid + "): not found in WT pane list"@],
        }) + seq![
            Seq::<char>::empty(),
            "Summary:"@,
            "  Windows: "@ + decimal(self.total_windows as nat) + ", Tabs: "@ + decimal(
                self.total_tabs as nat,
            ) + ", Panes: "@ + decimal(self.total_panes as nat),
        ]
    }
}

fn read_window_ids(list: &Vec<Json>) -> (r: Vec<String>)
    ensures
        views(r@) == window_ids(items_view(list@)),
{
    let ghost all = items_view(list@);
    let mut out: Vec<String> = Vec::new();
    let mut i: usize = 0;
    proof {
        assert(all.take(0) =~= Seq::<JsonView>::empty());
        assert(views(out@) =~= Seq::<Seq<char>>::empty());
    }
    while i < list.len()
        invariant
            i <= list@.len(),
            all == items_view(list@),
            views(out@) == window_ids(all.take(i as int)),
        decreases list.len() - i,
    {
        let ghost before = views(out@);
        proof {
            assert(all.take(i + 1).drop_last() =~= all.take(i as int));
            assert(all.take(i + 1).last() == list@[i as int]@);
        }
        if let Some(id) = list[i].text_member("window_id") {
            out.push(id);
            proof {
                assert(views(out@) =~= before.push(id@));
            }
        }
        i += 1;
    }
    proof {
        assert(all.take(i as int) =~= all);
    }
    out
}

fn read_tab_ids(list: &Vec<Json>) -> (r: Vec<String>)
    ensures
        views(r@) == tab_ids(items_view(list@)),
{
    let ghost all = items_view(list@);
    let mut out: Vec<String> = Vec::new();
    let mut i: usize = 0;
    proof {
        assert(all.take(0) =~= Seq::<JsonView>::empty());
        assert(views(out@) =~= Seq::<Seq<char>>::empty());
    }
    while i < list.len()
        invariant
            i <= list@.len(),
            all == items_view(list@),
            views(out@) == tab_ids(all.take(i as int)),
        decreases list.len() - i,
    {
        let ghost before = views(out@);
        proof {
            assert(all.take(i + 1).drop_last() =~= all.take(i as int));
            assert(all.take(i + 1).last() == list@[i as int]@);
        }
        if let Some(id) = list[i].label_member("tab_id") {
            out.push(id);
            proof {
                assert(views(out@) =~= before.push(id@));
            }
        }
        i += 1;
    }
    proof {
        assert(all.take(i as int) =~= all);
    }
    out
}

fn look_among(
    list: &Vec<Json>,
    pid: u32,
    tab_id: &str,
    window_id: &str,
    before: Option<PanePlace>,
) -> (r: Option<PanePlace>)
    ensures
        place_view(r) == found_among(
            items_view(list@),
            pid,
            tab_id@,
            window_id@,
            place_view(before),
        ),
{
    let ghost all = items_view(list@);
    let ghost first = place_view(before);
    let mut found = before;
    let mut i: usize = 0;
    proof {
        assert(all.take(0) =~= Seq::<JsonView>::empty());
    }
    while i < list.len()
        invariant
            i <= list@.len(),
            all == items_view(list@),
            place_view(found) == found_among(all.take(i as int), pid, tab_id@, window_id@, first),
        decreases list.len() - i,
    {
        proof {
            assert(all.take(i + 1).drop_last() =~= all.take(i as int));
            assert(all.take(i + 1).last() == list@[i as int]@);
        }
        if let Some(n) = list[i].whole_member("pid") {
            if n == pid as u64 {
                let pane_id = match list[i].label_member("session_id") {
                    Some(id) => id,
                    None => "?".to_owned(),
                };
                found = Some(
                    PanePlace {
                        pane_id,
                        tab_id: tab_id.to_owned(),
                        window_id: window_id.to_owned(),
                    },
                );
            }
        }
        i += 1;
    }
    proof {
        assert(all.take(i as int) =~= all);
    }
    found
}

impl InfoWalk {
    /// A walk for a process.
    pub fn start(our_pid: u32) -> (r: InfoWalk)
        ensures
            r@ == (InfoView {
                our_pid,
                windows: Seq::empty(),
                window: None,
                tabs: Seq::empty(),
                tab: None,
                total_windows: 0,
                total_tabs: 0,
                total_panes: 0,
                found: None,
            }),
    {
        let r = InfoWalk {
            our_pid,
            windows: Vec::new(),
            window: None,
            tabs: Vec::new(),
            tab: None,
            total_windows: 0,
            total_tabs: 0,
            total_panes: 0,
            found: None,
        };
        proof {
            assert(views(r.windows@) =~= Seq::<Seq<char>>::empty());
            assert(views(r.tabs@) =~= Seq::<Seq<char>>::empty());
        }
        r
    }

    fn go_on(&mut self) -> (action: InfoAction)
        ensures
            (final(self)@, action@) == old(self)@.onwards(),
    {
        if self.tabs.len() > 0 {
            let ghost before = self.tabs@;
            let tab_id = self.tabs.remove(0);
            proof {
                assert(views(self.tabs@) =~= views(before).skip(1));
            }
            self.tab = Some(tab_id.clone());
            InfoActionOf::ListPanes { tab_id }
        } else if self.windows.len() > 0 {
            let ghost before = self.windows@;
            let window_id = self.windows.remove(0);
            proof {
                assert(views(self.windows@) =~= views(before).skip(1));
            }
            self.window = Some(window_id.clone());
            self.tab = None;
            InfoActionOf::ListTabs { window_id }
        } else {
            InfoActionOf::Report
        }
    }

    /// The terminal told its windows, or nothing.
    pub fn on_windows(&mut self, answer: &Option<Json>) -> (action: InfoAction)
        ensures
            (final(self)@, action@) == old(self)@.windows_told(crate::delegate::opt_json(*answer)),
    {
        if let Some(answer) = answer {
            if let Some(list) = answer.list_member("windows") {
                self.total_windows = list.len();
                self.windows = read_window_ids(list);
            }
        }
        self.go_on()
    }

    /// The terminal told the tabs of a window, or nothing.
    pub fn on_tabs(&mut self, answer: &Option<Json>) -> (action: InfoAction)
        ensures
            (final(self)@, action@) == old(self)@.tabs_told(crate::delegate::opt_json(*answer)),
    {
        if let Some(answer) = answer {
            if let Some(list) = answer.list_member("tabs") {
                self.total_tabs = self.total_tabs.saturating_add(list.len());
                self.tabs = read_tab_ids(list);
            }
        }
        self.go_on()
    }

    /// The terminal told the panes of a tab, or nothing.
    pub fn on_panes(&mut self, answer: &Option<Json>) -> (action: InfoAction)
        ensures
            (final(self)@, action@) == old(self)@.panes_told(crate::delegate::opt_json(*answer)),
    {
        if let Some(answer) = answer {
            if let (Some(list), Some(tab_id), Some(window_id)) = (
                answer.list_member("panes"),
                copy_text(&self.tab),
                copy_text(&self.window),
            ) {
                self.total_panes = self.total_panes.saturating_add(list.len());
                let before = self.found.take();
                self.found =
                look_among(list, self.our_pid, tab_id.as_str(), window_id.as_str(), before);
            }
        }
        self.go_on()
    }

    /// What was found, as lines.
    pub fn report_lines(&self) -> (r: Vec<String>)
        ensures
            views(r@) == self@.report(),
    {
        let pid = decimal_text(self.our_pid as u64);
        let mut out: Vec<String> = Vec::new();
        match &self.found {
            Some(place) => {
                let mut head = cat("Current Pane (PID ", pid.as_str());
                head.append("):");
                out.push(head);
                out.push(cat("  Window ID: ", place.window_id.as_str()));
                out.push(cat("  Tab ID:    ", place.tab_id.as_str()));
                out.push(cat("  Pane ID:   ", place.pane_id.as_str()));
            },
            None => {
                let mut head = cat("Current Pane (PID ", pid.as_str());
                head.append("): not found in WT pane list");
                out.push(head);
            },
        }
        out.push(String::new());
        out.push("Summary:".to_owned());
        let mut summary = cat("  Windows: ", decimal_text(self.total_windows as u64).as_str());
        summary.append(", Tabs: ");
        summary.append(decimal_text(self.total_tabs as u64).as_str());
        summary.append(", Panes: ");
        summary.append(decimal_text(self.total_panes as u64).as_str());
        out.push(summary);
        proof {
            assert(views(out@) =~= self@.report());
        }
        out
    }
}

// ---------------------------------------------------------------------------
// What is said first
// ---------------------------------------------------------------------------

/// What is said before the walk: the id that the terminal goes by, or that there
/// is no terminal around.
pub open spec fn info_head(clsid: Option<Seq<char>>) -> Seq<Seq<char>> {
    seq!["Windows Terminal Protocol Info"@, "========================================"@]
        + match clsid {
        Some(id) => seq![
            "  COM CLSID: "@ + id,
            "  Source: WT_COM_CLSID env var"@,
            Seq::<char>::empty(),
        ],
        None => seq![
            "  Status: Not running inside Windows Terminal"@,
            "  (WT_COM_CLSID not set)"@,
        ],
    }
}

/// What is said before the walk: the id that the terminal goes by, or that there
/// is no terminal around.
pub fn info_head_lines(clsid: &Option<String>) -> (r: Vec<String>)
    ensures
        views(r@) == info_head(opt_view(*clsid)),
{
    let mut out: Vec<String> = Vec::new();
    out.push("Windows Terminal Protocol Info".to_owned());
    out.push("========================================".to_owned());
    match clsid {
        Some(id) => {
            out.push(cat("  COM CLSID: ", id.as_str()));
            out.push("  Source: WT_COM_CLSID env var".to_owned());
            out.push(String::new());
        },
        None => {
            out.push("  Status: Not running inside Windows Terminal".to_owned());
            out.push("  (WT_COM_CLSID not set)".to_owned());
        },
    }
    proof {
        assert(views(out@) =~= info_head(opt_view(*clsid)));
    }
    out
}

/// What is said where the terminal cannot be reached.
pub fn connection_failed_line(error: &str) -> (r: String)
    ensures
        r@ == "  Connection failed: "@ + error@,
{
    cat("  Connection failed: ", error)
}

// ---------------------------------------------------------------------------
// Laws
// ---------------------------------------------------------------------------

/// Every step looks at something that was still to be looked at, or reports: what
/// is still to be looked at shrinks between two answers.
pub proof fn law_walk_comes_to_an_end(walk: InfoView)
    ensures
        ({
            let (next, action) = walk.onwards();
            &&& action is ListPanes ==> next.tabs.len() < walk.tabs.len() && next.windows
                == walk.windows
            &&& action is ListTabs ==> next.windows.len() < walk.windows.len()
            &&& action is Report ==> next == walk && walk.tabs.len() == 0 && walk.windows.len() == 0
        }),
{
}

/// A pane is found exactly where one of the panes runs the process.
pub proof fn law_pane_is_found_where_it_is(
    v: Seq<JsonView>,
    pid: u32,
    tab_id: Seq<char>,
    window_id: Seq<char>,
)
    ensures
        found_among(v, pid, tab_id, window_id, None) is Some <==> exists|i: int|
            0 <= i < v.len() && (#[trigger] v[i]).whole_member("pid"@) == Some(pid as nat),
    decreases v.len(),
{
    if v.len() > 0 {
        let rest = v.drop_last();
        law_pane_is_found_where_it_is(rest, pid, tab_id, window_id);
        if v.last().whole_member("pid"@) == Some(pid as nat) {
            assert(v[v.len() - 1].whole_member("pid"@) == Some(pid as nat));
        } else if exists|i: int|
            0 <= i < v.len() && (#[trigger] v[i]).whole_member("pid"@) == Some(pid as nat) {
            let i = choose|i: int|
                0 <= i < v.len() && (#[trigger] v[i]).whole_member("pid"@) == Some(pid as nat);
            assert(rest[i] == v[i]);
        } else if exists|i: int|
            0 <= i < rest.len() && (#[trigger] rest[i]).whole_member("pid"@) == Some(pid as nat) {
            let i = choose|i: int|
                0 <= i < rest.len() && (#[trigger] rest[i]).whole_member("pid"@) == Some(
                    pid as nat,
                );
            assert(v[i] == rest[i]);
        }
    }
}

/// Tabs are asked about before the next window is, each in its order, and when none
/// is left what was found is reported.
pub proof fn law_the_walk_asks_in_order(walk: InfoView)
    ensures
        ({
            let (next, action) = walk.onwards();
            &&& walk.tabs.len() > 0 ==> action == (InfoActionView::ListPanes {
                tab_id: walk.tabs[0],
            }) && next.tabs == walk.tabs.skip(1) && next.tab == Some(walk.tabs[0]) && next.windows
                == walk.windows && next.window == walk.window
            &&& walk.tabs.len() == 0 && walk.windows.len() > 0 ==> action == (
            InfoActionView::ListTabs { window_id: walk.windows[0] }) && next.window == Some(
                walk.windows[0],
            ) && next.windows == walk.windows.skip(1)
            &&& walk.tabs.len() == 0 && walk.windows.len() == 0 ==> action is Report
            &&& next.total_windows == walk.total_windows
            &&& next.total_tabs == walk.total_tabs
            &&& next.total_panes == walk.total_panes
            &&& next.found == walk.found
        }),
{
}

/// Everything that is listed is counted once.
pub proof fn law_what_is_listed_is_counted(walk: InfoView, answer: JsonView, list: Seq<JsonView>)
    requires
        list.len() < 1000,
        walk.total_tabs < 1000000,
        walk.total_panes < 1000000,
        walk.tab is Some,
        walk.window is Some,
    ensures
        answer.list_member("windows"@) == Some(list) ==> walk.windows_told(Some(answer)).0.total_windows
            == list.len(),
        answer.list_member("tabs"@) == Some(list) ==> walk.tabs_told(Some(answer)).0.total_tabs
            == walk.total_tabs + list.len(),
        answer.list_member("panes"@) == Some(list) ==> walk.panes_told(Some(answer)).0.total_panes
            == walk.total_panes + list.len(),
        walk.windows_told(None).0.total_windows == walk.total_windows,
        walk.tabs_told(None).0.total_tabs == walk.total_tabs,
        walk.panes_told(None).0.total_panes == walk.total_panes,
{
}

/// The report says where the process runs, or that nobody knows, and then how much
/// there is of everything.
pub proof fn law_the_report_says_where_the_process_runs(walk: InfoView)
    ensures
        ({
            let pid = decimal(walk.our_pid as nat);
            let told = walk.report();
            &&& walk.found is Some ==> told.len() == 7 && told[0] == "Current Pane (PID "@ + pid
                + "):"@ && told[1] == "  Window ID: "@ + walk.found->0.window_id && told[2]
                == "  Tab ID:    "@ + walk.found->0.tab_id && told[3] == "  Pane ID:   "@
                + walk.found->0.pane_id
            &&& walk.found is None ==> told.len() == 4 && told[0] == "Current Pane (PID "@ + pid
                + "): not found in WT pane list"@
            &&& told.last() == "  Windows: "@ + decimal(walk.total_windows as nat) + ", Tabs: "@
                + decimal(walk.total_tabs as nat) + ", Panes: "@ + decimal(walk.total_panes as nat)
        }),
{
}

/// The head says by which id the terminal is reached, or that there is none.
pub proof fn law_the_head_says_how_the_terminal_is_reached(clsid: Seq<char>)
    ensures
        info_head(Some(clsid)).len() == 5,
        info_head(Some(clsid))[0] == "Windows Terminal Protocol Info"@,
        info_head(Some(clsid))[2] == "  COM CLSID: "@ + clsid,
        info_head(Some(clsid))[3] == "  Source: WT_COM_CLSID env var"@,
        info_head(None).len() == 4,
        info_head(None)[2] == "  Status: Not running inside Windows Terminal"@,
        info_head(None)[3] == "  (WT_COM_CLSID not set)"@,
{
}

} // verus!
