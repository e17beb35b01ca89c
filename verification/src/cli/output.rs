//! The answers of the terminal as lines for a reader.

use vstd::prelude::*;
use vstd::string::*;

use crate::json::{items_view, Json, JsonView};
use crate::phrases::{fill, fill_none, fill_one, fill_two, filled, TemplatePart};
use crate::text::{
    decimal, decimal_int, decimal_int_text, decimal_text, law_padding_adds_blanks, pad_right, padded, same,
    views,
};

verus! {

/// The words around the answers.
pub struct OutputLabels {
    pub no_windows: Vec<TemplatePart>,
    pub windows_header: Vec<TemplatePart>,
    pub no_tabs: Vec<TemplatePart>,
    pub tabs_header: Vec<TemplatePart>,
    pub no_panes: Vec<TemplatePart>,
    pub panes_header: Vec<TemplatePart>,
    /// Of a pane, its tab and its window.
    pub active_pane: Vec<TemplatePart>,
    /// Of a process.
    pub pane_running: Vec<TemplatePart>,
    /// Of an exit code and a process.
    pub pane_exited: Vec<TemplatePart>,
    /// Of a tab and a pane.
    pub created_tab: Vec<TemplatePart>,
    /// Of a pane.
    pub created_pane: Vec<TemplatePart>,
    /// Of a pane.
    pub pane_closed: Vec<TemplatePart>,
}

/// What is shown: lines, or the answer as it is where it is of another form.
pub enum Shown {
    Lines(Vec<String>),
    Raw,
}

/// What is shown, mathematically.
pub open spec fn shown_view(s: Shown) -> Option<Seq<Seq<char>>> {
    match s {
        Shown::Lines(v) => Some(views(v@)),
        Shown::Raw => None,
    }
}

/// A member that is a text or a number, or a dash.
pub open spec fn label_or_dash(val: JsonView, key: Seq<char>) -> Seq<char> {
    match val.label_member(key) {
        Some(s) => s,
        None => "-"@,
    }
}

/// A member that is a text or a number, or a dash.
pub fn json_str_or_num(val: &Json, key: &str) -> (r: String)
    ensures
        r@ == label_or_dash(val@, key@),
{
    match val.label_member(key) {
        Some(s) => s,
        None => "-".to_owned(),
    }
}

/// A member that is a text, or a dash.
pub open spec fn text_or_dash(val: JsonView, key: Seq<char>) -> Seq<char> {
    match val.text_member(key) {
        Some(s) => s,
        None => "-"@,
    }
}

/// A member that is a whole number, or a dash.
pub open spec fn number_or_dash(val: JsonView, key: Seq<char>) -> Seq<char> {
    match val.whole_member(key) {
        Some(n) => decimal(n),
        None => "-"@,
    }
}

/// The mark of what has the focus.
pub open spec fn star(val: JsonView, key: Seq<char>) -> Seq<char> {
    if val.bool_member(key) == Some(true) {
        "*"@
    } else {
        Seq::empty()
    }
}

/// The line of a window.
pub open spec fn window_line(w: JsonView) -> Seq<char> {
    padded(label_or_dash(w, "window_id"@), 12) + " "@ + padded(text_or_dash(w, "title"@), 30)
        + " "@ + star(w, "is_focused"@)
}

/// The line of a tab.
pub open spec fn tab_line(t: JsonView) -> Seq<char> {
    padded(label_or_dash(t, "tab_id"@), 10) + " "@ + padded(text_or_dash(t, "title"@), 30) + " "@
        + star(t, "is_active"@)
}

/// A number of a pane's size, or a dash.
pub open spec fn size_of_pane(p: JsonView, key: Seq<char>) -> Seq<char> {
    match p.member("size"@) {
        Some(size) => number_or_dash(size, key),
        None => "-"@,
    }
}

/// The line of a pane.
pub open spec fn pane_line(p: JsonView) -> Seq<char> {
    padded(label_or_dash(p, "session_id"@), 10) + " "@ + padded(number_or_dash(p, "pid"@), 8)
        + " "@ + padded(star(p, "is_active"@), 8) + " "@ + padded(size_of_pane(p, "rows"@), 10)
        + " "@ + size_of_pane(p, "columns"@)
}

/// What is listed.
#[derive(Clone, Copy, Debug, PartialEq, Eq, Structural)]
pub enum Listing {
    Windows,
    Tabs,
    Panes,
}

impl Listing {
    /// The member of the answer that holds the list.
    pub open spec fn key(self) -> Seq<char> {
        match self {
            Listing::Windows => "windows"@,
            Listing::Tabs => "tabs"@,
            Listing::Panes => "panes"@,
        }
    }

    /// The line of an item.
    pub open spec fn line(self, item: JsonView) -> Seq<char> {
        match self {
            Listing::Windows => window_line(item),
            Listing::Tabs => tab_line(item),
            Listing::Panes => pane_line(item),
        }
    }

    /// What is said of an empty list.
    pub open spec fn nothing(self, labels: OutputLabels) -> Seq<char> {
        match self {
            Listing::Windows => filled(labels.no_windows@, seq![]),
            Listing::Tabs => filled(labels.no_tabs@, seq![]),
            Listing::Panes => filled(labels.no_panes@, seq![]),
        }
    }

    /// The line above the list.
    pub open spec fn header(self, labels: OutputLabels) -> Seq<char> {
        match self {
            Listing::Windows => filled(labels.windows_header@, seq![]),
            Listing::Tabs => filled(labels.tabs_header@, seq![]),
            Listing::Panes => filled(labels.panes_header@, seq![]),
        }
    }

    /// What is shown of an answer: nothing but the answer itself, where it has no
    /// such list.
    pub open spec fn shown(self, val: JsonView, labels: OutputLabels) -> Option<Seq<Seq<char>>> {
        match val.list_member(self.key()) {
            Some(items) => Some(
                if items.len() == 0 {
                    seq![self.nothing(labels)]
                } else {
                    seq![self.header(labels)] + items.map_values(|item: JsonView| self.line(item))
                },
            ),
            None => None,
        }
    }
}

fn text_or_dash_of(val: &Json, key: &str) -> (r: String)
    ensures
        r@ == text_or_dash(val@, key@),
{
    match val.text_member(key) {
        Some(s) => s,
        None => "-".to_owned(),
    }
}

fn number_or_dash_of(val: &Json, key: &str) -> (r: String)
    ensures
        r@ == number_or_dash(val@, key@),
{
    match val.whole_member(key) {
        Some(n) => decimal_text(n),
        None => "-".to_owned(),
    }
}

fn star_of(val: &Json, key: &str) -> (r: String)
    ensures
        r@ == star(val@, key@),
{
    match val.bool_member(key) {
        Some(true) => "*".to_owned(),
        _ => String::new(),
    }
}

fn size_text(p: &Json, key: &str) -> (r: String)
    ensures
        r@ == size_of_pane(p@, key@),
{
    match p.get("size") {
        Some(size) => number_or_dash_of(size, key),
        None => "-".to_owned(),
    }
}

fn add_column(out: &mut String, text: &str, width: usize)
    ensures
        final(out)@ == old(out)@ + padded(text@, width as nat) + " "@,
{
    out.append(pad_right(text, width).as_str());
    out.append(" ");
}

fn item_line(listing: Listing, item: &Json) -> (r: String)
    ensures
        r@ == listing.line(item@),
{
    let mut out = String::new();
    match listing {
        Listing::Windows => {
            add_column(&mut out, json_str_or_num(item, "window_id").as_str(), 12);
            add_column(&mut out, text_or_dash_of(item, "title").as_str(), 30);
            out.append(star_of(item, "is_focused").as_str());
            proof {
                assert(out@ =~= window_line(item@));
            }
        },
        Listing::Tabs => {
            add_column(&mut out, json_str_or_num(item, "tab_id").as_str(), 10);
            add_column(&mut out, text_or_dash_of(item, "title").as_str(), 30);
            out.append(star_of(item, "is_active").as_str());
            proof {
                assert(out@ =~= tab_line(item@));
            }
        },
        Listing::Panes => {
            add_column(&mut out, json_str_or_num(item, "session_id").as_str(), 10);
            add_column(&mut out, number_or_dash_of(item, "pid").as_str(), 8);
            add_column(&mut out, star_of(item, "is_active").as_str(), 8);
            add_column(&mut out, size_text(item, "rows").as_str(), 10);
            out.append(size_text(item, "columns").as_str());
            proof {
                assert(out@ =~= pane_line(item@));
            }
        },
    }
    out
}

fn show_list(listing: Listing, val: &Json, labels: &OutputLabels) -> (r: Shown)
    ensures
        shown_view(r) == listing.shown(val@, *labels),
{
    let key = match listing {
        Listing::Windows => "windows",
        Listing::Tabs => "tabs",
        Listing::Panes => "panes",
    };
    let items = match val.list_member(key) {
        Some(items) => items,
        None => {
            return Shown::Raw;
        },
    };
    let mut out: Vec<String> = Vec::new();
    if items.len() == 0 {
        let said = match listing {
            Listing::Windows => fill_none(&labels.no_windows),
            Listing::Tabs => fill_none(&labels.no_tabs),
            Listing::Panes => fill_none(&labels.no_panes),
        };
        out.push(said);
        proof {
            assert(views(out@) =~= seq![said@]);
        }
        return Shown::Lines(out);
    }
    let header = match listing {
        Listing::Windows => fill_none(&labels.windows_header),
        Listing::Tabs => fill_none(&labels.tabs_header),
        Listing::Panes => fill_none(&labels.panes_header),
    };
    out.push(header);
    let ghost first = seq![header@];
    let ghost all = items_view(items@).map_values(|item: JsonView| listing.line(item));
    let mut i: usize = 0;
    proof {
        assert(views(out@) =~= first + all.take(0));
    }
    while i < items.len()
        invariant
            i <= items@.len(),
            all == items_view(items@).map_values(|item: JsonView| listing.line(item)),
            views(out@) == first + all.take(i as int),
        decreases items.len() - i,
    {
        let ghost before = views(out@);
        let line = item_line(listing, &items[i]);
        out.push(line);
        proof {
            assert(views(out@) =~= before.push(line@));
            assert(items_view(items@)[i as int] == items@[i as int]@);
            assert(all[i as int] == line@);
            assert(first + all.take(i + 1) =~= (first + all.take(i as int)).push(line@));
        }
        i += 1;
    }
    proof {
        assert(all.take(i as int) =~= all);
    }
    Shown::Lines(out)
}

/// The windows of the terminal as lines.
pub fn format_windows_human(val: &Json, labels: &OutputLabels) -> (r: Shown)
    ensures
        shown_view(r) == Listing::Windows.shown(val@, *labels),
{
    show_list(Listing::Windows, val, labels)
}

/// The tabs of a window as lines.
pub fn format_tabs_human(val: &Json, labels: &OutputLabels) -> (r: Shown)
    ensures
        shown_view(r) == Listing::Tabs.shown(val@, *labels),
{
    show_list(Listing::Tabs, val, labels)
}

/// The panes of a tab as lines.
pub fn format_panes_human(val: &Json, labels: &OutputLabels) -> (r: Shown)
    ensures
        shown_view(r) == Listing::Panes.shown(val@, *labels),
{
    show_list(Listing::Panes, val, labels)
}

/// The active pane in a line.
pub fn format_active_pane(val: &Json, labels: &OutputLabels) -> (r: String)
    ensures
        r@ == filled(
            labels.active_pane@,
            seq![
                label_or_dash(val@, "session_id"@),
                label_or_dash(val@, "tab_id"@),
                label_or_dash(val@, "window_id"@),
            ],
        ),
{
    let mut args: Vec<String> = Vec::new();
    args.push(json_str_or_num(val, "session_id"));
    args.push(json_str_or_num(val, "tab_id"));
    args.push(json_str_or_num(val, "window_id"));
    proof {
        assert(views(args@) =~= seq![
            label_or_dash(val@, "session_id"@),
            label_or_dash(val@, "tab_id"@),
            label_or_dash(val@, "window_id"@),
        ]);
    }
    fill(&labels.active_pane, &args)
}

/// A member that is a whole number, negative or not, or a dash.
pub open spec fn signed_or_dash(val: JsonView, key: Seq<char>) -> Seq<char> {
    match val.signed_member(key) {
        Some(n) => decimal_int(n),
        None => "-"@,
    }
}

/// How the process of a pane is doing, in a line.
pub open spec fn status_said(val: JsonView, labels: OutputLabels) -> Seq<char> {
    let pid = number_or_dash(val, "pid"@);
    if val.text_member("state"@) == Some("running"@) {
        filled(labels.pane_running@, seq![pid])
    } else {
        filled(
            labels.pane_exited@,
            seq![signed_or_dash(val, "exit_code"@), pid],
        )
    }
}

/// How the process of a pane is doing, in a line.
pub fn format_pane_status(val: &Json, labels: &OutputLabels) -> (r: String)
    ensures
        r@ == status_said(val@, *labels),
{
    let running = match val.text_member("state") {
        Some(state) => same(state.as_str(), "running"),
        None => false,
    };
    let pid = number_or_dash_of(val, "pid");
    if running {
        fill_one(&labels.pane_running, &pid)
    } else {
        let code = match val.signed_member("exit_code") {
            Some(n) => decimal_int_text(n),
            None => "-".to_owned(),
        };
        fill_two(&labels.pane_exited, &code, &pid)
    }
}

/// A tab that was created, in a line.
pub fn format_created_tab(val: &Json, labels: &OutputLabels) -> (r: String)
    ensures
        r@ == filled(
            labels.created_tab@,
            seq![label_or_dash(val@, "tab_id"@), label_or_dash(val@, "session_id"@)],
        ),
{
    let tab_id = json_str_or_num(val, "tab_id");
    let pane_id = json_str_or_num(val, "session_id");
    fill_two(&labels.created_tab, &tab_id, &pane_id)
}

/// A pane that was created, in a line.
pub fn format_created_pane(val: &Json, labels: &OutputLabels) -> (r: String)
    ensures
        r@ == filled(labels.created_pane@, seq![label_or_dash(val@, "session_id"@)]),
{
    fill_one(&labels.created_pane, &json_str_or_num(val, "session_id"))
}

/// A pane that was closed, in a line.
pub fn format_closed_pane(pane_id: &String, labels: &OutputLabels) -> (r: String)
    ensures
        r@ == filled(labels.pane_closed@, seq![pane_id@]),
{
    fill_one(&labels.pane_closed, pane_id)
}

// ---------------------------------------------------------------------------
// Laws
// ---------------------------------------------------------------------------

/// A list is shown under its heading, one line for each thing in it and in its
/// order; an empty one is said to be empty. An answer without the list is shown as
/// it is.
pub proof fn law_a_list_is_shown_line_by_line(
    listing: Listing,
    val: JsonView,
    labels: OutputLabels,
    items: Seq<JsonView>,
    i: int,
)
    requires
        val.list_member(
            match listing {
                Listing::Windows => "windows"@,
                Listing::Tabs => "tabs"@,
                Listing::Panes => "panes"@,
            },
        ) == Some(items),
    ensures
        ({
            let shown = listing.shown(val, labels);
            let heading = match listing {
                Listing::Windows => labels.windows_header,
                Listing::Tabs => labels.tabs_header,
                Listing::Panes => labels.panes_header,
            };
            let nothing = match listing {
                Listing::Windows => labels.no_windows,
                Listing::Tabs => labels.no_tabs,
                Listing::Panes => labels.no_panes,
            };
            &&& shown is Some
            &&& items.len() == 0 ==> shown->0 == seq![filled(nothing@, seq![])]
            &&& items.len() > 0 ==> shown->0.len() == items.len() + 1 && shown->0[0] == filled(
                heading@,
                seq![],
            )
            &&& 0 <= i < items.len() ==> shown->0[i + 1] == listing.line(items[i])
        }),
{
}

/// A line begins with what it is about, an id as text or as number, and a dash
/// where there is none.
pub proof fn law_a_line_begins_with_its_id(item: JsonView, id: Seq<char>)
    ensures
        item.member("window_id"@) == Some(JsonView::Text(id)) ==> id.is_prefix_of(
            Listing::Windows.line(item),
        ),
        item.member("tab_id"@) == Some(JsonView::Text(id)) || item.member("tab_id"@) == Some(
            JsonView::Number(id),
        ) ==> id.is_prefix_of(Listing::Tabs.line(item)),
        item.member("session_id"@) == Some(JsonView::Text(id)) || item.member("session_id"@) == Some(
            JsonView::Number(id),
        ) ==> id.is_prefix_of(Listing::Panes.line(item)),
        item.member("tab_id"@) is None ==> "-"@.is_prefix_of(Listing::Tabs.line(item)),
        item.member("session_id"@) is None ==> "-"@.is_prefix_of(Listing::Panes.line(item)),
{
    law_padding_adds_blanks(label_or_dash(item, "window_id"@), 12);
    law_padding_adds_blanks(label_or_dash(item, "tab_id"@), 10);
    law_padding_adds_blanks(label_or_dash(item, "session_id"@), 10);
    lemma_prefix_of_padded(label_or_dash(item, "window_id"@), 12, Listing::Windows.line(item));
    lemma_prefix_of_padded(label_or_dash(item, "tab_id"@), 10, Listing::Tabs.line(item));
    lemma_prefix_of_padded(label_or_dash(item, "session_id"@), 10, Listing::Panes.line(item));
}

proof fn lemma_prefix_of_padded(s: Seq<char>, width: nat, line: Seq<char>)
    requires
        padded(s, width).is_prefix_of(line),
    ensures
        s.is_prefix_of(line),
{
    law_padding_adds_blanks(s, width);
    assert(s =~= line.subrange(0, s.len() as int)) by {
        assert forall|i: int| 0 <= i < s.len() implies s[i] == line[i] by {
            assert(padded(s, width).take(s.len() as int)[i] == s[i]);
        }
    }
}

/// The window with the focus and the tab in front are marked with a star, and no
/// other is.
pub proof fn law_only_what_is_in_front_is_starred(item: JsonView)
    ensures
        ({
            let window = padded(label_or_dash(item, "window_id"@), 12) + " "@ + padded(
                text_or_dash(item, "title"@),
                30,
            ) + " "@;
            let tab = padded(label_or_dash(item, "tab_id"@), 10) + " "@ + padded(
                text_or_dash(item, "title"@),
                30,
            ) + " "@;
            let focused = item.member("is_focused"@) == Some(JsonView::Bool(true));
            let active = item.member("is_active"@) == Some(JsonView::Bool(true));
            &&& focused ==> Listing::Windows.line(item) == window + "*"@
            &&& !focused ==> Listing::Windows.line(item) == window
            &&& active ==> Listing::Tabs.line(item) == tab + "*"@
            &&& !active ==> Listing::Tabs.line(item) == tab
        }),
{
    let window = padded(label_or_dash(item, "window_id"@), 12) + " "@ + padded(
        text_or_dash(item, "title"@),
        30,
    ) + " "@;
    let tab = padded(label_or_dash(item, "tab_id"@), 10) + " "@ + padded(
        text_or_dash(item, "title"@),
        30,
    ) + " "@;
    assert(window + Seq::<char>::empty() =~= window);
    assert(tab + Seq::<char>::empty() =~= tab);
}

/// A pane that runs is said to run, by its process; any other is said to have ended,
/// with its code.
pub proof fn law_a_pane_is_said_to_run_while_it_does(
    val: JsonView,
    labels: OutputLabels,
)
    ensures
        ({
            let pid = match val.whole_member("pid"@) {
                Some(n) => decimal(n),
                None => "-"@,
            };
            let code = match val.signed_member("exit_code"@) {
                Some(n) => decimal_int(n),
                None => "-"@,
            };
            &&& val.member("state"@) == Some(JsonView::Text("running"@)) ==> status_said(val, labels)
                == filled(labels.pane_running@, seq![pid])
            &&& val.member("state"@) != Some(JsonView::Text("running"@)) ==> status_said(val, labels)
                == filled(labels.pane_exited@, seq![code, pid])
        }),
{
}

} // verus!
