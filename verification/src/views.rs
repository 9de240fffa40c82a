use vstd::prelude::*;

use crate::keys::decimal;
use crate::list_with_details::{
    decimal_digits, option_view, pretty_json, pretty_json_text, selection_number, views, ListPane,
};
use crate::text::{concat, string_of};
use vstd::string::StringExecFns;

verus! {

/// What the details area of a view shows, under its title: nothing more, the selected
/// document laid out for reading (none where it is no JSON), a text, or why it failed.
#[derive(Debug, PartialEq, Eq)]
pub enum ViewDetails {
    Blank { title: String },
    Document { title: String, text: Option<String> },
    Text { title: String, text: String },
    Failed { title: String, message: String },
}

/// The state of a details view: why loading failed, loading, or the items loaded (each a key
/// and its JSON document, in order) with the selected one.
pub enum ViewState {
    Error(String),
    Loading,
    Loaded { items: Vec<(String, String)>, selected: Option<usize> },
}

/// A list of JSON documents by key, beside the details of the selected one.
pub struct DetailsView {
    pub list_title: String,
    pub details_title: String,
    pub state: ViewState,
}

/// The keys of a list of items.
pub open spec fn item_keys(items: Seq<(String, String)>) -> Seq<Seq<char>> {
    items.map_values(|item: (String, String)| item.0@)
}

/// A title that counts the lines of a list: `title (selected/total)`, the selected line counted
/// from one, or zero when none is.
pub open spec fn counted_title(title: Seq<char>, selected: Option<usize>, total: nat) -> Seq<char> {
    title + " ("@ + decimal(selection_number(selected)) + "/"@ + decimal(total) + ")"@
}

/// The list pane of lines `lines` under a counting title, nothing dimmed or filtered.
pub open spec fn counted_list(pane: ListPane, title: Seq<char>, lines: Seq<Seq<char>>, sel: Option<usize>) -> bool {
    pane matches ListPane::Items { title: t, filter_title, lines: l, selected, dimmed } && t@ == counted_title(
        title,
        sel,
        lines.len(),
    ) && filter_title is None && views(l@) == lines && selected == sel && !dimmed
}

/// A details pane showing only its title.
pub open spec fn blank_details(pane: ViewDetails, title: Seq<char>) -> bool {
    pane matches ViewDetails::Blank { title: t } && t@ == title
}

/// Whether `list` and `details` are what a details view shows: why loading failed or that it
/// is loading, with an empty details pane; or the keys with the selected one, beside the
/// selected document laid out for reading.
pub open spec fn details_view_panes(v: DetailsView, list: ListPane, details: ViewDetails) -> bool {
    match v.state {
        ViewState::Error(m) => (list matches ListPane::Failed { title, message } && title@ == "Loading "@
            + v.list_title@ + " failed"@ && message@ == m@) && blank_details(details, v.details_title@),
        ViewState::Loading => (list matches ListPane::Loading { title } && title@ == "Loading "@ + v.list_title@
            + "..."@) && blank_details(details, v.details_title@),
        ViewState::Loaded { items, selected } => counted_list(list, v.list_title@, item_keys(items@), selected)
            && match selected {
            Some(i) => details matches ViewDetails::Document { title, text } && title@ == v.details_title@
                && option_view(text) == pretty_json_text(items@[i as int].1@),
            None => blank_details(details, v.details_title@),
        },
    }
}

/// The lines of a list: copies of the given texts.
fn copy_lines(texts: &Vec<String>) -> (lines: Vec<String>)
    ensures
        views(lines@) == views(texts@),
{
    let mut lines: Vec<String> = Vec::new();
    let mut i: usize = 0;
    while i < texts.len()
        invariant
            i <= texts@.len(),
            views(lines@) == views(texts@.take(i as int)),
        decreases texts@.len() - i,
    {
        let ghost before = lines@;
        lines.push(texts[i].clone());
        assert(views(texts@.take(i + 1)) =~= views(texts@.take(i as int)).push(texts@[i as int]@));
        assert(views(lines@) =~= views(before).push(texts@[i as int]@));
        i = i + 1;
    }
    assert(texts@.take(texts@.len() as int) =~= texts@);
    lines
}

/// The title `title (selected/total)`.
fn counted_title_of(title: &str, selected: Option<usize>, total: usize) -> (s: String)
    ensures
        s@ == counted_title(title@, selected, total as nat),
{
    let number: u128 = match selected {
        Some(i) => i as u128 + 1,
        None => 0,
    };
    let n = decimal_digits(number);
    let t = decimal_digits(total as u128);
    let t1 = concat(title, " (");
    let t2 = concat(t1.as_str(), string_of(n.as_slice()).as_str());
    let t3 = concat(t2.as_str(), "/");
    let t4 = concat(t3.as_str(), string_of(t.as_slice()).as_str());
    concat(t4.as_str(), ")")
}

impl DetailsView {
    /// What the view shows (see `details_view_panes`).
    pub fn panes(&self) -> (r: (ListPane, ViewDetails))
        requires
            self.state matches ViewState::Loaded { items, selected: Some(i) } ==> i < items@.len(),
        ensures
            details_view_panes(*self, r.0, r.1),
    {
        match &self.state {
            ViewState::Error(msg) => {
                let t = concat("Loading ", self.list_title.as_str());
                (
                    ListPane::Failed { title: concat(t.as_str(), " failed"), message: msg.clone() },
                    ViewDetails::Blank { title: self.details_title.clone() },
                )
            },
            ViewState::Loading => {
                let t = concat("Loading ", self.list_title.as_str());
                (ListPane::Loading { title: concat(t.as_str(), "...") }, ViewDetails::Blank { title: self.details_title.clone() })
            },
            ViewState::Loaded { items, selected } => {
                let mut keys: Vec<String> = Vec::new();
                let mut i: usize = 0;
                while i < items.len()
                    invariant
                        i <= items@.len(),
                        views(keys@) == item_keys(items@.take(i as int)),
                    decreases items@.len() - i,
                {
                    let ghost before = keys@;
                    keys.push(items[i].0.clone());
                    assert(item_keys(items@.take(i + 1)) =~= item_keys(items@.take(i as int)).push(items@[i as int].0@));
                    assert(views(keys@) =~= views(before).push(items@[i as int].0@));
                    i = i + 1;
                }
                assert(items@.take(items@.len() as int) =~= items@);
                let title = counted_title_of(self.list_title.as_str(), *selected, items.len());
                let list = ListPane::Items { title, filter_title: None, lines: keys, selected: *selected, dimmed: false };
                let details = match selected {
                    Some(i) => ViewDetails::Document {
                        title: self.details_title.clone(),
                        text: pretty_json(items[*i].1.as_str()),
                    },
                    None => ViewDetails::Blank { title: self.details_title.clone() },
                };
                (list, details)
            },
        }
    }
}

/// The clients view: the ids of the connected clients, the selected one, and the details
/// loaded so far (or why loading them failed), by client id.
pub struct ClientsView {
    pub client_ids: Vec<String>,
    pub selected: Option<usize>,
    pub client_details: Vec<(String, Result<String, String>)>,
    pub is_loading_client_ids: bool,
    pub clients_loading_error: Option<String>,
}

/// The details loaded for the client `id`: those of the first entry for it.
pub open spec fn details_for(details: Seq<(String, Result<String, String>)>, id: Seq<char>) -> Option<Result<String, String>>
    decreases details.len(),
{
    if details.len() == 0 {
        None
    } else if details[0].0@ == id {
        Some(details[0].1)
    } else {
        details_for(details.drop_first(), id)
    }
}

/// Whether `list`, `details` and `load` are what the clients view shows and asks for: that
/// the ids are loading, or why that failed; else the ids with the selected one, beside the
/// details of the selected client, or why loading them failed, or, while they are not
/// loaded, an empty pane and a request to load them.
pub open spec fn clients_panes_of(v: ClientsView, list: ListPane, details: ViewDetails, load: Option<String>) -> bool {
    if v.is_loading_client_ids {
        (list matches ListPane::Loading { title } && title@ == "Loading Clients..."@) && blank_details(
            details,
            "Details"@,
        ) && load is None
    } else if v.clients_loading_error is Some {
        (list matches ListPane::Failed { title, message } && title@ == "Loading Clients failed"@ && message@
            == v.clients_loading_error.unwrap()@) && blank_details(details, "Details"@) && load is None
    } else {
        counted_list(list, "Clients"@, views(v.client_ids@), v.selected) && match v.selected {
            None => blank_details(details, "Details"@) && load is None,
            Some(i) => match details_for(v.client_details@, v.client_ids@[i as int]@) {
                None => blank_details(details, "Details"@) && (load matches Some(id) && id@
                    == v.client_ids@[i as int]@),
                Some(Ok(d)) => (details matches ViewDetails::Text { title, text } && title@ == "Details"@ && text@
                    == d@) && load is None,
                Some(Err(e)) => (details matches ViewDetails::Failed { title, message } && title@
                    == "Loading Client Details failed"@ && message@ == e@) && load is None,
            },
        }
    }
}

/// Where the details loaded for the client `id` are kept (see `details_for`).
fn find_details(details: &Vec<(String, Result<String, String>)>, id: &str) -> (r: Option<usize>)
    ensures
        match r {
            Some(k) => k < details@.len() && details_for(details@, id@) == Some(details@[k as int].1),
            None => details_for(details@, id@) is None,
        },
{
    let wanted = crate::text::chars_of(id);
    let mut i: usize = 0;
    assert(details@.skip(0) =~= details@);
    while i < details.len()
        invariant
            i <= details@.len(),
            wanted@ == id@,
            details_for(details@, id@) == details_for(details@.skip(i as int), id@),
        decreases details@.len() - i,
    {
        assert(details@.skip(i as int)[0] == details@[i as int]);
        if crate::text::chars_equal(crate::text::chars_of(details[i].0.as_str()).as_slice(), wanted.as_slice()) {
            return Some(i);
        }
        assert(details@.skip(i as int).drop_first() =~= details@.skip(i + 1));
        i = i + 1;
    }
    None
}

impl ClientsView {
    /// What the view shows, and the id of the client whose details it asks to load, if any
    /// (see `clients_panes_of`).
    pub fn panes(&self) -> (r: (ListPane, ViewDetails, Option<String>))
        requires
            self.selected matches Some(i) ==> i < self.client_ids@.len(),
        ensures
            clients_panes_of(*self, r.0, r.1, r.2),
    {
        if self.is_loading_client_ids {
            return (
                ListPane::Loading { title: String::from_str("Loading Clients...") },
                ViewDetails::Blank { title: String::from_str("Details") },
                None,
            );
        }
        if let Some(msg) = &self.clients_loading_error {
            return (
                ListPane::Failed { title: String::from_str("Loading Clients failed"), message: msg.clone() },
                ViewDetails::Blank { title: String::from_str("Details") },
                None,
            );
        }
        let lines = copy_lines(&self.client_ids);
        let title = counted_title_of("Clients", self.selected, self.client_ids.len());
        let list = ListPane::Items { title, filter_title: None, lines, selected: self.selected, dimmed: false };
        match self.selected {
            None => (list, ViewDetails::Blank { title: String::from_str("Details") }, None),
            Some(i) => match find_details(&self.client_details, self.client_ids[i].as_str()) {
                None => (list, ViewDetails::Blank { title: String::from_str("Details") }, Some(self.client_ids[i].clone())),
                Some(k) => match &self.client_details[k].1 {
                    Ok(d) => (list, ViewDetails::Text { title: String::from_str("Details"), text: d.clone() }, None),
                    Err(e) => (
                        list,
                        ViewDetails::Failed { title: String::from_str("Loading Client Details failed"), message: e.clone() },
                        None,
                    ),
                },
            },
        }
    }
}

} // verus!
