use vstd::prelude::*;

use indexmap::IndexSet;

use crate::action::{Action, ListWithDetailsAction};
use crate::editor::{is_navigation_key, spec_remap_key, Editor, EditorView};
use crate::filter_popup::{filter_key_result, initial_filter_popup, FilterField, FilterPopup};
use crate::keys::{decimal, digit_char, KeyEvent};
use crate::mode::Mode;
use crate::popup::{ConfirmPopup, ErrorPopup};
use crate::repository::{find_all_sql, find_all_statement, find_by_sql, find_by_statement, Repository};
use crate::text::{concat, string_of};
use vstd::string::StringExecFns;

verus! {

#[verifier::external_type_specification]
#[verifier::external_body]
#[verifier::reject_recursive_types(T)]
#[verifier::reject_recursive_types(S)]
pub struct ExIndexSet<T, S>(IndexSet<T, S>);

/// The items of an `IndexSet` of strings, in their order.
pub uninterp spec fn index_set_items(s: IndexSet<String>) -> Seq<Seq<char>>;

/// A new empty set (`IndexSet::new`).
#[verifier::external_body]
fn index_set_new() -> (s: IndexSet<String>)
    ensures
        index_set_items(s) == Seq::<Seq<char>>::empty(),
{
    IndexSet::new()
}

/// Adds a value at the end unless an equal value is in the set already (`IndexSet::insert`);
/// tells whether it was added.
#[verifier::external_body]
fn index_set_insert(s: &mut IndexSet<String>, value: String) -> (added: bool)
    ensures
        added == !index_set_items(*old(s)).contains(value@),
        index_set_items(*final(s)) == if added {
            index_set_items(*old(s)).push(value@)
        } else {
            index_set_items(*old(s))
        },
{
    s.insert(value)
}

/// Removes the value equal to `value`, moving the later ones one place forward
/// (`IndexSet::shift_remove_full`); gives the position it had and the value removed.
#[verifier::external_body]
fn index_set_shift_remove_full(s: &mut IndexSet<String>, value: &String) -> (r: Option<(usize, String)>)
    ensures
        match r {
            Some((i, v)) => {
                &&& i < index_set_items(*old(s)).len()
                &&& index_set_items(*old(s))[i as int] == value@
                &&& v@ == value@
                &&& index_set_items(*final(s)) == index_set_items(*old(s)).remove(i as int)
            },
            None => !index_set_items(*old(s)).contains(value@) && index_set_items(*final(s))
                == index_set_items(*old(s)),
        },
{
    s.shift_remove_full(value)
}

/// The value at position `i` (`IndexSet::get_index`), copied.
#[verifier::external_body]
fn index_set_get_index(s: &IndexSet<String>, i: usize) -> (r: Option<String>)
    ensures
        match r {
            Some(v) => i < index_set_items(*s).len() && v@ == index_set_items(*s)[i as int],
            None => i >= index_set_items(*s).len(),
        },
{
    s.get_index(i).cloned()
}

/// The position of the value equal to `value` (`IndexSet::get_index_of`).
#[verifier::external_body]
fn index_set_get_index_of(s: &IndexSet<String>, value: &String) -> (r: Option<usize>)
    ensures
        match r {
            Some(i) => i < index_set_items(*s).len() && index_set_items(*s)[i as int] == value@,
            None => !index_set_items(*s).contains(value@),
        },
{
    s.get_index_of(value)
}

/// The value in the set equal to `value` (`IndexSet::get`), copied.
#[verifier::external_body]
fn index_set_get(s: &IndexSet<String>, value: &str) -> (r: Option<String>)
    ensures
        match r {
            Some(v) => index_set_items(*s).contains(value@) && v@ == value@,
            None => !index_set_items(*s).contains(value@),
        },
{
    s.get(value).cloned()
}

/// What a list offers beyond browsing: deleting, creating and updating items.
#[derive(Debug, Clone, Copy, PartialEq, Eq, Structural)]
pub struct Features {
    pub deletable: bool,
    pub creatable: bool,
    pub updatable: bool,
}

/// Builds `Features`; each call switches one feature on.
#[derive(Debug, Clone, Copy, PartialEq, Eq, Structural)]
pub struct FeaturesBuilder {
    deletable: bool,
    creatable: bool,
    updatable: bool,
}

impl Features {
    /// A builder with every feature off.
    pub fn builder() -> (b: FeaturesBuilder)
        ensures
            b.spec_build() == (Features { deletable: false, creatable: false, updatable: false }),
    {
        FeaturesBuilder { deletable: false, creatable: false, updatable: false }
    }
}

impl FeaturesBuilder {
    pub closed spec fn spec_build(self) -> Features {
        Features { deletable: self.deletable, creatable: self.creatable, updatable: self.updatable }
    }

    pub fn deletable(self) -> (b: FeaturesBuilder)
        ensures
            b.spec_build() == (Features { deletable: true, ..self.spec_build() }),
    {
        FeaturesBuilder { deletable: true, ..self }
    }

    pub fn creatable(self) -> (b: FeaturesBuilder)
        ensures
            b.spec_build() == (Features { creatable: true, ..self.spec_build() }),
    {
        FeaturesBuilder { creatable: true, ..self }
    }

    pub fn updatable(self) -> (b: FeaturesBuilder)
        ensures
            b.spec_build() == (Features { updatable: true, ..self.spec_build() }),
    {
        FeaturesBuilder { updatable: true, ..self }
    }

    pub fn build(self) -> (f: Features)
        ensures
            f == self.spec_build(),
    {
        Features { deletable: self.deletable, creatable: self.creatable, updatable: self.updatable }
    }
}

/// What has the focus in a loaded list: the list itself (with the selected line, if any),
/// an editor on the selected item (remembering the selected line), or an error shown in
/// place of the details.
#[derive(Debug)]
pub enum FocusMode {
    Scrolling(Option<usize>),
    Editing { list_state: Option<usize>, editor: Editor },
    DetailsError { title: String, message: String },
}

/// Whether the items of a list failed to load, are loading, or are loaded. A loaded list
/// keeps the ids of its items, each once and in order, and the lines it shows.
#[derive(Debug)]
pub enum LoadingState {
    LoadingError(String),
    Loading,
    Loaded { items: IndexSet<String>, list: Vec<String>, focus_mode: FocusMode, filter: Option<String> },
}

/// A popup shown over a list. The filter popup keeps the text typed into it.
#[derive(Debug)]
#[allow(inconsistent_fields)]
pub enum ListPopup {
    DeletePopup { popup: ConfirmPopup, item_id: String },
    ErrorPopup { popup: ErrorPopup },
    FilterPopup { popup: FilterPopup, text: String },
}

/// Where a key press goes.
#[derive(Debug, Clone, Copy, PartialEq, Eq, Structural)]
pub enum KeyRoute {
    /// Nowhere.
    Nothing,
    /// To a text field of the filter popup.
    Filter(FilterField, KeyEvent),
    /// To the editor of a new item.
    NewItemEditor(KeyEvent),
    /// To the editor shown in place of the details.
    DetailsEditor(KeyEvent),
}

/// The focus of a loaded list as the contracts see it.
pub enum FocusView {
    Scrolling(Option<usize>),
    Editing { list_state: Option<usize>, editor: EditorView },
    DetailsError { title: Seq<char>, message: Seq<char> },
}

/// A popup as the contracts see it.
pub enum PopupView {
    Delete { title: Seq<char>, message: Seq<char>, item_id: Seq<char> },
    Error { title: Seq<char>, message: Seq<char> },
    Filter { popup: FilterPopup, text: Seq<char> },
}

/// The state of a list as the contracts see it. `items` are the ids of the items, in order
/// and each once; `list` are the lines shown.
pub enum StateView {
    LoadingError(Seq<char>),
    Loading,
    Loaded { items: Seq<Seq<char>>, list: Seq<Seq<char>>, focus_mode: FocusView, filter: Option<Seq<char>> },
}

/// A list as the contracts see it.
pub struct ListView {
    pub list_title: Seq<char>,
    pub item_name: Seq<char>,
    pub features: Features,
    pub base_mode: Mode,
    pub state: StateView,
    pub new_item_editor: Option<EditorView>,
    pub popup: Option<PopupView>,
    /// The repository that keeps the items.
    pub repository: Repository,
}

impl View for FocusMode {
    type V = FocusView;

    open spec fn view(&self) -> FocusView {
        match self {
            FocusMode::Scrolling(s) => FocusView::Scrolling(*s),
            FocusMode::Editing { list_state, editor } => FocusView::Editing { list_state: *list_state, editor: editor@ },
            FocusMode::DetailsError { title, message } => FocusView::DetailsError { title: title@, message: message@ },
        }
    }
}

impl View for ListPopup {
    type V = PopupView;

    open spec fn view(&self) -> PopupView {
        match self {
            ListPopup::DeletePopup { popup, item_id } => PopupView::Delete {
                title: popup.title@,
                message: popup.message@,
                item_id: item_id@,
            },
            ListPopup::ErrorPopup { popup } => PopupView::Error { title: popup.title@, message: popup.message@ },
            ListPopup::FilterPopup { popup, text } => PopupView::Filter { popup: *popup, text: text@ },
        }
    }
}

/// A list of items, each shown with its details, of one kind (schemas, scripts, policies, ...).
/// The items themselves are kept as JSON documents in a repository; the list holds their ids.
pub struct ListWithDetails {
    list_title: String,
    item_name: String,
    features: Features,
    repository: Repository,
    base_mode: Mode,
    loading_state: LoadingState,
    new_item_editor: Option<Editor>,
    popup: Option<ListPopup>,
    /// The last query that filtered the list, as handed to the repository.
    last_query: Ghost<Option<Seq<char>>>,
    /// The entry (id and JSON document) that the last inspection read from the repository.
    last_read: Ghost<Option<(Seq<char>, Seq<char>)>>,
}

pub open spec fn option_view(o: Option<String>) -> Option<Seq<char>> {
    match o {
        Some(s) => Some(s@),
        None => None,
    }
}

pub open spec fn editor_option_view(o: Option<Editor>) -> Option<EditorView> {
    match o {
        Some(e) => Some(e@),
        None => None,
    }
}

pub open spec fn popup_option_view(o: Option<ListPopup>) -> Option<PopupView> {
    match o {
        Some(p) => Some(p@),
        None => None,
    }
}

pub open spec fn views(v: Seq<String>) -> Seq<Seq<char>> {
    v.map_values(|s: String| s@)
}

/// The values of `s` in order, each only at its first occurrence.
pub open spec fn dedup(s: Seq<Seq<char>>) -> Seq<Seq<char>>
    decreases s.len(),
{
    if s.len() == 0 {
        Seq::empty()
    } else {
        let d = dedup(s.drop_last());
        if d.contains(s.last()) {
            d
        } else {
            d.push(s.last())
        }
    }
}

/// The mode a list returns to, from its features: full when it can create and delete,
/// read-and-delete when it can delete, read-only otherwise.
pub open spec fn default_base_mode(features: Features) -> Mode {
    if features.creatable && features.deletable {
        Mode::FullTab
    } else if features.deletable {
        Mode::ReadDeleteTab
    } else {
        Mode::ReadTab
    }
}

/// The list `v` in the state `state`.
pub open spec fn with_state(v: ListView, state: StateView) -> ListView {
    ListView { state, ..v }
}

/// The state of a loaded list showing `new_items` (each id once), nothing selected.
pub open spec fn loaded_items(new_items: Seq<Seq<char>>, filter: Option<Seq<char>>) -> StateView {
    StateView::Loaded {
        items: dedup(new_items),
        list: new_items,
        focus_mode: FocusView::Scrolling(None),
        filter,
    }
}

/// The state of an empty loaded list, with nothing selected.
pub open spec fn empty_loaded() -> StateView {
    loaded_items(Seq::empty(), None)
}

/// Whether `state` is a loaded list just filled from the repository: its ids are its lines,
/// each once, nothing is selected, and it is filtered by `filter`.
pub open spec fn freshly_loaded(state: StateView, filter: Option<Seq<char>>) -> bool {
    state matches StateView::Loaded { items, list, focus_mode, filter: f } && items == dedup(list)
        && focus_mode == FocusView::Scrolling(None) && f == filter
}

/// The selection after the item at `index` was removed and `n` lines are left: it moves
/// to the line before when `index` is past the last line, and there is none when no line is
/// left.
pub open spec fn selection_after_remove(selected: Option<usize>, index: usize, n: nat) -> Option<usize> {
    if n == 0 {
        None
    } else if index > n - 1 {
        Some((index - 1) as usize)
    } else {
        selected
    }
}

/// The state after the item `key` was removed from it.
pub open spec fn state_after_remove(state: StateView, key: Seq<char>) -> StateView {
    match state {
        StateView::Loaded { items, list, focus_mode, filter } => if !items.contains(key) {
            state
        } else {
            let index = items.index_of(key);
            let list2 = list.remove(index);
            let focus2 = match focus_mode {
                FocusView::Scrolling(s) => FocusView::Scrolling(
                    selection_after_remove(s, index as usize, list2.len()),
                ),
                FocusView::Editing { list_state, editor } => FocusView::Editing {
                    list_state: selection_after_remove(list_state, index as usize, list2.len()),
                    editor,
                },
                other => other,
            };
            StateView::Loaded { items: items.remove(index), list: list2, focus_mode: focus2, filter }
        },
        _ => state,
    }
}

/// The state after the id `key` was added to it, at the end, unless it is there already.
pub open spec fn state_after_put(state: StateView, key: Seq<char>) -> StateView {
    match state {
        StateView::Loaded { items, list, focus_mode, filter } => if items.contains(key) {
            state
        } else {
            StateView::Loaded { items: items.push(key), list: list.push(key), focus_mode, filter }
        },
        _ => state,
    }
}

/// The state with an error shown in place of the details, if it is loaded.
pub open spec fn state_with_details_error(state: StateView, title: Seq<char>, message: Seq<char>) -> StateView {
    match state {
        StateView::Loaded { items, list, filter, .. } => StateView::Loaded {
            items,
            list,
            focus_mode: FocusView::DetailsError { title, message },
            filter,
        },
        _ => state,
    }
}

/// The state with the item `key` selected, scrolling, if it is loaded; nothing is selected
/// when `key` is not one of its ids.
pub open spec fn state_with_selected(state: StateView, key: Seq<char>) -> StateView {
    match state {
        StateView::Loaded { items, list, filter, .. } => StateView::Loaded {
            items,
            list,
            focus_mode: FocusView::Scrolling(
                if items.contains(key) {
                    Some(items.index_of(key) as usize)
                } else {
                    None
                },
            ),
            filter,
        },
        _ => state,
    }
}

/// The state when browsing the list again: a selection kept by an editor returns,
/// otherwise nothing is selected; an error in place of the details stays.
pub open spec fn state_after_scrolling(state: StateView) -> StateView {
    match state {
        StateView::Loaded { items, list, focus_mode, filter } => StateView::Loaded {
            items,
            list,
            focus_mode: match focus_mode {
                FocusView::Scrolling(_) => FocusView::Scrolling(None),
                FocusView::Editing { list_state, .. } => FocusView::Scrolling(list_state),
                other => other,
            },
            filter,
        },
        _ => state,
    }
}

/// The mode after browsing the list again: a loaded list goes back to its base mode.
pub open spec fn mode_after_scrolling(v: ListView, mode: Mode) -> Mode {
    if v.state is Loaded {
        v.base_mode
    } else {
        mode
    }
}

/// The line selected after moving down from `selected` in a list of `n` lines, if the
/// selection moves: the first line when none was selected.
pub open spec fn next_selection(selected: Option<usize>, n: nat) -> Option<usize> {
    match selected {
        None => if n != 0 {
            Some(0usize)
        } else {
            None
        },
        Some(i) => if i + 1 < n {
            Some((i + 1) as usize)
        } else {
            None
        },
    }
}

/// The line selected after moving up from `selected`, if the selection moves.
pub open spec fn prev_selection(selected: Option<usize>) -> Option<usize> {
    match selected {
        Some(i) => if i > 0 {
            Some((i - 1) as usize)
        } else {
            None
        },
        None => None,
    }
}

/// Whether moving down selects another line of `state`.
pub open spec fn moves_next(state: StateView) -> bool {
    state matches StateView::Loaded { list, focus_mode: FocusView::Scrolling(s), .. }
        && next_selection(s, list.len()) is Some
}

/// Whether moving up selects another line of `state`.
pub open spec fn moves_prev(state: StateView) -> bool {
    state matches StateView::Loaded { focus_mode: FocusView::Scrolling(s), .. } && prev_selection(s) is Some
}

/// The state after moving down: the next line is selected when there is one; an error in
/// place of the details gives way to the list, with nothing selected.
pub open spec fn state_after_next(state: StateView) -> StateView {
    match state {
        StateView::Loaded { items, list, focus_mode, filter } => match focus_mode {
            FocusView::Scrolling(s) => match next_selection(s, list.len()) {
                Some(n) => StateView::Loaded { items, list, focus_mode: FocusView::Scrolling(Some(n)), filter },
                None => state,
            },
            FocusView::DetailsError { .. } => StateView::Loaded {
                items,
                list,
                focus_mode: FocusView::Scrolling(None),
                filter,
            },
            _ => state,
        },
        _ => state,
    }
}

/// The state after moving up, in the same way.
pub open spec fn state_after_prev(state: StateView) -> StateView {
    match state {
        StateView::Loaded { items, list, focus_mode, filter } => match focus_mode {
            FocusView::Scrolling(s) => match prev_selection(s) {
                Some(n) => StateView::Loaded { items, list, focus_mode: FocusView::Scrolling(Some(n)), filter },
                None => state,
            },
            FocusView::DetailsError { .. } => StateView::Loaded {
                items,
                list,
                focus_mode: FocusView::Scrolling(None),
                filter,
            },
            _ => state,
        },
        _ => state,
    }
}

/// The id of the selected item, when a loaded list is browsed with a line selected that
/// has an id.
pub open spec fn selected_key(v: ListView) -> Option<Seq<char>> {
    match v.state {
        StateView::Loaded { items, focus_mode: FocusView::Scrolling(Some(i)), .. } => if i < items.len() {
            Some(items[i as int])
        } else {
            None
        },
        _ => None,
    }
}

/// The mode a popup puts the interface into.
pub open spec fn popup_mode(p: PopupView) -> Mode {
    match p {
        PopupView::Delete { .. } => Mode::ConfirmPopup,
        PopupView::Error { .. } => Mode::ErrorPopup,
        PopupView::Filter { .. } => Mode::FilterPopup,
    }
}

/// The list with its popup closed.
pub open spec fn after_exit_popup(v: ListView) -> ListView {
    ListView { popup: None, ..v }
}

/// The mode after closing the popup: the base mode, when a popup was shown.
pub open spec fn mode_after_exit_popup(v: ListView, mode: Mode) -> Mode {
    if v.popup is Some {
        v.base_mode
    } else {
        mode
    }
}

/// Lays a JSON document out for reading, as `serde_json` pretty-prints it; there is none when
/// the text is not JSON.
pub uninterp spec fn pretty_json_text(json: Seq<char>) -> Option<Seq<char>>;

/// Lays out the JSON document `json` for reading: `serde_json::to_string_pretty` of the
/// `serde_json::Value` that `serde_json::from_str` reads from `json` (its objects keep their
/// keys in the order of the text), or none when either fails. The contract ties the result to
/// `json` by the name `pretty_json_text`; the layout itself is left unsaid.
#[verifier::external_body]
pub(crate) fn pretty_json(json: &str) -> (r: Option<String>)
    ensures
        option_view(r) == pretty_json_text(json@),
{
    let value: serde_json::Value = serde_json::from_str(json).ok()?;
    serde_json::to_string_pretty(&value).ok()
}

/// The editor that shows `details` of the selected item of `v`: one that may change them,
/// titled for an update, when the items can be updated; otherwise a read-only one with the
/// focus, titled with the item name.
pub open spec fn details_editor(v: ListView, details: Seq<char>) -> EditorView {
    if v.features.updatable {
        EditorView { title: "Update "@ + v.item_name, text: details, readonly: false, focused: false }
    } else {
        EditorView { title: v.item_name, text: details, readonly: true, focused: true }
    }
}

/// The list showing `details` in an editor in place of the details of the selected line,
/// which stays remembered; a list browsed with nothing selected, or not browsed, is left as it
/// is.
pub open spec fn after_show_details(v: ListView, details: Seq<char>) -> ListView {
    match v.state {
        StateView::Loaded { items, list, focus_mode: FocusView::Scrolling(Some(sel)), filter } => with_state(
            v,
            StateView::Loaded {
                items,
                list,
                focus_mode: FocusView::Editing { list_state: Some(sel), editor: details_editor(v, details) },
                filter,
            },
        ),
        _ => v,
    }
}

/// The mode after showing details: the update editor's or the read-only editor's.
pub open spec fn mode_after_show_details(v: ListView, mode: Mode) -> Mode {
    if v.state matches StateView::Loaded { focus_mode: FocusView::Scrolling(Some(_)), .. } {
        if v.features.updatable {
            Mode::UpdateEditor
        } else {
            Mode::EditorReadOnly
        }
    } else {
        mode
    }
}

/// The text of the editor shown in place of the details, if any.
pub open spec fn shown_details(v: ListView) -> Seq<char> {
    match v.state {
        StateView::Loaded { focus_mode: FocusView::Editing { editor, .. }, .. } => editor.text,
        _ => Seq::empty(),
    }
}

/// What inspecting the selected item does: nothing, or (when an item is selected) it shows
/// in an editor some JSON document laid out for reading.
pub open spec fn inspect_post(old: ListView, new: ListView, old_mode: Mode, new_mode: Mode) -> bool {
    ||| new == old && new_mode == old_mode
    ||| selected_key(old) is Some && new == after_show_details(old, shown_details(new))
        && new_mode == mode_after_show_details(old, old_mode) && exists|json: Seq<char>|
        #[trigger] pretty_json_text(json) == Some(shown_details(new))
}

/// What inspecting reads and shows: when it changed the list, it read an entry `(k, d)` from
/// the repository under the selected id `k` and shows its document `d` laid out.
pub open spec fn inspect_read_post(old: ListView, new: ListView, old_mode: Mode, new_mode: Mode, read: Option<(Seq<char>, Seq<char>)>) -> bool {
    &&& read matches Some((k, d)) ==> selected_key(old) == Some(k) && new == after_show_document(old, d) && new_mode
        == mode_after_show_document(old, d, old_mode)
    &&& new != old ==> read is Some
}

/// Inspecting shows the selected item's document: an inspection that changed the list read the
/// entry of the selected id, and the editor holds that entry's document laid out for reading.
pub proof fn lemma_inspect_shows_selected_document(
    old: ListView,
    new: ListView,
    old_mode: Mode,
    new_mode: Mode,
    read: Option<(Seq<char>, Seq<char>)>,
)
    requires
        inspect_read_post(old, new, old_mode, new_mode, read),
        new != old,
    ensures
        read matches Some((k, d)) && selected_key(old) == Some(k) && pretty_json_text(d) == Some(shown_details(new)),
{
    let (k, d) = read->0;
    match pretty_json_text(d) {
        Some(t) => {
            assert(new == after_show_details(old, t));
            assert(shown_details(after_show_details(old, t)) == t);
        },
        None => {},
    }
}

/// The list after the JSON document `json` of the selected item was shown in an editor, laid out
/// for reading; a text that is not JSON changes nothing.
pub open spec fn after_show_document(v: ListView, json: Seq<char>) -> ListView {
    match pretty_json_text(json) {
        Some(details) => after_show_details(v, details),
        None => v,
    }
}

/// The mode after the JSON document `json` was shown.
pub open spec fn mode_after_show_document(v: ListView, json: Seq<char>, mode: Mode) -> Mode {
    match pretty_json_text(json) {
        Some(_) => mode_after_show_details(v, mode),
        None => mode,
    }
}

/// The list with `text` typed into its filter popup, when one is shown.
pub open spec fn with_filter_text(v: ListView, text: Seq<char>) -> ListView {
    match v.popup {
        Some(PopupView::Filter { popup, .. }) => ListView { popup: Some(PopupView::Filter { popup, text }), ..v },
        _ => v,
    }
}

/// The list with `text` in the editor of its new item, when one is open.
pub open spec fn with_new_item_text(v: ListView, text: Seq<char>) -> ListView {
    match v.new_item_editor {
        Some(e) => ListView { new_item_editor: Some(EditorView { text, ..e }), ..v },
        None => v,
    }
}

/// The list with `text` in the editor shown in place of the details, when one is open.
pub open spec fn with_details_text(v: ListView, text: Seq<char>) -> ListView {
    match v.state {
        StateView::Loaded { items, list, focus_mode: FocusView::Editing { list_state, editor }, filter } => with_state(
            v,
            StateView::Loaded {
                items,
                list,
                focus_mode: FocusView::Editing { list_state, editor: EditorView { text, ..editor } },
                filter,
            },
        ),
        _ => v,
    }
}

/// The list reporting that the details could not be copied to the clipboard.
pub open spec fn after_copy_failed(v: ListView, message: Seq<char>) -> ListView {
    ListView {
        popup: Some(PopupView::Error { title: "Could not copy to clipboard"@, message }),
        ..v
    }
}

/// The list after the filter `text` found the items `ids`: it shows them and the popup is
/// closed.
pub open spec fn after_filter(v: ListView, ids: Seq<Seq<char>>, text: Seq<char>) -> ListView {
    after_exit_popup(with_state(v, loaded_items(ids, Some(text))))
}

/// The ids that the repository answered, or the message of its error.
fn repository_ids(r: Result<Vec<String>, crate::repository::RepositoryError>) -> (m: Result<Vec<String>, String>)
    ensures
        match r {
            Ok(v) => m == Ok::<Vec<String>, String>(v),
            Err(_) => m is Err,
        },
{
    match r {
        Ok(v) => Ok(v),
        Err(e) => Err(e.message()),
    }
}

/// What the repository answered when asked for ids: the ids, or the message of its error.
pub open spec fn ids_view(r: Result<Vec<String>, String>) -> Result<Seq<Seq<char>>, Seq<char>> {
    match r {
        Ok(v) => Ok(views(v@)),
        Err(m) => Err(m@),
    }
}

/// The list `v` filled again with the ids that the repository answered, each once, nothing
/// selected and filtered by `filter`; or showing the repository's error in place of the list.
pub open spec fn after_reload(v: ListView, ids: Result<Seq<Seq<char>>, Seq<char>>, filter: Option<Seq<char>>) -> ListView {
    match ids {
        Ok(found) => with_state(v, loaded_items(found, filter)),
        Err(m) => with_state(v, StateView::LoadingError(m)),
    }
}

/// Whether `new` is `old` filled again from the repository, showing what it found (filtered
/// by `filter`), or an error when the repository failed.
pub open spec fn reloaded(old: ListView, new: ListView, filter: Option<Seq<char>>) -> bool {
    new == with_state(old, new.state) && (freshly_loaded(new.state, filter) || new.state is LoadingError)
}

/// What confirming the popup does: a delete popup asks for the deletion of its item, a
/// filter popup shows the items found with its text and closes, anything else does nothing.
pub open spec fn confirm_popup_post(old: ListView, new: ListView, old_mode: Mode, new_mode: Mode, r: Option<Action>) -> bool {
    match old.popup {
        Some(PopupView::Delete { item_id, .. }) => new == old && new_mode == old_mode && (r matches Some(
            Action::LWD(ListWithDetailsAction::Delete(id)),
        ) && id@ == item_id),
        Some(PopupView::Filter { text, .. }) => r is None && new_mode == mode_after_exit_popup(old, old_mode)
            && reloaded(after_exit_popup(old), new, Some(text)),
        _ => new == old && new_mode == old_mode && r is None,
    }
}

/// The list after an update of the selected item: browsing again, with the error shown in place
/// of the details when the update failed.
pub open spec fn after_item_updated(v: ListView, result: Result<String, String>) -> ListView {
    let s = with_state(v, state_after_scrolling(v.state));
    match result {
        Err(m) => with_state(s, state_with_details_error(s.state, v.item_name + " update failed"@, m@)),
        Ok(_) => s,
    }
}

/// The list after an item was created: the editor of the new item is gone; the new item is
/// added and selected when the repository has it (`stored`); a failure is shown in place of
/// the details.
pub open spec fn after_item_created(v: ListView, result: Result<String, String>, stored: bool) -> ListView {
    let s = ListView { new_item_editor: None, ..v };
    match result {
        Ok(key) => if stored {
            with_state(s, state_with_selected(state_after_put(v.state, key@), key@))
        } else {
            s
        },
        Err(m) => with_state(s, state_with_details_error(v.state, v.item_name + " creation failed"@, m@)),
    }
}

/// The request to update the item edited in place of the details with the editor's text.
pub open spec fn update_item_result(v: ListView, r: Option<Action>) -> bool {
    match v.state {
        StateView::Loaded { focus_mode: FocusView::Editing { editor, .. }, .. } => r matches Some(
            Action::LWD(ListWithDetailsAction::Update(t)),
        ) && t@ == editor.text,
        _ => r is None,
    }
}

/// The request to create an item from the text of the new item's editor.
pub open spec fn create_item_result(v: ListView, r: Option<Action>) -> bool {
    match v.new_item_editor {
        Some(e) => r matches Some(Action::LWD(ListWithDetailsAction::Create(t))) && t@ == e.text,
        None => r is None,
    }
}

/// The list with an empty editor for a new item, when items can be created.
pub open spec fn after_new_item_editor(v: ListView) -> ListView {
    if v.features.creatable {
        ListView {
            state: state_after_scrolling(v.state),
            new_item_editor: Some(
                EditorView { title: "New "@ + v.item_name, text: Seq::empty(), readonly: false, focused: false },
            ),
            ..v
        }
    } else {
        v
    }
}

/// The mode after opening the editor for a new item.
pub open spec fn mode_after_new_item_editor(v: ListView, mode: Mode) -> Mode {
    if v.features.creatable {
        Mode::CreateEditor
    } else {
        mode
    }
}

/// The list after a deletion of an item called `item_name` ended: when it is one of this
/// list's, the item is removed and the popup closed, or the failure is shown in a popup.
pub open spec fn after_item_deleted(v: ListView, item_name: Seq<char>, result: Result<String, String>) -> ListView {
    if item_name != v.item_name {
        v
    } else {
        match result {
            Ok(id) => after_exit_popup(with_state(v, state_after_remove(v.state, id@))),
            Err(m) => ListView {
                popup: Some(PopupView::Error { title: "Deletion failed"@, message: "Failed deletion of item:\n"@ + m@ }),
                ..v
            },
        }
    }
}

/// The mode after a deletion ended.
pub open spec fn mode_after_item_deleted(v: ListView, item_name: Seq<char>, result: Result<String, String>, mode: Mode) -> Mode {
    if item_name != v.item_name {
        mode
    } else {
        match result {
            Ok(_) => mode_after_exit_popup(v, mode),
            Err(_) => Mode::ErrorPopup,
        }
    }
}

/// The list asking whether the item `id` should be deleted.
pub open spec fn after_confirm_delete(v: ListView, id: Seq<char>) -> ListView {
    ListView {
        popup: Some(
            PopupView::Delete {
                title: "Delete "@ + v.item_name + " '"@ + id + "'?"@,
                message: "Are you sure you want to delete the "@ + v.item_name + " with id '"@ + id + "'"@,
                item_id: id,
            },
        ),
        ..v
    }
}

/// What asking to delete the selected item does: when items can be deleted and one is
/// selected, nothing or (when the repository has it) a popup that asks to confirm.
pub open spec fn delete_confirmation_post(old: ListView, new: ListView, old_mode: Mode, new_mode: Mode) -> bool {
    if old.features.deletable && selected_key(old) is Some {
        ||| new == old && new_mode == old_mode
        ||| new == after_confirm_delete(old, selected_key(old)->0) && new_mode == Mode::ConfirmPopup
    } else {
        new == old && new_mode == old_mode
    }
}

/// What the end of loading does: an error is shown in place of the list, or the list is
/// filled from the repository.
pub open spec fn loading_finished_post(old: ListView, new: ListView, result: Result<(), String>) -> bool {
    match result {
        Err(m) => new == with_state(old, StateView::LoadingError(m@)),
        Ok(_) => reloaded(old, new, None),
    }
}

/// What escape does: back to browsing, without the editor of a new item; a filtered list
/// shows every item again.
pub open spec fn escape_post(old: ListView, new: ListView, old_mode: Mode, new_mode: Mode) -> bool {
    let s = ListView { state: state_after_scrolling(old.state), new_item_editor: None, ..old };
    &&& new_mode == mode_after_scrolling(old, old_mode)
    &&& if old.state matches StateView::Loaded { filter: Some(_), .. } {
        reloaded(s, new, None)
    } else {
        new == s
    }
}

/// A request to show the item that is now selected, if any.
pub open spec fn selection_result(new: ListView, r: Option<Action>) -> bool {
    r is None || (r matches Some(Action::SelectedItem(k)) && selected_key(new) == Some(k@))
}

/// Where a key goes in an editor with the view `e`: nowhere when it is read-only and the key
/// does not move around.
pub open spec fn editor_route(e: EditorView, key: KeyEvent, is_macos: bool, new_item: bool) -> KeyRoute {
    if e.readonly && !is_navigation_key(key.code) {
        KeyRoute::Nothing
    } else if new_item {
        KeyRoute::NewItemEditor(spec_remap_key(key, is_macos))
    } else {
        KeyRoute::DetailsEditor(spec_remap_key(key, is_macos))
    }
}

/// What a key press does to the list, and where the key goes: to the filter popup when it is
/// shown, else to the editor of a new item, else to the editor shown in place of the details;
/// any key clears a loading error.
pub open spec fn key_result(v: ListView, key: KeyEvent, is_macos: bool) -> (ListView, KeyRoute) {
    match v.popup {
        Some(PopupView::Filter { popup, text }) => {
            let (p2, r) = filter_key_result(popup, key, is_macos);
            (
                ListView { popup: Some(PopupView::Filter { popup: p2, text }), ..v },
                match r {
                    Some((f, k)) => KeyRoute::Filter(f, k),
                    None => KeyRoute::Nothing,
                },
            )
        },
        _ => match v.new_item_editor {
            Some(e) => (v, editor_route(e, key, is_macos, true)),
            None => match v.state {
                StateView::LoadingError(_) => (with_state(v, empty_loaded()), KeyRoute::Nothing),
                StateView::Loaded { focus_mode: FocusView::Editing { editor, .. }, .. } => (
                    v,
                    editor_route(editor, key, is_macos, false),
                ),
                _ => (v, KeyRoute::Nothing),
            },
        },
    }
}

/// What an action does to the list and the mode, and what it answers.
pub open spec fn update_post(old: ListView, new: ListView, old_mode: Mode, new_mode: Mode, action: Action, r: Option<Action>) -> bool {
    match action {
        Action::LoadAllItems => new == with_state(old, StateView::Loading) && new_mode == old_mode && r is None,
        Action::ItemsLoadingFinished { item_name, result } => new_mode == old_mode && r is None && if item_name@
            == old.item_name {
            loading_finished_post(old, new, result)
        } else {
            new == old
        },
        Action::PrevItem => new == with_state(old, state_after_prev(old.state)) && new_mode == old_mode && (
        moves_prev(old.state) || r is None) && selection_result(new, r),
        Action::NextItem => new == with_state(old, state_after_next(old.state)) && new_mode == old_mode && (
        moves_next(old.state) || r is None) && selection_result(new, r),
        Action::Inspect | Action::Enter => inspect_post(old, new, old_mode, new_mode) && r is None,
        Action::Escape => escape_post(old, new, old_mode, new_mode) && r is None,
        Action::Delete => delete_confirmation_post(old, new, old_mode, new_mode) && r is None,
        Action::Filter => new == (ListView {
            popup: Some(PopupView::Filter { popup: initial_filter_popup(), text: Seq::empty() }),
            ..old
        }) && new_mode == Mode::FilterPopup && r is None,
        Action::ItemDeleted { item_name, result } => new == after_item_deleted(old, item_name@, result) && new_mode
            == mode_after_item_deleted(old, item_name@, result, old_mode) && r is None,
        Action::NewItem => new == after_new_item_editor(old) && new_mode == mode_after_new_item_editor(old, old_mode)
            && r is None,
        Action::CreateItem => new == old && new_mode == old_mode && create_item_result(old, r),
        Action::UpdateItem => new == old && new_mode == old_mode && update_item_result(old, r),
        Action::ItemCreated { item_name, result } => r is None && if item_name@ == old.item_name {
            (new == after_item_created(old, result, true) || new == after_item_created(old, result, false))
                && new_mode == old.base_mode
        } else {
            new == old && new_mode == old_mode
        },
        Action::ItemUpdated { item_name, result } => r is None && if item_name@ == old.item_name {
            new == after_item_updated(old, result) && new_mode == mode_after_scrolling(old, old_mode)
        } else {
            new == old && new_mode == old_mode
        },
        Action::ClosePopup => new == after_exit_popup(old) && new_mode == mode_after_exit_popup(old, old_mode) && r
            is None,
        Action::ConfirmPopup => confirm_popup_post(old, new, old_mode, new_mode, r),
        _ => new == old && new_mode == old_mode && r is None,
    }
}

/// Showing a list of ids keeps each of them once: the ids of the list are distinct, and they
/// are exactly the ids shown.
pub proof fn lemma_dedup_distinct(s: Seq<Seq<char>>)
    ensures
        dedup(s).no_duplicates(),
        dedup(s).len() <= s.len(),
        forall|x: Seq<char>| s.contains(x) <==> #[trigger] dedup(s).contains(x),
    decreases s.len(),
{
    if s.len() > 0 {
        let init = s.drop_last();
        let last = s.last();
        let d = dedup(init);
        lemma_dedup_distinct(init);
        if !d.contains(last) {
            let p = d.push(last);
            assert forall|a: int, b: int| 0 <= a < p.len() && 0 <= b < p.len() && a != b implies p[a] != p[b] by {
                if a == d.len() {
                    assert(d.contains(p[b]));
                } else if b == d.len() {
                    assert(d.contains(p[a]));
                }
            }
            assert(p[d.len() as int] == last);
        }
        assert forall|x: Seq<char>| s.contains(x) <==> #[trigger] dedup(s).contains(x) by {
            if x == last {
                assert(s[s.len() - 1] == x);
                if !d.contains(last) {
                    assert(d.push(last)[d.len() as int] == last);
                }
            } else {
                if s.contains(x) {
                    let i = choose|i: int| 0 <= i < s.len() && s[i] == x;
                    assert(init[i] == x);
                    assert(init.contains(x));
                    assert(d.contains(x));
                    let j = choose|j: int| 0 <= j < d.len() && d[j] == x;
                    if !d.contains(last) {
                        assert(d.push(last)[j] == x);
                    }
                }
                if dedup(s).contains(x) {
                    let j = choose|j: int| 0 <= j < dedup(s).len() && dedup(s)[j] == x;
                    if !d.contains(last) {
                        assert(j < d.len());
                        assert(d[j] == x);
                    }
                    assert(d.contains(x));
                    assert(init.contains(x));
                    let i = choose|i: int| 0 <= i < init.len() && init[i] == x;
                    assert(s[i] == x);
                }
            }
        }
    }
}

/// Moving down and then up selects the line that was selected before.
pub proof fn lemma_next_then_prev(state: StateView)
    requires
        state matches StateView::Loaded { list, focus_mode: FocusView::Scrolling(Some(_)), .. } && list.len()
            <= usize::MAX,
        moves_next(state),
    ensures
        state_after_prev(state_after_next(state)) == state,
{
    match state {
        StateView::Loaded { items, list, focus_mode, filter } => match focus_mode {
            FocusView::Scrolling(Some(i)) => {
                assert(next_selection(Some(i), list.len()) == Some((i + 1) as usize));
                assert(prev_selection(Some((i + 1) as usize)) == Some(i));
            },
            _ => {},
        },
        _ => {},
    }
}

/// Moving up and then down selects the line that was selected before.
pub proof fn lemma_prev_then_next(state: StateView)
    requires
        state matches StateView::Loaded { list, focus_mode: FocusView::Scrolling(Some(i)), .. } && i < list.len(),
        moves_prev(state),
    ensures
        state_after_next(state_after_prev(state)) == state,
{
    match state {
        StateView::Loaded { items, list, focus_mode, filter } => match focus_mode {
            FocusView::Scrolling(Some(i)) => {
                assert(prev_selection(Some(i)) == Some((i - 1) as usize));
                assert(next_selection(Some((i - 1) as usize), list.len()) == Some(i));
            },
            _ => {},
        },
        _ => {},
    }
}

/// Adding an id that a list does not have and removing it again gives back the list's ids
/// and lines, when its lines are its ids.
pub proof fn lemma_remove_after_put(state: StateView, key: Seq<char>)
    requires
        state matches StateView::Loaded { items, list, .. } && items == list && !items.contains(key),
    ensures
        state_after_remove(state_after_put(state, key), key) matches StateView::Loaded { items, list, .. } && (
        state matches StateView::Loaded { items: items0, list: list0, .. } && items == items0 && list
            == list0),
{
    match state {
        StateView::Loaded { items, list, focus_mode, filter } => {
            let pushed = items.push(key);
            assert(pushed[items.len() as int] == key);
            assert(pushed.contains(key));
            let i = pushed.index_of(key);
            assert(0 <= i < pushed.len() && pushed[i] == key);
            if i < items.len() {
                assert(items[i] == key);
                assert(items.contains(key));
            }
            assert(i == items.len());
            assert(pushed.remove(i) =~= items);
            assert(list.push(key).remove(i) =~= list);
        },
        _ => {},
    }
}

/// An item added to a loaded list and then selected is the selected item.
pub proof fn lemma_put_then_select(v: ListView, key: Seq<char>)
    requires
        list_wf(v),
        v.state matches StateView::Loaded { items, .. } && items.len() < usize::MAX,
    ensures
        selected_key(with_state(v, state_with_selected(state_after_put(v.state, key), key))) == Some(key),
{
    match v.state {
        StateView::Loaded { items, list, focus_mode, filter } => {
            let items2 = if items.contains(key) {
                items
            } else {
                items.push(key)
            };
            assert(items2[items2.len() - 1] == key || items.contains(key));
            if !items.contains(key) {
                assert(items2[items.len() as int] == key);
            }
            assert(items2.contains(key));
            let i = items2.index_of(key);
            assert(0 <= i < items2.len() && items2[i] == key);
            assert((i as usize) as int == i);
        },
        _ => {},
    }
}

/// Closing a popup that was just shown gives back the list as it was, in its base mode.
pub proof fn lemma_popup_round_trip(v: ListView, p: PopupView)
    requires
        v.popup is None,
    ensures
        after_exit_popup(ListView { popup: Some(p), ..v }) == v,
        mode_after_exit_popup(ListView { popup: Some(p), ..v }, popup_mode(p)) == v.base_mode,
{
}

/// Confirming the popup that asks whether the item `id` should be deleted requests the
/// deletion of `id`, and changes nothing else.
pub proof fn lemma_confirm_delete_requests(v: ListView, id: Seq<char>, new: ListView, old_mode: Mode, new_mode: Mode, r: Option<Action>)
    requires
        confirm_popup_post(after_confirm_delete(v, id), new, old_mode, new_mode, r),
    ensures
        r matches Some(Action::LWD(ListWithDetailsAction::Delete(d))) && d@ == id,
        new == after_confirm_delete(v, id),
        new_mode == old_mode,
{
}

/// No action changes what a list is: its title, the name of its items, its features and its
/// base mode stay.
pub proof fn lemma_update_keeps_identity(old: ListView, new: ListView, old_mode: Mode, new_mode: Mode, action: Action, r: Option<Action>)
    requires
        update_post(old, new, old_mode, new_mode, action, r),
    ensures
        new.list_title == old.list_title,
        new.item_name == old.item_name,
        new.features == old.features,
        new.base_mode == old.base_mode,
{
}

/// A loading state as the contracts see it.
pub open spec fn state_view(s: LoadingState) -> StateView {
    match s {
        LoadingState::LoadingError(m) => StateView::LoadingError(m@),
        LoadingState::Loading => StateView::Loading,
        LoadingState::Loaded { items, list, focus_mode, filter } => StateView::Loaded {
            items: index_set_items(items),
            list: views(list@),
            focus_mode: focus_mode@,
            filter: option_view(filter),
        },
    }
}

/// The query that loading a list asks the repository: the ids of every document.
pub open spec fn every_id_query(table: Seq<char>) -> Seq<char> {
    find_all_sql("id"@, table)
}

/// The query that a filter with `text` asks the repository: the ids of the documents whose whole
/// JSON text contains `text`.
pub open spec fn filter_query(table: Seq<char>, text: Seq<char>) -> Seq<char> {
    find_by_sql("id"@, table, "$"@, text)
}

/// A filter searches whole documents: its query names the whole document (JSON path `$`) and
/// the filter's text, so it differs from the query over any other path or for any other text.
pub proof fn lemma_filter_queries_whole_documents(table: Seq<char>, text: Seq<char>, path: Seq<char>, other: Seq<char>)
    ensures
        path != "$"@ ==> filter_query(table, text) != find_by_sql("id"@, table, path, text),
        other != text ==> filter_query(table, text) != filter_query(table, other),
{
    crate::repository::lemma_find_by_targets_its_path_and_text("id"@, table, "$"@, text, path, other);
}

impl ListWithDetails {
    /// The last query that filtered the list, as handed to the repository.
    pub closed spec fn last_query(&self) -> Option<Seq<char>> {
        self.last_query@
    }

    /// The entry (id and JSON document) that the last inspection read from the repository.
    pub closed spec fn last_read(&self) -> Option<(Seq<char>, Seq<char>)> {
        self.last_read@
    }
}

impl View for ListWithDetails {
    type V = ListView;

    closed spec fn view(&self) -> ListView {
        ListView {
            list_title: self.list_title@,
            item_name: self.item_name@,
            features: self.features,
            base_mode: self.base_mode,
            state: state_view(self.loading_state),
            new_item_editor: editor_option_view(self.new_item_editor),
            popup: popup_option_view(self.popup),
            repository: self.repository,
        }
    }
}

/// Every state of a list: the ids of a loaded list are distinct, and there are no more of them
/// than lines.
pub open spec fn list_wf(v: ListView) -> bool {
    &&& match v.state {
        StateView::Loaded { items, list, .. } => items.no_duplicates() && items.len() <= list.len(),
        _ => true,
    }
    &&& v.popup matches Some(PopupView::Filter { popup, .. }) ==> popup.wf()
}

impl ListWithDetails {
    /// The list's invariant.
    pub open spec fn wf(&self) -> bool {
        list_wf(self@)
    }

    /// An empty loaded list titled `list_title` of items called `item_name`, kept in
    /// `repository`, whose base mode follows from its features.
    pub fn new(list_title: String, item_name: String, features: Features, repository: Repository) -> (l: ListWithDetails)
        ensures
            l.wf(),
            l@ == (ListView {
                list_title: list_title@,
                item_name: item_name@,
                features,
                base_mode: default_base_mode(features),
                state: empty_loaded(),
                new_item_editor: None,
                popup: None,
                repository,
            }),
    {
        let base_mode = if features.creatable && features.deletable {
            Mode::FullTab
        } else if features.deletable {
            Mode::ReadDeleteTab
        } else {
            Mode::ReadTab
        };
        let l = ListWithDetails {
            list_title,
            item_name,
            features,
            repository,
            base_mode,
            loading_state: LoadingState::Loaded {
                items: index_set_new(),
                list: Vec::new(),
                focus_mode: FocusMode::Scrolling(None),
                filter: None,
            },
            new_item_editor: None,
            popup: None,
            last_query: Ghost(None),
            last_read: Ghost(None),
        };
        assert(views(Seq::<String>::empty()) =~= Seq::<Seq<char>>::empty());
        assert(dedup(Seq::<Seq<char>>::empty()) =~= Seq::<Seq<char>>::empty());
        l
    }

    /// The same list with another base mode.
    pub fn with_base_mode(self, base_mode: Mode) -> (l: ListWithDetails)
        requires
            self.wf(),
        ensures
            l.wf(),
            l@ == (ListView { base_mode, ..self@ }),
    {
        ListWithDetails { base_mode, ..self }
    }

    /// The repository that keeps the items.
    pub fn repository(&self) -> (r: &Repository)
        ensures
            *r == self@.repository,
    {
        &self.repository
    }

    /// Empties the list: loaded, with no items and nothing selected.
    pub fn reset(&mut self)
        requires
            old(self).wf(),
        ensures
            final(self).wf(),
            final(self)@ == with_state(old(self)@, empty_loaded()),
    {
        self.loading_state = LoadingState::Loaded {
            items: index_set_new(),
            list: Vec::new(),
            focus_mode: FocusMode::Scrolling(None),
            filter: None,
        };
        assert(views(Seq::<String>::empty()) =~= Seq::<Seq<char>>::empty());
        assert(dedup(Seq::<Seq<char>>::empty()) =~= Seq::<Seq<char>>::empty());
    }

    /// Shows `new_items`, each id once, with nothing selected and the given filter.
    pub fn set_items(&mut self, new_items: Vec<String>, filter: Option<String>)
        requires
            old(self).wf(),
        ensures
            final(self).wf(),
            final(self)@ == with_state(old(self)@, loaded_items(views(new_items@), option_view(filter))),
    {
        let mut items = index_set_new();
        let mut list: Vec<String> = Vec::new();
        let mut i: usize = 0;
        while i < new_items.len()
            invariant
                i <= new_items@.len(),
                index_set_items(items) == dedup(views(new_items@.take(i as int))),
                views(list@) == views(new_items@.take(i as int)),
                dedup(views(new_items@.take(i as int))).no_duplicates(),
                dedup(views(new_items@.take(i as int))).len() <= i,
            decreases new_items@.len() - i,
        {
            let ghost before = views(new_items@.take(i as int));
            assert(views(new_items@.take(i + 1)) =~= before.push(new_items@[i as int]@));
            assert(views(new_items@.take(i + 1)).drop_last() =~= before);
            let item = new_items[i].clone();
            index_set_insert(&mut items, item);
            let ghost old_list = list@;
            list.push(new_items[i].clone());
            assert(views(list@) =~= views(old_list).push(new_items@[i as int]@));
            i = i + 1;
        }
        assert(new_items@.take(new_items@.len() as int) =~= new_items@);
        self.loading_state = LoadingState::Loaded { items, list, focus_mode: FocusMode::Scrolling(None), filter };
    }

    /// Adds the id `key` at the end of a loaded list, unless it is there already.
    pub fn put(&mut self, key: String)
        requires
            old(self).wf(),
        ensures
            final(self).wf(),
            final(self)@ == with_state(old(self)@, state_after_put(old(self)@.state, key@)),
    {
        match &mut self.loading_state {
            LoadingState::Loaded { items, list, .. } => {
                let ghost old_list = list@;
                let added = index_set_insert(items, key.clone());
                if added {
                    list.push(key);
                    assert(views(list@) =~= views(old_list).push(key@));
                }
            },
            _ => {},
        }
    }

    /// Removes the id `key` from a loaded list, and the line at its position. When that line
    /// was past the last remaining one, the selection moves to the line before it; when no line
    /// is left, nothing is selected.
    pub fn remove(&mut self, key: String)
        requires
            old(self).wf(),
        ensures
            final(self).wf(),
            final(self)@ == with_state(old(self)@, state_after_remove(old(self)@.state, key@)),
    {
        match &mut self.loading_state {
            LoadingState::Loaded { items, list, focus_mode, .. } => {
                let ghost old_items = index_set_items(*items);
                let ghost old_list = list@;
                match index_set_shift_remove_full(items, &key) {
                    None => {},
                    Some((index, _item)) => {
                        proof {
                            assert(old_items.index_of(key@) == index as int) by {
                                assert(old_items.contains(key@));
                            }
                        }
                        list.remove(index);
                        assert(views(list@) =~= views(old_list).remove(index as int));
                        let n = list.len();
                        match focus_mode {
                            FocusMode::Scrolling(selected) => {
                                if index > n.saturating_sub(1) {
                                    *selected = Some(index.saturating_sub(1));
                                }
                                if n == 0 {
                                    *selected = None;
                                }
                            },
                            FocusMode::Editing { list_state, .. } => {
                                if index > n.saturating_sub(1) {
                                    *list_state = Some(index.saturating_sub(1));
                                }
                                if n == 0 {
                                    *list_state = None;
                                }
                            },
                            _ => {},
                        }
                        proof {
                            let r = old_items.remove(index as int);
                            assert forall|a: int, b: int| 0 <= a < r.len() && 0 <= b < r.len() && a != b implies r[a] != r[b] by {
                                let oa = if a < index { a } else { a + 1 };
                                let ob = if b < index { b } else { b + 1 };
                                assert(r[a] == old_items[oa]);
                                assert(r[b] == old_items[ob]);
                            }
                        }
                    },
                }
            },
            _ => {},
        }
    }

    /// The JSON document of the item `key` of a loaded list, as the repository has it. There is
    /// none when the list is not loaded, `key` is not one of its ids, or the repository fails.
    pub fn get(&self, key: &str) -> (r: Option<String>)
        ensures
            !(self@.state matches StateView::Loaded { items, .. } && items.contains(key@)) ==> r is None,
    {
        match &self.loading_state {
            LoadingState::Loaded { items, .. } => {
                match index_set_get(items, key) {
                    None => None,
                    Some(_) => match self.repository.find_by_id(key) {
                        Ok(item) => Some(item),
                        Err(_) => None,
                    },
                }
            },
            _ => None,
        }
    }

    /// The id of the selected item (see `selected_key`).
    pub fn get_selected_key(&self) -> (r: Option<String>)
        ensures
            option_view(r) == selected_key(self@),
    {
        match &self.loading_state {
            LoadingState::Loaded { items, focus_mode: FocusMode::Scrolling(Some(i)), .. } => index_set_get_index(items, *i),
            _ => None,
        }
    }

    /// The id of the selected item and its JSON document, as the repository has it: the entry
    /// that the repository finds under the selected id (see `Repository::find_entry`). There is
    /// none when no item is selected or the repository fails.
    pub fn get_selected(&self) -> (r: Option<(String, String)>)
        ensures
            r matches Some((k, _)) ==> selected_key(self@) == Some(k@),
            selected_key(self@) is None ==> r is None,
    {
        let key = match self.get_selected_key() {
            Some(k) => k,
            None => {
                return None;
            },
        };
        match self.repository.find_entry(key) {
            Ok(entry) => Some(entry),
            Err(_) => None,
        }
    }

    /// Shows `msg` in place of the list.
    pub fn list_error(&mut self, msg: &str)
        requires
            old(self).wf(),
        ensures
            final(self).wf(),
            final(self)@ == with_state(old(self)@, StateView::LoadingError(msg@)),
    {
        self.reset();
        self.loading_state = LoadingState::LoadingError(msg.to_owned());
    }

    /// Shows an error in place of the details of a loaded list.
    pub fn details_error(&mut self, title: String, message: String)
        requires
            old(self).wf(),
        ensures
            final(self).wf(),
            final(self)@ == with_state(old(self)@, state_with_details_error(old(self)@.state, title@, message@)),
    {
        match &mut self.loading_state {
            LoadingState::Loaded { focus_mode, .. } => {
                *focus_mode = FocusMode::DetailsError { title, message };
            },
            _ => {},
        }
    }

    /// Selects the item `item_key` of a loaded list, scrolling; nothing is selected when it is
    /// not in the list.
    pub fn select_item(&mut self, item_key: String)
        requires
            old(self).wf(),
        ensures
            final(self).wf(),
            final(self)@ == with_state(old(self)@, state_with_selected(old(self)@.state, item_key@)),
    {
        match &mut self.loading_state {
            LoadingState::Loaded { items, focus_mode, .. } => {
                let index = index_set_get_index_of(items, &item_key);
                proof {
                    if let Some(i) = index {
                        assert(index_set_items(*items).contains(item_key@));
                    }
                }
                *focus_mode = FocusMode::Scrolling(index);
            },
            _ => {},
        }
    }

    /// Back to browsing the list: a selection kept by an editor returns, otherwise nothing is
    /// selected; a loaded list also puts the interface back into its base mode.
    pub fn set_scrolling_mode(&mut self, mode: &mut Mode)
        requires
            old(self).wf(),
        ensures
            final(self).wf(),
            final(self)@ == with_state(old(self)@, state_after_scrolling(old(self)@.state)),
            *final(mode) == mode_after_scrolling(old(self)@, *old(mode)),
    {
        match &mut self.loading_state {
            LoadingState::Loaded { focus_mode, .. } => {
                match focus_mode {
                    FocusMode::Scrolling(_) => {
                        *focus_mode = FocusMode::Scrolling(None);
                    },
                    FocusMode::Editing { list_state, .. } => {
                        let selected = *list_state;
                        *focus_mode = FocusMode::Scrolling(selected);
                    },
                    _ => {},
                }
                *mode = self.base_mode;
            },
            _ => {},
        }
    }

    /// Shows that the items are loading.
    pub fn loading(&mut self)
        requires
            old(self).wf(),
        ensures
            final(self).wf(),
            final(self)@ == with_state(old(self)@, StateView::Loading),
    {
        self.reset();
        self.loading_state = LoadingState::Loading;
    }

    /// Selects the next line, or the first when none is selected; an error in place of the
    /// details gives way to the list. Gives the id and JSON document of the item selected when
    /// the selection moved and the repository has it.
    pub fn next_item(&mut self) -> (r: Option<(String, String)>)
        requires
            old(self).wf(),
        ensures
            final(self).wf(),
            final(self)@ == with_state(old(self)@, state_after_next(old(self)@.state)),
            !moves_next(old(self)@.state) ==> r is None,
            r matches Some((k, _)) ==> selected_key(final(self)@) == Some(k@),
    {
        let moved = match &mut self.loading_state {
            LoadingState::Loaded { list, focus_mode, .. } => {
                let n = list.len();
                match focus_mode {
                    FocusMode::Scrolling(selected) => {
                        let next = match *selected {
                            None => if n != 0 {
                                Some(0usize)
                            } else {
                                None
                            },
                            Some(i) => if n > 0 && i < n - 1 {
                                Some(i + 1)
                            } else {
                                None
                            },
                        };
                        match next {
                            Some(s) => {
                                *selected = Some(s);
                                true
                            },
                            None => false,
                        }
                    },
                    FocusMode::DetailsError { .. } => {
                        *focus_mode = FocusMode::Scrolling(None);
                        false
                    },
                    _ => false,
                }
            },
            _ => false,
        };
        if moved {
            self.get_selected()
        } else {
            None
        }
    }

    /// Selects the line before the selected one; an error in place of the details gives way to
    /// the list. Gives the id and JSON document of the item selected when the selection moved
    /// and the repository has it.
    pub fn prev_item(&mut self) -> (r: Option<(String, String)>)
        requires
            old(self).wf(),
        ensures
            final(self).wf(),
            final(self)@ == with_state(old(self)@, state_after_prev(old(self)@.state)),
            !moves_prev(old(self)@.state) ==> r is None,
            r matches Some((k, _)) ==> selected_key(final(self)@) == Some(k@),
    {
        let moved = match &mut self.loading_state {
            LoadingState::Loaded { focus_mode, .. } => {
                match focus_mode {
                    FocusMode::Scrolling(selected) => {
                        match *selected {
                            Some(i) => if i > 0 {
                                *selected = Some(i - 1);
                                true
                            } else {
                                false
                            },
                            None => false,
                        }
                    },
                    FocusMode::DetailsError { .. } => {
                        *focus_mode = FocusMode::Scrolling(None);
                        false
                    },
                    _ => false,
                }
            },
            _ => false,
        };
        if moved {
            self.get_selected()
        } else {
            None
        }
    }

    /// Puts the interface into the list's base mode.
    pub fn activate(&self, mode: &mut Mode)
        ensures
            *final(mode) == self@.base_mode,
    {
        *mode = self.base_mode;
    }

    /// Shows a popup and puts the interface into the popup's mode.
    pub fn enter_popup(&mut self, popup: ListPopup, mode: &mut Mode)
        requires
            old(self).wf(),
            popup@ matches PopupView::Filter { popup: p, .. } ==> p.wf(),
        ensures
            final(self).wf(),
            final(self)@ == (ListView { popup: Some(popup@), ..old(self)@ }),
            *final(mode) == popup_mode(popup@),
    {
        *mode = match &popup {
            ListPopup::DeletePopup { .. } => Mode::ConfirmPopup,
            ListPopup::ErrorPopup { .. } => Mode::ErrorPopup,
            ListPopup::FilterPopup { .. } => Mode::FilterPopup,
        };
        self.popup = Some(popup);
    }

    /// Closes the popup, if one is shown, and puts the interface back into the base mode.
    pub fn exit_popup(&mut self, mode: &mut Mode)
        requires
            old(self).wf(),
        ensures
            final(self).wf(),
            final(self)@ == after_exit_popup(old(self)@),
            *final(mode) == mode_after_exit_popup(old(self)@, *old(mode)),
    {
        if self.popup.is_some() {
            self.popup = None;
            *mode = self.base_mode;
        }
    }

    /// Shows the popup that asks how to filter the items, with nothing typed yet.
    pub fn popup_filter(&mut self, mode: &mut Mode)
        requires
            old(self).wf(),
        ensures
            final(self).wf(),
            final(self)@ == (ListView {
                popup: Some(PopupView::Filter { popup: initial_filter_popup(), text: Seq::empty() }),
                ..old(self)@
            }),
            *final(mode) == Mode::FilterPopup,
    {
        let popup = FilterPopup::new();
        self.enter_popup(ListPopup::FilterPopup { popup, text: String::new() }, mode);
    }

    /// Shows an error popup.
    pub fn error_popup(&mut self, popup: ErrorPopup, mode: &mut Mode)
        requires
            old(self).wf(),
        ensures
            final(self).wf(),
            final(self)@ == (ListView {
                popup: Some(PopupView::Error { title: popup.title@, message: popup.message@ }),
                ..old(self)@
            }),
            *final(mode) == Mode::ErrorPopup,
    {
        self.enter_popup(ListPopup::ErrorPopup { popup }, mode);
    }
}


impl ListWithDetails {
    /// The title of the list.
    pub fn list_title(&self) -> (t: &String)
        ensures
            t@ == self@.list_title,
    {
        &self.list_title
    }

    /// The name of the kind of item listed.
    pub fn item_name(&self) -> (t: &String)
        ensures
            t@ == self@.item_name,
    {
        &self.item_name
    }

    /// The features of the list.
    pub fn features(&self) -> (f: Features)
        ensures
            f == self@.features,
    {
        self.features
    }

    /// The mode the list returns to.
    pub fn base_mode(&self) -> (m: Mode)
        ensures
            m == self@.base_mode,
    {
        self.base_mode
    }

    /// Whether the items failed to load, are loading or are loaded, and what is shown.
    pub fn loading_state(&self) -> (s: &LoadingState)
        ensures
            state_view(*s) == self@.state,
    {
        &self.loading_state
    }

    /// The editor of a new item, if one is open.
    pub fn new_item_editor(&self) -> (e: &Option<Editor>)
        ensures
            editor_option_view(*e) == self@.new_item_editor,
    {
        &self.new_item_editor
    }

    /// The popup shown over the list, if any.
    pub fn popup(&self) -> (p: &Option<ListPopup>)
        ensures
            popup_option_view(*p) == self@.popup,
    {
        &self.popup
    }

    /// Records the text typed into the filter popup, when it is shown.
    pub fn set_filter_text(&mut self, text: String)
        requires
            old(self).wf(),
        ensures
            final(self).wf(),
            final(self)@ == with_filter_text(old(self)@, text@),
    {
        match &mut self.popup {
            Some(ListPopup::FilterPopup { text: t, .. }) => {
                *t = text;
            },
            _ => {},
        }
    }

    /// Records the text of the editor of a new item, when one is open.
    pub fn set_new_item_text(&mut self, text: String)
        requires
            old(self).wf(),
        ensures
            final(self).wf(),
            final(self)@ == with_new_item_text(old(self)@, text@),
    {
        match &mut self.new_item_editor {
            Some(e) => e.set_text(text),
            None => {},
        }
    }

    /// Records the text of the editor shown in place of the details, when one is open.
    pub fn set_details_text(&mut self, text: String)
        requires
            old(self).wf(),
        ensures
            final(self).wf(),
            final(self)@ == with_details_text(old(self)@, text@),
    {
        match &mut self.loading_state {
            LoadingState::Loaded { focus_mode: FocusMode::Editing { editor, .. }, .. } => editor.set_text(text),
            _ => {},
        }
    }

    /// The details of the selected item, laid out for reading, as they are copied to the
    /// clipboard. There are none when no item is selected or the repository fails.
    pub fn selected_details(&self) -> (r: Option<String>)
        ensures
            selected_key(self@) is None ==> r is None,
            r matches Some(t) ==> exists|json: Seq<char>| #[trigger] pretty_json_text(json) == Some(t@),
    {
        match self.get_selected() {
            Some((_, item)) => {
                let r = pretty_json(item.as_str());
                proof {
                    if r is Some {
                        assert(pretty_json_text(item@) == option_view(r));
                    }
                }
                r
            },
            None => None,
        }
    }

    /// Reports that the details could not be copied to the clipboard.
    pub fn copy_failed(&mut self, message: String, mode: &mut Mode)
        requires
            old(self).wf(),
        ensures
            final(self).wf(),
            final(self)@ == after_copy_failed(old(self)@, message@),
            *final(mode) == Mode::ErrorPopup,
    {
        let popup = ErrorPopup { title: String::from_str("Could not copy to clipboard"), message };
        self.enter_popup(ListPopup::ErrorPopup { popup }, mode);
    }

    /// Shows `details` of the selected item in an editor in place of the details.
    pub fn show_details(&mut self, details: String, mode: &mut Mode)
        requires
            old(self).wf(),
        ensures
            final(self).wf(),
            final(self)@ == after_show_details(old(self)@, details@),
            *final(mode) == mode_after_show_details(old(self)@, *old(mode)),
    {
        let updatable = self.features.updatable;
        let title = if updatable {
            concat("Update ", self.item_name.as_str())
        } else {
            self.item_name.clone()
        };
        match &mut self.loading_state {
            LoadingState::Loaded { focus_mode, .. } => {
                match focus_mode {
                    FocusMode::Scrolling(Some(sel)) => {
                        let selected = *sel;
                        if updatable {
                            let editor = Editor::writeable_with_text(title, details);
                            *focus_mode = FocusMode::Editing { list_state: Some(selected), editor };
                            *mode = Mode::UpdateEditor;
                        } else {
                            let mut editor = Editor::readonly(details, title);
                            editor.focus();
                            *focus_mode = FocusMode::Editing { list_state: Some(selected), editor };
                            *mode = Mode::EditorReadOnly;
                        }
                    },
                    _ => {},
                }
            },
            _ => {},
        }
    }

    /// Shows the details of the selected item in an editor: one that may change them when
    /// the items can be updated, a read-only one otherwise.
    pub fn inspect(&mut self, mode: &mut Mode)
        requires
            old(self).wf(),
        ensures
            final(self).wf(),
            inspect_post(old(self)@, final(self)@, *old(mode), *final(mode)),
            inspect_read_post(old(self)@, final(self)@, *old(mode), *final(mode), final(self).last_read()),
    {
        let (key, item) = match self.get_selected() {
            Some(entry) => entry,
            None => {
                self.last_read = Ghost(None);
                return;
            },
        };
        let ghost entry = (key@, item@);
        let ghost before = self@;
        self.show_document(item.as_str(), mode);
        proof {
            if self@ != before {
                let details = pretty_json_text(item@)->0;
                assert(shown_details(self@) == details);
                assert(pretty_json_text(item@) == Some(shown_details(self@)));
            }
        }
        self.last_read = Ghost(Some(entry));
    }

    /// Shows the JSON document `json` of the selected item in an editor, laid out for reading
    /// (see `show_details`); a text that is not JSON changes nothing.
    pub fn show_document(&mut self, json: &str, mode: &mut Mode)
        requires
            old(self).wf(),
        ensures
            final(self).wf(),
            final(self)@ == after_show_document(old(self)@, json@),
            *final(mode) == mode_after_show_document(old(self)@, json@, *old(mode)),
    {
        match pretty_json(json) {
            Some(details) => self.show_details(details, mode),
            None => {},
        }
    }

    /// Shows the items `ids` that the filter `text` found, and closes the popup.
    pub fn apply_filter(&mut self, ids: Vec<String>, text: String, mode: &mut Mode)
        requires
            old(self).wf(),
        ensures
            final(self).wf(),
            final(self)@ == after_filter(old(self)@, views(ids@), text@),
            *final(mode) == mode_after_exit_popup(old(self)@, *old(mode)),
    {
        self.set_items(ids, Some(text));
        self.exit_popup(mode);
    }

    /// Fills the list again with the ids that the repository answered, each once, with nothing
    /// selected, filtered by `filter`; shows the repository's error in place of the list when
    /// it failed.
    pub fn reload(&mut self, ids: Result<Vec<String>, String>, filter: Option<String>)
        requires
            old(self).wf(),
        ensures
            final(self).wf(),
            final(self)@ == after_reload(old(self)@, ids_view(ids), option_view(filter)),
    {
        match ids {
            Ok(ids) => self.set_items(ids, filter),
            Err(msg) => self.list_error(msg.as_str()),
        }
    }

    /// Closes the filter popup and shows what the repository found with the filter `text`: the
    /// ids found, or its error in place of the list.
    pub fn show_found(&mut self, found: Result<Vec<String>, String>, text: String, mode: &mut Mode)
        requires
            old(self).wf(),
        ensures
            final(self).wf(),
            final(self)@ == after_reload(after_exit_popup(old(self)@), ids_view(found), Some(text@)),
            *final(mode) == mode_after_exit_popup(old(self)@, *old(mode)),
    {
        self.exit_popup(mode);
        self.reload(found, Some(text));
    }

    /// Confirms the popup: a delete popup asks for the deletion of its item; a filter popup
    /// shows the items whose JSON document contains its text, and closes. When the repository
    /// fails to filter, its error is shown in place of the list. The filter asks the repository
    /// for the ids of the documents whose whole text (JSON path `$`) contains the popup's text
    /// (see `lemma_filter_queries_whole_documents`).
    pub fn confirm_popup(&mut self, mode: &mut Mode) -> (r: Option<Action>)
        requires
            old(self).wf(),
        ensures
            final(self).wf(),
            confirm_popup_post(old(self)@, final(self)@, *old(mode), *final(mode), r),
            old(self)@.popup matches Some(PopupView::Filter { text, .. }) ==> final(self).last_query() == Some(
                filter_query(old(self)@.repository.table(), text),
            ),
    {
        let text = match &self.popup {
            None => {
                return None;
            },
            Some(ListPopup::DeletePopup { item_id, .. }) => {
                return Some(Action::LWD(ListWithDetailsAction::Delete(item_id.clone())));
            },
            Some(ListPopup::ErrorPopup { .. }) => {
                return None;
            },
            Some(ListPopup::FilterPopup { text, .. }) => text.clone(),
        };
        let statement = find_by_statement("id", self.repository.table_name(), "$", text.as_str());
        let found = repository_ids(self.repository.query_column_of(statement.as_str(), "id"));
        let ghost asked = statement@;
        self.show_found(found, text, mode);
        self.last_query = Ghost(Some(asked));
        None
    }

    /// Handles the end of an update of the edited item: browsing again, with the error shown in
    /// place of the details when it failed.
    pub fn handle_item_updated(&mut self, result: Result<String, String>, mode: &mut Mode)
        requires
            old(self).wf(),
        ensures
            final(self).wf(),
            final(self)@ == after_item_updated(old(self)@, result),
            *final(mode) == mode_after_scrolling(old(self)@, *old(mode)),
    {
        self.set_scrolling_mode(mode);
        match result {
            Err(message) => {
                let title = concat(self.item_name.as_str(), " update failed");
                self.details_error(title, message);
            },
            _ => {},
        }
    }

    /// Handles the end of a creation: closes the editor of the new item; adds and selects the
    /// new item when the repository has it; shows a failure in place of the details; and puts
    /// the interface back into the base mode.
    pub fn handle_item_created(&mut self, result: Result<String, String>, mode: &mut Mode)
        requires
            old(self).wf(),
        ensures
            final(self).wf(),
            final(self)@ == after_item_created(old(self)@, result, true) || final(self)@ == after_item_created(
                old(self)@,
                result,
                false,
            ),
            *final(mode) == old(self)@.base_mode,
    {
        self.new_item_editor = None;
        match result {
            Ok(key) => {
                let stored = self.repository.find_by_id(key.as_str()).is_ok();
                if stored {
                    self.put(key.clone());
                    self.select_item(key);
                }
            },
            Err(error) => {
                let title = concat(self.item_name.as_str(), " creation failed");
                self.details_error(title, error);
            },
        }
        *mode = self.base_mode;
    }

    /// Asks for an update of the edited item with the editor's text.
    pub fn update_item(&self) -> (r: Option<Action>)
        ensures
            update_item_result(self@, r),
    {
        match &self.loading_state {
            LoadingState::Loaded { focus_mode: FocusMode::Editing { editor, .. }, .. } => Some(
                Action::LWD(ListWithDetailsAction::Update(editor.get_text())),
            ),
            _ => None,
        }
    }

    /// Asks for the creation of an item from the new item's editor.
    pub fn create_item(&self) -> (r: Option<Action>)
        ensures
            create_item_result(self@, r),
    {
        match &self.new_item_editor {
            Some(editor) => Some(Action::LWD(ListWithDetailsAction::Create(editor.get_text()))),
            None => None,
        }
    }

    /// Opens an empty editor for a new item, when items can be created.
    pub fn enter_new_item_editor(&mut self, mode: &mut Mode)
        requires
            old(self).wf(),
        ensures
            final(self).wf(),
            final(self)@ == after_new_item_editor(old(self)@),
            *final(mode) == mode_after_new_item_editor(old(self)@, *old(mode)),
    {
        if self.features.creatable {
            self.set_scrolling_mode(mode);
            let title = concat("New ", self.item_name.as_str());
            self.new_item_editor = Some(Editor::writeable(title));
            *mode = Mode::CreateEditor;
        }
    }

    /// Handles the end of a deletion of an item called `item_name`: when it is one of this
    /// list's, removes the item and closes the popup, or shows the failure in a popup.
    pub fn handle_item_deleted(&mut self, item_name: String, result: Result<String, String>, mode: &mut Mode)
        requires
            old(self).wf(),
        ensures
            final(self).wf(),
            final(self)@ == after_item_deleted(old(self)@, item_name@, result),
            *final(mode) == mode_after_item_deleted(old(self)@, item_name@, result, *old(mode)),
    {
        if item_name == self.item_name {
            match result {
                Ok(id) => {
                    self.remove(id);
                    self.exit_popup(mode);
                },
                Err(message) => {
                    let popup = ErrorPopup {
                        title: String::from_str("Deletion failed"),
                        message: concat("Failed deletion of item:\n", message.as_str()),
                    };
                    self.enter_popup(ListPopup::ErrorPopup { popup }, mode);
                },
            }
        }
    }

    /// Asks whether the item `id` should be deleted.
    pub fn confirm_delete(&mut self, id: String, mode: &mut Mode)
        requires
            old(self).wf(),
        ensures
            final(self).wf(),
            final(self)@ == after_confirm_delete(old(self)@, id@),
            *final(mode) == Mode::ConfirmPopup,
    {
        let t1 = concat("Delete ", self.item_name.as_str());
        let t2 = concat(t1.as_str(), " '");
        let t3 = concat(t2.as_str(), id.as_str());
        let title = concat(t3.as_str(), "'?");
        let m1 = concat("Are you sure you want to delete the ", self.item_name.as_str());
        let m2 = concat(m1.as_str(), " with id '");
        let m3 = concat(m2.as_str(), id.as_str());
        let message = concat(m3.as_str(), "'");
        let popup = ConfirmPopup { title, message };
        self.enter_popup(ListPopup::DeletePopup { popup, item_id: id }, mode);
    }

    /// Asks whether the selected item should be deleted, when items can be deleted and the
    /// repository has the selected one.
    pub fn popup_delete_confirmation(&mut self, mode: &mut Mode)
        requires
            old(self).wf(),
        ensures
            final(self).wf(),
            delete_confirmation_post(old(self)@, final(self)@, *old(mode), *final(mode)),
    {
        match self.get_selected() {
            Some((id, _)) => {
                if self.features.deletable {
                    self.confirm_delete(id, mode);
                }
            },
            None => {},
        }
    }

    /// Handles the end of loading: fills the list from the repository, or shows the error.
    pub fn handle_loading_finished(&mut self, result: Result<(), String>)
        requires
            old(self).wf(),
        ensures
            final(self).wf(),
            loading_finished_post(old(self)@, final(self)@, result),
            result is Ok ==> final(self).last_query() == Some(every_id_query(old(self)@.repository.table())),
    {
        match result {
            Ok(_) => {
                let statement = find_all_statement("id", self.repository.table_name());
                let ids = repository_ids(self.repository.query_column_of(statement.as_str(), "id"));
                let ghost asked = statement@;
                self.reload(ids, None);
                self.last_query = Ghost(Some(asked));
            },
            Err(msg) => self.list_error(msg.as_str()),
        }
    }

    /// Back to browsing, without the editor of a new item; a filtered list shows every item
    /// again.
    pub fn escape(&mut self, mode: &mut Mode)
        requires
            old(self).wf(),
        ensures
            final(self).wf(),
            escape_post(old(self)@, final(self)@, *old(mode), *final(mode)),
            old(self)@.state matches StateView::Loaded { filter: Some(_), .. } ==> final(self).last_query() == Some(
                every_id_query(old(self)@.repository.table()),
            ),
    {
        self.set_scrolling_mode(mode);
        self.new_item_editor = None;
        let filtered = match &self.loading_state {
            LoadingState::Loaded { filter: Some(_), .. } => true,
            _ => false,
        };
        if filtered {
            let statement = find_all_statement("id", self.repository.table_name());
            let ids = repository_ids(self.repository.query_column_of(statement.as_str(), "id"));
            let ghost asked = statement@;
            self.reload(ids, None);
            self.last_query = Ghost(Some(asked));
        }
    }

    /// Handles a key press (see `key_result`): gives where the key goes.
    pub fn handle_key_events(&mut self, key: KeyEvent, is_macos: bool) -> (r: KeyRoute)
        requires
            old(self).wf(),
        ensures
            final(self).wf(),
            (final(self)@, r) == key_result(old(self)@, key, is_macos),
    {
        match &mut self.popup {
            Some(ListPopup::FilterPopup { popup, .. }) => {
                return match popup.handle_key_events(key, is_macos) {
                    Some((f, k)) => KeyRoute::Filter(f, k),
                    None => KeyRoute::Nothing,
                };
            },
            _ => {},
        }
        match &self.new_item_editor {
            Some(editor) => {
                return match editor.handle_key_events(key, is_macos) {
                    Some(k) => KeyRoute::NewItemEditor(k),
                    None => KeyRoute::Nothing,
                };
            },
            None => {},
        }
        match &self.loading_state {
            LoadingState::LoadingError(_) => {
                self.reset();
                KeyRoute::Nothing
            },
            LoadingState::Loaded { focus_mode: FocusMode::Editing { editor, .. }, .. } => {
                match editor.handle_key_events(key, is_macos) {
                    Some(k) => KeyRoute::DetailsEditor(k),
                    None => KeyRoute::Nothing,
                }
            },
            _ => KeyRoute::Nothing,
        }
    }

    /// Handles an action (see `update_post`); gives the action it answers with, if any.
    /// Copying to the clipboard is left to the caller (see `selected_details`).
    pub fn update(&mut self, action: Action, mode: &mut Mode) -> (r: Option<Action>)
        requires
            old(self).wf(),
        ensures
            final(self).wf(),
            update_post(old(self)@, final(self)@, *old(mode), *final(mode), action, r),
            action is Inspect || action is Enter ==> inspect_read_post(
                old(self)@,
                final(self)@,
                *old(mode),
                *final(mode),
                final(self).last_read(),
            ),
            action is ConfirmPopup ==> (old(self)@.popup matches Some(PopupView::Filter { text, .. })
                ==> final(self).last_query() == Some(filter_query(old(self)@.repository.table(), text))),
            (action matches Action::ItemsLoadingFinished { item_name, result } && item_name@ == old(self)@.item_name
                && result is Ok) ==> final(self).last_query() == Some(every_id_query(old(self)@.repository.table())),
    {
        match action {
            Action::LoadAllItems => {
                self.loading();
            },
            Action::ItemsLoadingFinished { item_name, result } => {
                if item_name == self.item_name {
                    self.handle_loading_finished(result);
                }
            },
            Action::PrevItem => {
                if let Some((key, _value)) = self.prev_item() {
                    return Some(Action::SelectedItem(key));
                }
            },
            Action::NextItem => {
                if let Some((key, _value)) = self.next_item() {
                    return Some(Action::SelectedItem(key));
                }
            },
            Action::Inspect => {
                self.inspect(mode);
            },
            Action::Escape => {
                self.escape(mode);
            },
            Action::Delete => {
                self.popup_delete_confirmation(mode);
            },
            Action::Filter => {
                self.popup_filter(mode);
            },
            Action::ItemDeleted { item_name, result } => {
                self.handle_item_deleted(item_name, result, mode);
            },
            Action::NewItem => {
                self.enter_new_item_editor(mode);
            },
            Action::CreateItem => {
                return self.create_item();
            },
            Action::UpdateItem => {
                return self.update_item();
            },
            Action::ItemCreated { item_name, result } => {
                if item_name == self.item_name {
                    self.handle_item_created(result, mode);
                }
            },
            Action::ItemUpdated { item_name, result } => {
                if item_name == self.item_name {
                    self.handle_item_updated(result, mode);
                }
            },
            Action::Enter => {
                self.inspect(mode);
            },
            Action::ClosePopup => {
                self.exit_popup(mode);
            },
            Action::ConfirmPopup => {
                return self.confirm_popup(mode);
            },
            _ => {},
        }
        None
    }
}

/// The decimal digits of `n`.
pub(crate) fn decimal_digits(n: u128) -> (v: Vec<char>)
    ensures
        v@ == decimal(n as nat),
    decreases n,
{
    if n < 10 {
        let mut v = Vec::new();
        let d = n as u8;
        v.push((d + 48) as char);
        assert(v@ =~= seq![digit_char(n as nat)]);
        v
    } else {
        let mut v = decimal_digits(n / 10);
        let d = (n % 10) as u8;
        v.push((d + 48) as char);
        assert(v@ =~= decimal((n / 10) as nat).push(digit_char((n % 10) as nat)));
        v
    }
}

/// What the list area shows: why loading failed, that it is loading, or the lines with the
/// selected one, under a title that counts them (and names the filter), dimmed when the
/// list does not have the focus.
#[derive(Debug, PartialEq, Eq)]
pub enum ListPane {
    Failed { title: String, message: String },
    Loading { title: String },
    Items { title: String, filter_title: Option<String>, lines: Vec<String>, selected: Option<usize>, dimmed: bool },
}

/// What the details area shows: nothing but its title, another component, the editor of a new
/// item, the details of the selected item (when the repository has them), the editor shown in
/// place of the details, or an error.
#[derive(Debug, PartialEq, Eq)]
pub enum DetailsPane {
    Blank,
    Custom,
    NewItemEditor,
    Document(Option<String>),
    Editor,
    Error { title: String, message: String },
}

/// The selection shown in a loaded list, and whether the list is dimmed, from its focus.
pub open spec fn shown_selection(focus: FocusView) -> (Option<usize>, bool) {
    match focus {
        FocusView::Scrolling(s) => (s, false),
        FocusView::Editing { list_state, .. } => (list_state, true),
        FocusView::DetailsError { .. } => (None, true),
    }
}

/// The number shown for a selection: its line counted from one, or nought.
pub open spec fn selection_number(s: Option<usize>) -> nat {
    match s {
        Some(i) => (i + 1) as nat,
        None => 0,
    }
}

/// Whether `pane` is what the list area of `v` shows, when another component is shown in
/// the details area (`has_custom`) or not.
pub open spec fn list_pane_of(v: ListView, has_custom: bool, pane: ListPane) -> bool {
    match v.state {
        StateView::LoadingError(m) => pane matches ListPane::Failed { title, message } && title@ == "Loading "@
            + v.list_title + " failed"@ && message@ == m,
        StateView::Loading => pane matches ListPane::Loading { title } && title@ == "Loading "@ + v.list_title + "..."@,
        StateView::Loaded { list, focus_mode, filter, .. } => {
            let (sel, dim) = shown_selection(focus_mode);
            pane matches ListPane::Items { title, filter_title, lines, selected, dimmed } && title@ == v.list_title
                + " ("@ + decimal(selection_number(sel)) + "/"@ + decimal(list.len()) + ")"@ && option_view(
                filter_title,
            ) == (match filter {
                Some(f) => Some(" filtered by '"@ + f + "'"@),
                None => None,
            }) && views(lines@) == list && selected == sel && dimmed == (dim || has_custom
                || v.new_item_editor is Some)
        },
    }
}

/// The kind of thing the details area of `v` shows (the details themselves left aside).
pub open spec fn details_pane_of(v: ListView, has_custom: bool, pane: DetailsPane) -> bool {
    match v.state {
        StateView::Loaded { focus_mode, .. } => if has_custom {
            pane is Custom
        } else if v.new_item_editor is Some {
            pane is NewItemEditor
        } else {
            match focus_mode {
                FocusView::Scrolling(None) => pane is Blank,
                FocusView::Scrolling(Some(_)) => pane is Document,
                FocusView::Editing { .. } => pane is Editor,
                FocusView::DetailsError { title, message } => pane matches DetailsPane::Error { title: t, message: m }
                    && t@ == title && m@ == message,
            }
        },
        _ => pane is Blank,
    }
}

/// A list filled again with the ids that the repository answered shows them all, in order,
/// none selected, under a title that counts them.
pub proof fn lemma_reload_shows_ids(v: ListView, ids: Seq<Seq<char>>, pane: ListPane)
    requires
        list_pane_of(after_reload(v, Ok(ids), None), false, pane),
    ensures
        pane matches ListPane::Items { title, lines, selected, .. } && title@ == v.list_title + " ("@ + decimal(0)
            + "/"@ + decimal(ids.len()) + ")"@ && views(lines@) == ids && selected is None,
{
}

impl ListWithDetails {
    /// What the list area shows (see `list_pane_of`).
    pub fn list_pane(&self, has_custom: bool) -> (pane: ListPane)
        ensures
            list_pane_of(self@, has_custom, pane),
    {
        match &self.loading_state {
            LoadingState::LoadingError(msg) => {
                let t = concat("Loading ", self.list_title.as_str());
                ListPane::Failed { title: concat(t.as_str(), " failed"), message: msg.clone() }
            },
            LoadingState::Loading => {
                let t = concat("Loading ", self.list_title.as_str());
                ListPane::Loading { title: concat(t.as_str(), "...") }
            },
            LoadingState::Loaded { list, focus_mode, filter, .. } => {
                let (selected, dim) = match focus_mode {
                    FocusMode::Scrolling(s) => (*s, false),
                    FocusMode::Editing { list_state, .. } => (*list_state, true),
                    FocusMode::DetailsError { .. } => (None, true),
                };
                let number: u128 = match selected {
                    Some(i) => i as u128 + 1,
                    None => 0,
                };
                let n = decimal_digits(number);
                let total = decimal_digits(list.len() as u128);
                let t1 = concat(self.list_title.as_str(), " (");
                let ns = string_of(n.as_slice());
                let t2 = concat(t1.as_str(), ns.as_str());
                let t3 = concat(t2.as_str(), "/");
                let ts = string_of(total.as_slice());
                let t4 = concat(t3.as_str(), ts.as_str());
                let title = concat(t4.as_str(), ")");
                let filter_title = match filter {
                    Some(f) => {
                        let f1 = concat(" filtered by '", f.as_str());
                        Some(concat(f1.as_str(), "'"))
                    },
                    None => None,
                };
                let mut lines: Vec<String> = Vec::new();
                let mut i: usize = 0;
                while i < list.len()
                    invariant
                        i <= list@.len(),
                        views(lines@) == views(list@.take(i as int)),
                    decreases list@.len() - i,
                {
                    let ghost before = lines@;
                    lines.push(list[i].clone());
                    assert(views(list@.take(i + 1)) =~= views(list@.take(i as int)).push(list@[i as int]@));
                    assert(views(lines@) =~= views(before).push(list@[i as int]@));
                    i = i + 1;
                }
                assert(list@.take(list@.len() as int) =~= list@);
                let dimmed = dim || has_custom || self.new_item_editor.is_some();
                ListPane::Items { title, filter_title, lines, selected, dimmed }
            },
        }
    }

    /// What the details area shows (see `details_pane_of`); the details of the selected item are
    /// laid out for reading.
    pub fn details_pane(&self, has_custom: bool) -> (pane: DetailsPane)
        ensures
            details_pane_of(self@, has_custom, pane),
            pane matches DetailsPane::Document(Some(_)) ==> selected_key(self@) is Some,
            pane matches DetailsPane::Document(Some(t)) ==> exists|json: Seq<char>|
                #[trigger] pretty_json_text(json) == Some(t@),
    {
        match &self.loading_state {
            LoadingState::Loaded { focus_mode, .. } => {
                if has_custom {
                    DetailsPane::Custom
                } else if self.new_item_editor.is_some() {
                    DetailsPane::NewItemEditor
                } else {
                    match focus_mode {
                        FocusMode::Scrolling(None) => DetailsPane::Blank,
                        FocusMode::Scrolling(Some(_)) => DetailsPane::Document(self.selected_details()),
                        FocusMode::Editing { .. } => DetailsPane::Editor,
                        FocusMode::DetailsError { title, message } => DetailsPane::Error {
                            title: title.clone(),
                            message: message.clone(),
                        },
                    }
                }
            },
            _ => DetailsPane::Blank,
        }
    }
}

} // verus!
