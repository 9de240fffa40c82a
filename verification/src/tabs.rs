use vstd::prelude::*;

use crate::action::{Action, Document, Item, ListWithDetailsAction};
use crate::keys::KeyEvent;
use crate::list_with_details::{
    after_copy_failed, default_base_mode, empty_loaded, key_result, loading_finished_post, update_post,
    with_details_text, with_filter_text, with_new_item_text, Features, KeyRoute, ListView, ListWithDetails,
};
use crate::mode::Mode;
use crate::repository::Repository;
use vstd::string::StringExecFns;

verus! {

/// The kinds of items the tabs list, one tab each.
#[derive(Debug, Clone, Copy, PartialEq, Eq, Hash, Structural)]
pub enum TabKind {
    Clients,
    Schemas,
    Scripts,
    DataPolicies,
    BehaviorPolicies,
    TraceRecordings,
    Backups,
}

/// A component shown as a tab of the home screen.
pub trait TabComponent {
    /// The name on the tab.
    fn get_name(&self) -> &'static str;
}

/// The name on the tab of `kind`.
pub open spec fn tab_name(kind: TabKind) -> Seq<char> {
    match kind {
        TabKind::Clients => "Clients"@,
        TabKind::Schemas => "Schemas"@,
        TabKind::Scripts => "Scripts"@,
        TabKind::DataPolicies => "Data Policies"@,
        TabKind::BehaviorPolicies => "Behavior Policies"@,
        TabKind::TraceRecordings => "Trace Recordings"@,
        TabKind::Backups => "Backups"@,
    }
}

/// The name of one item of `kind`.
pub open spec fn kind_item_name(kind: TabKind) -> Seq<char> {
    match kind {
        TabKind::Clients => "Client Details"@,
        TabKind::Schemas => "Schema"@,
        TabKind::Scripts => "Script"@,
        TabKind::DataPolicies => "Data Policy"@,
        TabKind::BehaviorPolicies => "Behavior Policy"@,
        TabKind::TraceRecordings => "Trace Recording"@,
        TabKind::Backups => "Backup"@,
    }
}

/// The table in which items of `kind` are kept.
pub open spec fn kind_table(kind: TabKind) -> Seq<char> {
    match kind {
        TabKind::Clients => "client_details"@,
        TabKind::Schemas => "schemas"@,
        TabKind::Scripts => "scripts"@,
        TabKind::DataPolicies => "data_policies"@,
        TabKind::BehaviorPolicies => "behavior_policies"@,
        TabKind::TraceRecordings => "trace_recordings"@,
        TabKind::Backups => "backups"@,
    }
}

/// What can be done with items of `kind` besides browsing them: policies can be created,
/// updated and deleted; schemas, scripts and trace recordings created and deleted; clients and
/// backups only browsed.
pub open spec fn kind_features(kind: TabKind) -> Features {
    match kind {
        TabKind::Schemas | TabKind::Scripts | TabKind::TraceRecordings => Features {
            deletable: true,
            creatable: true,
            updatable: false,
        },
        TabKind::DataPolicies | TabKind::BehaviorPolicies => Features { deletable: true, creatable: true, updatable: true },
        _ => Features { deletable: false, creatable: false, updatable: false },
    }
}

/// The mode of the tab of `kind`: backups have one of their own; the others follow from their
/// features.
pub open spec fn kind_base_mode(kind: TabKind) -> Mode {
    match kind {
        TabKind::Backups => Mode::BackupTab,
        _ => default_base_mode(kind_features(kind)),
    }
}

/// The name on the tab of `kind`.
pub fn get_tab_name(kind: TabKind) -> (s: &'static str)
    ensures
        s@ == tab_name(kind),
{
    match kind {
        TabKind::Clients => "Clients",
        TabKind::Schemas => "Schemas",
        TabKind::Scripts => "Scripts",
        TabKind::DataPolicies => "Data Policies",
        TabKind::BehaviorPolicies => "Behavior Policies",
        TabKind::TraceRecordings => "Trace Recordings",
        TabKind::Backups => "Backups",
    }
}

/// The name of one item of `kind`.
pub fn item_name(kind: TabKind) -> (s: &'static str)
    ensures
        s@ == kind_item_name(kind),
{
    match kind {
        TabKind::Clients => "Client Details",
        TabKind::Schemas => "Schema",
        TabKind::Scripts => "Script",
        TabKind::DataPolicies => "Data Policy",
        TabKind::BehaviorPolicies => "Behavior Policy",
        TabKind::TraceRecordings => "Trace Recording",
        TabKind::Backups => "Backup",
    }
}

/// The table in which items of `kind` are kept.
pub fn table_name(kind: TabKind) -> (s: &'static str)
    ensures
        s@ == kind_table(kind),
{
    match kind {
        TabKind::Clients => "client_details",
        TabKind::Schemas => "schemas",
        TabKind::Scripts => "scripts",
        TabKind::DataPolicies => "data_policies",
        TabKind::BehaviorPolicies => "behavior_policies",
        TabKind::TraceRecordings => "trace_recordings",
        TabKind::Backups => "backups",
    }
}

/// The features of items of `kind`.
pub fn features(kind: TabKind) -> (f: Features)
    ensures
        f == kind_features(kind),
{
    match kind {
        TabKind::Schemas | TabKind::Scripts | TabKind::TraceRecordings => Features::builder().creatable().deletable().build(),
        TabKind::DataPolicies | TabKind::BehaviorPolicies => Features::builder().deletable().creatable().updatable().build(),
        _ => Features::builder().build(),
    }
}

/// A call to the HiveMQ service that a tab asks for; its outcome comes back as an action
/// (see `loading_finished` and `call_finished`).
#[derive(Debug, PartialEq, Eq)]
pub enum ServiceCall {
    /// Load every item into the repository.
    LoadAll,
    /// Delete the item with this id.
    Delete(String),
    /// Create an item from this JSON document.
    Create(String),
    /// Update an item from this JSON document.
    Update(String),
    /// Start a backup.
    StartBackup,
}

/// The call a tab of `kind` asks for when its list requests `request`: a deletion or a
/// creation; an update only where items can be updated.
pub open spec fn request_call(kind: TabKind, request: ListWithDetailsAction) -> Option<ServiceCall> {
    match request {
        ListWithDetailsAction::Delete(id) => Some(ServiceCall::Delete(id)),
        ListWithDetailsAction::Create(t) => Some(ServiceCall::Create(t)),
        ListWithDetailsAction::Update(t) => if kind_features(kind).updatable {
            Some(ServiceCall::Update(t))
        } else {
            None
        },
    }
}

/// What a tab of `kind` answers and which call it asks for, when its list answered `answer`
/// to `action`. A list's request becomes a call, any other answer is passed on, and loading
/// every item is a call of its own. Clients and backups pass nothing on: clients load their
/// items, backups load them or start a backup.
pub open spec fn tab_outcome(kind: TabKind, answer: Option<Action>, action: Action) -> (Option<Action>, Option<ServiceCall>) {
    match kind {
        TabKind::Clients => (None, if action is LoadAllItems {
            Some(ServiceCall::LoadAll)
        } else {
            None
        }),
        TabKind::Backups => (None, if action is StartBackup {
            Some(ServiceCall::StartBackup)
        } else if action is LoadAllItems {
            Some(ServiceCall::LoadAll)
        } else {
            None
        }),
        _ => match answer {
            Some(Action::LWD(request)) => (None, request_call(kind, request)),
            Some(other) => (Some(other), None),
            None => (None, if action is LoadAllItems {
                Some(ServiceCall::LoadAll)
            } else {
                None
            }),
        },
    }
}

/// A tab that lists items of one kind.
pub struct ItemTab {
    kind: TabKind,
    list: ListWithDetails,
}

impl ItemTab {
    /// The kind of the tab.
    pub closed spec fn kind_spec(&self) -> TabKind {
        self.kind
    }

    /// The tab's list.
    pub closed spec fn list_view(&self) -> ListView {
        self.list@
    }

    /// The tab's invariant.
    pub closed spec fn wf(&self) -> bool {
        self.list.wf()
    }

    /// A tab of `kind` whose items are kept in `repository`; its list is empty.
    pub fn new(kind: TabKind, repository: Repository) -> (t: ItemTab)
        ensures
            t.wf(),
            t.kind_spec() == kind,
            t.list_view() == (ListView {
                list_title: tab_name(kind),
                item_name: kind_item_name(kind),
                features: kind_features(kind),
                base_mode: kind_base_mode(kind),
                state: empty_loaded(),
                new_item_editor: None,
                popup: None,
                repository,
            }),
    {
        let list = ListWithDetails::new(
            String::from_str(get_tab_name(kind)),
            String::from_str(item_name(kind)),
            features(kind),
            repository,
        );
        let list = match kind {
            TabKind::Backups => list.with_base_mode(Mode::BackupTab),
            _ => list,
        };
        ItemTab { kind, list }
    }

    /// The kind of the tab.
    pub fn kind(&self) -> (k: TabKind)
        ensures
            k == self.kind_spec(),
    {
        self.kind
    }

    /// The tab's list.
    pub fn list(&self) -> (l: &ListWithDetails)
        ensures
            l@ == self.list_view(),
            l.wf() == self.wf(),
    {
        &self.list
    }

    /// Puts the interface into the mode of the tab.
    pub fn activate(&self, mode: &mut Mode)
        ensures
            *final(mode) == self.list_view().base_mode,
    {
        self.list.activate(mode);
    }

    /// Hands a key press to the list (see `ListWithDetails::handle_key_events`).
    pub fn handle_key_events(&mut self, key: KeyEvent, is_macos: bool) -> (r: KeyRoute)
        requires
            old(self).wf(),
        ensures
            final(self).wf(),
            final(self).kind_spec() == old(self).kind_spec(),
            (final(self).list_view(), r) == key_result(old(self).list_view(), key, is_macos),
    {
        self.list.handle_key_events(key, is_macos)
    }

    /// Records the text typed into the filter popup (see `ListWithDetails::set_filter_text`).
    pub fn set_filter_text(&mut self, text: String)
        requires
            old(self).wf(),
        ensures
            final(self).wf(),
            final(self).kind_spec() == old(self).kind_spec(),
            final(self).list_view() == with_filter_text(old(self).list_view(), text@),
    {
        self.list.set_filter_text(text);
    }

    /// Records the text of the new item's editor (see `ListWithDetails::set_new_item_text`).
    pub fn set_new_item_text(&mut self, text: String)
        requires
            old(self).wf(),
        ensures
            final(self).wf(),
            final(self).kind_spec() == old(self).kind_spec(),
            final(self).list_view() == with_new_item_text(old(self).list_view(), text@),
    {
        self.list.set_new_item_text(text);
    }

    /// Records the text of the details editor (see `ListWithDetails::set_details_text`).
    pub fn set_details_text(&mut self, text: String)
        requires
            old(self).wf(),
        ensures
            final(self).wf(),
            final(self).kind_spec() == old(self).kind_spec(),
            final(self).list_view() == with_details_text(old(self).list_view(), text@),
    {
        self.list.set_details_text(text);
    }

    /// Reports that the details could not be copied (see `ListWithDetails::copy_failed`).
    pub fn copy_failed(&mut self, message: String, mode: &mut Mode)
        requires
            old(self).wf(),
        ensures
            final(self).wf(),
            final(self).kind_spec() == old(self).kind_spec(),
            final(self).list_view() == after_copy_failed(old(self).list_view(), message@),
            *final(mode) == Mode::ErrorPopup,
    {
        self.list.copy_failed(message, mode);
    }

    /// Handles an action: the list handles it first (see `update_post`), then the tab turns
    /// what the list answered into its own answer and the call it asks for (see
    /// `tab_outcome`). The clients tab also fills its list when its items have been loaded.
    pub fn update(&mut self, action: Action, mode: &mut Mode) -> (r: (Option<Action>, Option<ServiceCall>))
        requires
            old(self).wf(),
        ensures
            final(self).wf(),
            final(self).kind_spec() == old(self).kind_spec(),
            match (old(self).kind_spec(), action) {
                (TabKind::Clients, Action::ClientDetailsLoadingFinished(result)) => loading_finished_post(
                    old(self).list_view(),
                    final(self).list_view(),
                    result,
                ) && *final(mode) == *old(mode) && r == (None::<Action>, None::<ServiceCall>),
                _ => exists|answer: Option<Action>|
                    #[trigger] update_post(
                        old(self).list_view(),
                        final(self).list_view(),
                        *old(mode),
                        *final(mode),
                        action,
                        answer,
                    ) && r == tab_outcome(old(self).kind_spec(), answer, action),
            },
    {
        let answer = self.list.update(action.clone(), mode);
        let kind = self.kind;
        match kind {
            TabKind::Clients => {
                match action {
                    Action::ClientDetailsLoadingFinished(result) => {
                        self.list.handle_loading_finished(result);
                        (None, None)
                    },
                    Action::LoadAllItems => (None, Some(ServiceCall::LoadAll)),
                    _ => (None, None),
                }
            },
            TabKind::Backups => {
                match action {
                    Action::StartBackup => (None, Some(ServiceCall::StartBackup)),
                    Action::LoadAllItems => (None, Some(ServiceCall::LoadAll)),
                    _ => (None, None),
                }
            },
            _ => {
                match answer {
                    Some(Action::LWD(request)) => {
                        let call = match request {
                            ListWithDetailsAction::Delete(id) => Some(ServiceCall::Delete(id)),
                            ListWithDetailsAction::Create(t) => Some(ServiceCall::Create(t)),
                            ListWithDetailsAction::Update(t) => {
                                match kind {
                                    TabKind::DataPolicies | TabKind::BehaviorPolicies => Some(ServiceCall::Update(t)),
                                    _ => None,
                                }
                            },
                        };
                        (None, call)
                    },
                    Some(other) => (Some(other), None),
                    None => {
                        match action {
                            Action::LoadAllItems => (None, Some(ServiceCall::LoadAll)),
                            _ => (None, None),
                        }
                    },
                }
            },
        }
    }
}

impl TabComponent for ItemTab {
    fn get_name(&self) -> (name: &'static str)
        ensures
            name@ == tab_name(self.kind_spec()),
    {
        get_tab_name(self.kind)
    }
}

/// The action that reports that loading every item of `kind` ended with `result`.
pub fn loading_finished(kind: TabKind, result: Result<(), String>) -> (a: Action)
    ensures
        match kind {
            TabKind::Clients => a == Action::ClientDetailsLoadingFinished(result),
            _ => a matches Action::ItemsLoadingFinished { item_name, result: r } && item_name@ == kind_item_name(kind)
                && r == result,
        },
{
    match kind {
        TabKind::Clients => Action::ClientDetailsLoadingFinished(result),
        _ => Action::ItemsLoadingFinished { item_name: String::from_str(item_name(kind)), result },
    }
}

/// The action that reports that `call` on items of `kind` ended with `result`: a deletion
/// reports the deleted item; a creation, an update and a backup report a created item.
pub fn call_finished(kind: TabKind, call: &ServiceCall, result: Result<String, String>) -> (a: Option<Action>)
    ensures
        match call {
            ServiceCall::LoadAll => a is None,
            ServiceCall::Delete(_) => a matches Some(Action::ItemDeleted { item_name, result: r }) && item_name@
                == kind_item_name(kind) && r == result,
            _ => a matches Some(Action::ItemCreated { item_name, result: r }) && item_name@ == kind_item_name(kind)
                && r == result,
        },
{
    match call {
        ServiceCall::LoadAll => None,
        ServiceCall::Delete(_) => Some(Action::ItemDeleted { item_name: String::from_str(item_name(kind)), result }),
        _ => Some(Action::ItemCreated { item_name: String::from_str(item_name(kind)), result }),
    }
}

/// Picks behavior policies out of items.
#[derive(Debug, Clone, Copy, PartialEq, Eq, Structural)]
pub struct BehaviorPolicySelector;

/// Picks scripts out of items.
#[derive(Debug, Clone, Copy, PartialEq, Eq, Structural)]
pub struct ScriptSelector;

impl BehaviorPolicySelector {
    /// The behavior policy that `item` is, if it is one.
    pub fn select(&self, item: Item) -> (r: Option<Document>)
        ensures
            match item {
                Item::BehaviorPolicyItem(d) => r == Some(d),
                _ => r is None,
            },
    {
        match item {
            Item::BehaviorPolicyItem(policy) => Some(policy),
            _ => None,
        }
    }

    /// The behavior policy that `item` is, with its id.
    pub fn select_with_id(&self, item: Item) -> (r: Option<(String, Document)>)
        ensures
            match item {
                Item::BehaviorPolicyItem(d) => r matches Some((id, doc)) && id@ == d.id@ && doc == d,
                _ => r is None,
            },
    {
        match self.select(item) {
            Some(d) => Some((d.id.clone(), d)),
            None => None,
        }
    }
}

impl ScriptSelector {
    /// The script that `item` is, if it is one.
    pub fn select(&self, item: Item) -> (r: Option<Document>)
        ensures
            match item {
                Item::ScriptItem(d) => r == Some(d),
                _ => r is None,
            },
    {
        match item {
            Item::ScriptItem(script) => Some(script),
            _ => None,
        }
    }

    /// The script that `item` is, with its id.
    pub fn select_with_id(&self, item: Item) -> (r: Option<(String, Document)>)
        ensures
            match item {
                Item::ScriptItem(d) => r matches Some((id, doc)) && id@ == d.id@ && doc == d,
                _ => r is None,
            },
    {
        match self.select(item) {
            Some(d) => Some((d.id.clone(), d)),
            None => None,
        }
    }
}

} // verus!
