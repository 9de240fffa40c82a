use vstd::prelude::*;

use crate::text::{chars_from, chars_of, concat_string, has_prefix, is_text, occurs_at, string_of, trim_white, trim_white_chars};

verus! {

/// An item as the service hands it out: its id and its JSON document.
#[derive(Debug, PartialEq, Eq)]
pub struct Document {
    pub id: String,
    pub json: String,
}

/// An item of one of the kinds the tabs list.
#[derive(Debug, PartialEq, Eq)]
pub enum Item {
    ClientItem(Document),
    SchemaItem(Document),
    ScriptItem(Document),
    DataPolicyItem(Document),
    BehaviorPolicyItem(Document),
    BackupItem(Document),
    TraceRecordingItem(Document),
}

/// A request that a list with details hands to the tab that owns it.
#[derive(Debug, PartialEq, Eq)]
pub enum ListWithDetailsAction {
    Delete(String),
    Create(String),
    Update(String),
}

impl Clone for ListWithDetailsAction {
    fn clone(&self) -> (c: Self)
        ensures
            c == *self,
    {
        match self {
            ListWithDetailsAction::Delete(s) => ListWithDetailsAction::Delete(s.clone()),
            ListWithDetailsAction::Create(s) => ListWithDetailsAction::Create(s.clone()),
            ListWithDetailsAction::Update(s) => ListWithDetailsAction::Update(s.clone()),
        }
    }
}

/// Everything that components of the user interface send each other.
#[derive(Debug, PartialEq, Eq)]
pub enum Action {
    Tick,
    Render,
    Resize(u16, u16),
    Suspend,
    Resume,
    Quit,
    Refresh,
    Error(String),
    Help,
    ClosePopup,
    ConfirmPopup,
    PrevItem,
    NextItem,
    NewItem,
    Delete,
    Left,
    FocusDetails,
    Enter,
    Escape,
    NextTab,
    PrevTab,
    SelectTab(usize),
    LoadAllItems,
    Copy,
    Submit,
    SelectedItem(String),
    Inspect,
    Filter,
    CreateItem,
    UpdateItem,
    StartBackup,
    LWD(ListWithDetailsAction),
    ItemDelete { item_type: String, item_id: String },
    ItemDeleted { item_name: String, result: Result<String, String> },
    ItemsLoadingFinished { item_name: String, result: Result<(), String> },
    ItemCreated { item_name: String, result: Result<String, String> },
    ItemUpdated { item_name: String, result: Result<String, String> },
    ClientDetailsLoadingFinished(Result<(), String>),
}

fn clone_string_result(r: &Result<String, String>) -> (c: Result<String, String>)
    ensures
        c == *r,
{
    match r {
        Ok(s) => Ok(s.clone()),
        Err(e) => Err(e.clone()),
    }
}

fn clone_unit_result(r: &Result<(), String>) -> (c: Result<(), String>)
    ensures
        c == *r,
{
    match r {
        Ok(u) => Ok(*u),
        Err(e) => Err(e.clone()),
    }
}

impl Clone for Action {
    fn clone(&self) -> (c: Self)
        ensures
            c == *self,
    {
        match self {
            Action::Tick => Action::Tick,
            Action::Render => Action::Render,
            Action::Resize(w, h) => Action::Resize(*w, *h),
            Action::Suspend => Action::Suspend,
            Action::Resume => Action::Resume,
            Action::Quit => Action::Quit,
            Action::Refresh => Action::Refresh,
            Action::Error(m) => Action::Error(m.clone()),
            Action::Help => Action::Help,
            Action::ClosePopup => Action::ClosePopup,
            Action::ConfirmPopup => Action::ConfirmPopup,
            Action::PrevItem => Action::PrevItem,
            Action::NextItem => Action::NextItem,
            Action::NewItem => Action::NewItem,
            Action::Delete => Action::Delete,
            Action::Left => Action::Left,
            Action::FocusDetails => Action::FocusDetails,
            Action::Enter => Action::Enter,
            Action::Escape => Action::Escape,
            Action::NextTab => Action::NextTab,
            Action::PrevTab => Action::PrevTab,
            Action::SelectTab(i) => Action::SelectTab(*i),
            Action::LoadAllItems => Action::LoadAllItems,
            Action::Copy => Action::Copy,
            Action::Submit => Action::Submit,
            Action::SelectedItem(k) => Action::SelectedItem(k.clone()),
            Action::Inspect => Action::Inspect,
            Action::Filter => Action::Filter,
            Action::CreateItem => Action::CreateItem,
            Action::UpdateItem => Action::UpdateItem,
            Action::StartBackup => Action::StartBackup,
            Action::LWD(a) => Action::LWD(a.clone()),
            Action::ItemDelete { item_type, item_id } => Action::ItemDelete {
                item_type: item_type.clone(),
                item_id: item_id.clone(),
            },
            Action::ItemDeleted { item_name, result } => Action::ItemDeleted {
                item_name: item_name.clone(),
                result: clone_string_result(result),
            },
            Action::ItemsLoadingFinished { item_name, result } => Action::ItemsLoadingFinished {
                item_name: item_name.clone(),
                result: clone_unit_result(result),
            },
            Action::ItemCreated { item_name, result } => Action::ItemCreated {
                item_name: item_name.clone(),
                result: clone_string_result(result),
            },
            Action::ItemUpdated { item_name, result } => Action::ItemUpdated {
                item_name: item_name.clone(),
                result: clone_string_result(result),
            },
            Action::ClientDetailsLoadingFinished(r) => Action::ClientDetailsLoadingFinished(
                clone_unit_result(r),
            ),
        }
    }
}

/// The action a configuration name stands for, where the name carries no argument.
pub open spec fn named_action(v: Seq<char>) -> Option<Action> {
    if v == "Tick"@ {
        Some(Action::Tick)
    } else if v == "Render"@ {
        Some(Action::Render)
    } else if v == "Suspend"@ {
        Some(Action::Suspend)
    } else if v == "Resume"@ {
        Some(Action::Resume)
    } else if v == "Quit"@ {
        Some(Action::Quit)
    } else if v == "Refresh"@ {
        Some(Action::Refresh)
    } else if v == "Help"@ {
        Some(Action::Help)
    } else if v == "LoadAllItems"@ {
        Some(Action::LoadAllItems)
    } else if v == "Copy"@ {
        Some(Action::Copy)
    } else if v == "PrevItem"@ {
        Some(Action::PrevItem)
    } else if v == "NextItem"@ {
        Some(Action::NextItem)
    } else if v == "NewItem"@ {
        Some(Action::NewItem)
    } else if v == "DeleteItem"@ {
        Some(Action::Delete)
    } else if v == "FocusDetails"@ {
        Some(Action::FocusDetails)
    } else if v == "Enter"@ {
        Some(Action::Enter)
    } else if v == "Submit"@ {
        Some(Action::Submit)
    } else if v == "Escape"@ {
        Some(Action::Escape)
    } else if v == "NextTab"@ {
        Some(Action::NextTab)
    } else if v == "PrevTab"@ {
        Some(Action::PrevTab)
    } else if v == "ClosePopup"@ {
        Some(Action::ClosePopup)
    } else if v == "ConfirmPopup"@ {
        Some(Action::ConfirmPopup)
    } else if v == "Tab1"@ {
        Some(Action::SelectTab(0))
    } else if v == "Tab2"@ {
        Some(Action::SelectTab(1))
    } else if v == "Tab3"@ {
        Some(Action::SelectTab(2))
    } else if v == "Tab4"@ {
        Some(Action::SelectTab(3))
    } else if v == "Tab5"@ {
        Some(Action::SelectTab(4))
    } else if v == "Tab6"@ {
        Some(Action::SelectTab(5))
    } else if v == "Tab7"@ {
        Some(Action::SelectTab(6))
    } else {
        None
    }
}

/// `s` with every leading repetition of `p` removed (`str::trim_start_matches`).
pub open spec fn strip_leading(s: Seq<char>, p: Seq<char>) -> Seq<char>
    decreases s.len(),
{
    if p.len() > 0 && has_prefix(s, p) {
        strip_leading(s.skip(p.len() as int), p)
    } else {
        s
    }
}

/// `s` with every trailing `c` removed (`str::trim_end_matches` with a one-character pattern).
pub open spec fn strip_trailing(s: Seq<char>, c: char) -> Seq<char>
    decreases s.len(),
{
    if s.len() > 0 && s.last() == c {
        strip_trailing(s.drop_last(), c)
    } else {
        s
    }
}

/// The pieces of `s` between the occurrences of `c` (`str::split` with a character).
pub open spec fn split_char(s: Seq<char>, c: char) -> Seq<Seq<char>>
    decreases s.len(),
{
    if s.len() == 0 {
        seq![s]
    } else if s[0] == c {
        seq![Seq::<char>::empty()] + split_char(s.drop_first(), c)
    } else {
        let rest = split_char(s.drop_first(), c);
        rest.update(0, seq![s[0]] + rest[0])
    }
}

/// The message of an `Error(...)` action: the text after the leading `Error(`s and
/// before the trailing `)`s.
pub open spec fn error_message(v: Seq<char>) -> Seq<char> {
    strip_trailing(strip_leading(v, "Error("@), ')')
}

/// The comma-separated arguments of a `Resize(...)` action, before trimming.
pub open spec fn resize_arguments(v: Seq<char>) -> Seq<Seq<char>> {
    split_char(strip_trailing(strip_leading(v, "Resize("@), ')'), ',')
}

/// The value of a string of decimal digits.
pub open spec fn digits_value(d: Seq<char>) -> nat
    decreases d.len(),
{
    if d.len() == 0 {
        0
    } else {
        digits_value(d.drop_last()) * 10 + ((d.last() as u32) - 48) as nat
    }
}

pub open spec fn is_digit(c: char) -> bool {
    '0' <= c && c <= '9'
}

/// The `u16` that a text denotes when parsed as `str::parse::<u16>` does: an optional `+`
/// followed by one or more ASCII digits whose value fits in 16 bits.
pub open spec fn u16_text_value(s: Seq<char>) -> Option<u16> {
    let d = if s.len() > 0 && s[0] == '+' {
        s.drop_first()
    } else {
        s
    };
    if d.len() > 0 && (forall|i: int| 0 <= i < d.len() ==> is_digit(#[trigger] d[i])) && digits_value(d)
        <= u16::MAX {
        Some(digits_value(d) as u16)
    } else {
        None
    }
}

/// Calls `str::parse::<u16>`. It succeeds exactly on an optional `+` followed by decimal
/// digits whose value fits in a `u16`, as the standard library documents; the text of the
/// error message is left unsaid.
#[verifier::external_body]
fn parse_u16(s: &str) -> (r: Result<u16, String>)
    ensures
        match r {
            Ok(n) => u16_text_value(s@) == Some(n),
            Err(_) => u16_text_value(s@) is None,
        },
{
    s.parse::<u16>().map_err(|e| e.to_string())
}

fn strip_leading_chars(s: &[char], p: &[char]) -> (r: Vec<char>)
    requires
        p@.len() > 0,
    ensures
        r@ == strip_leading(s@, p@),
{
    let mut i: usize = 0;
    assert(s@.skip(0) =~= s@);
    while i <= s.len() && occurs_at(s, i, p)
        invariant
            i <= s@.len(),
            p@.len() > 0,
            strip_leading(s@, p@) == strip_leading(s@.skip(i as int), p@),
        decreases s@.len() - i,
    {
        assert(s@.skip(i as int).skip(p@.len() as int) =~= s@.skip(i + p@.len()));
        i = i + p.len();
    }
    chars_from(s, i)
}

fn strip_trailing_chars(s: Vec<char>, c: char) -> (r: Vec<char>)
    ensures
        r@ == strip_trailing(s@, c),
{
    let mut r = s;
    while r.len() > 0 && r[r.len() - 1] == c
        invariant
            strip_trailing(s@, c) == strip_trailing(r@, c),
        decreases r@.len(),
    {
        r.pop();
    }
    r
}

proof fn lemma_split_char_nonempty(s: Seq<char>, c: char)
    ensures
        split_char(s, c).len() >= 1,
    decreases s.len(),
{
    if s.len() > 0 {
        lemma_split_char_nonempty(s.drop_first(), c);
    }
}

fn split_at_char(s: &[char], c: char) -> (parts: Vec<Vec<char>>)
    ensures
        parts@.map_values(|p: Vec<char>| p@) == split_char(s@, c),
{
    let mut parts: Vec<Vec<char>> = Vec::new();
    let mut cur: Vec<char> = Vec::new();
    let mut i: usize = 0;
    assert(s@.skip(0) =~= s@);
    proof {
        lemma_split_char_nonempty(s@, c);
        let l = split_char(s@, c);
        assert(l.update(0, cur@ + l[0]) =~= l);
    }
    while i < s.len()
        invariant
            i <= s@.len(),
            split_char(s@, c) == parts@.map_values(|p: Vec<char>| p@) + {
                let l = split_char(s@.skip(i as int), c);
                l.update(0, cur@ + l[0])
            },
        decreases s@.len() - i,
    {
        let ghost rest = s@.skip(i as int);
        assert(rest.drop_first() =~= s@.skip(i + 1));
        proof {
            lemma_split_char_nonempty(rest.drop_first(), c);
        }
        if s[i] == c {
            let ghost tail = split_char(rest.drop_first(), c);
            assert(tail.update(0, Seq::<char>::empty() + tail[0]) =~= tail);
            let ghost old_parts = parts@;
            let done = cur;
            parts.push(done);
            cur = Vec::new();
            assert(parts@.map_values(|p: Vec<char>| p@) =~= old_parts.map_values(|p: Vec<char>| p@).push(done@));
            assert(seq![done@] + tail =~= (seq![Seq::<char>::empty()] + tail).update(0, done@ + Seq::<char>::empty()));
            assert(old_parts.map_values(|p: Vec<char>| p@) + seq![done@] + tail =~= old_parts.map_values(|p: Vec<char>| p@) + (seq![done@] + tail));
        } else {
            let ghost tail = split_char(rest.drop_first(), c);
            assert(cur@ + (seq![s@[i as int]] + tail[0]) =~= cur@.push(s@[i as int]) + tail[0]);
            assert(tail.update(0, seq![rest[0]] + tail[0]).update(0, cur@ + (seq![rest[0]] + tail[0])) =~= tail.update(0, cur@.push(s@[i as int]) + tail[0]));
            cur.push(s[i]);
        }
        i = i + 1;
    }
    proof {
        assert(s@.skip(i as int) =~= Seq::<char>::empty());
        let l = split_char(Seq::<char>::empty(), c);
        assert(l.update(0, cur@ + l[0]) =~= seq![cur@]);
    }
    let ghost old_parts = parts@;
    let done = cur;
    parts.push(done);
    assert(parts@.map_values(|p: Vec<char>| p@) =~= old_parts.map_values(|p: Vec<char>| p@).push(done@));
    parts
}

/// Reads the two already trimmed arguments of a `Resize(...)` action as width and height.
pub fn resize_action(width: &str, height: &str) -> (res: Result<Action, String>)
    ensures
        match res {
            Ok(a) => u16_text_value(width@) is Some && u16_text_value(height@) is Some && a == Action::Resize(
                u16_text_value(width@).unwrap(),
                u16_text_value(height@).unwrap(),
            ),
            Err(_) => u16_text_value(width@) is None || u16_text_value(height@) is None,
        },
{
    let w = match parse_u16(width) {
        Ok(w) => w,
        Err(e) => {
            return Err(e);
        },
    };
    let h = match parse_u16(height) {
        Ok(h) => h,
        Err(e) => {
            return Err(e);
        },
    };
    Ok(Action::Resize(w, h))
}

fn named_action_of(v: &[char]) -> (r: Option<Action>)
    ensures
        r == named_action(v@),
{
    if is_text(v, "Tick") {
        Some(Action::Tick)
    } else if is_text(v, "Render") {
        Some(Action::Render)
    } else if is_text(v, "Suspend") {
        Some(Action::Suspend)
    } else if is_text(v, "Resume") {
        Some(Action::Resume)
    } else if is_text(v, "Quit") {
        Some(Action::Quit)
    } else if is_text(v, "Refresh") {
        Some(Action::Refresh)
    } else if is_text(v, "Help") {
        Some(Action::Help)
    } else if is_text(v, "LoadAllItems") {
        Some(Action::LoadAllItems)
    } else if is_text(v, "Copy") {
        Some(Action::Copy)
    } else if is_text(v, "PrevItem") {
        Some(Action::PrevItem)
    } else if is_text(v, "NextItem") {
        Some(Action::NextItem)
    } else if is_text(v, "NewItem") {
        Some(Action::NewItem)
    } else if is_text(v, "DeleteItem") {
        Some(Action::Delete)
    } else if is_text(v, "FocusDetails") {
        Some(Action::FocusDetails)
    } else if is_text(v, "Enter") {
        Some(Action::Enter)
    } else if is_text(v, "Submit") {
        Some(Action::Submit)
    } else if is_text(v, "Escape") {
        Some(Action::Escape)
    } else if is_text(v, "NextTab") {
        Some(Action::NextTab)
    } else if is_text(v, "PrevTab") {
        Some(Action::PrevTab)
    } else if is_text(v, "ClosePopup") {
        Some(Action::ClosePopup)
    } else if is_text(v, "ConfirmPopup") {
        Some(Action::ConfirmPopup)
    } else if is_text(v, "Tab1") {
        Some(Action::SelectTab(0))
    } else if is_text(v, "Tab2") {
        Some(Action::SelectTab(1))
    } else if is_text(v, "Tab3") {
        Some(Action::SelectTab(2))
    } else if is_text(v, "Tab4") {
        Some(Action::SelectTab(3))
    } else if is_text(v, "Tab5") {
        Some(Action::SelectTab(4))
    } else if is_text(v, "Tab6") {
        Some(Action::SelectTab(5))
    } else if is_text(v, "Tab7") {
        Some(Action::SelectTab(6))
    } else {
        None
    }
}

/// Reads an action from its name in the configuration: a plain name, `Error(message)`
/// or `Resize(width, height)`.
pub fn parse_action(value: &str) -> (res: Result<Action, String>)
    ensures
        named_action(value@) is Some ==> res == Ok::<Action, String>(named_action(value@).unwrap()),
        named_action(value@) is None && has_prefix(value@, "Error("@) ==> (res matches Ok(
            Action::Error(m),
        ) && m@ == error_message(value@)),
        named_action(value@) is None && !has_prefix(value@, "Error("@) && has_prefix(value@, "Resize("@)
            ==> {
            let args = resize_arguments(value@);
            if args.len() == 2 {
                let w = u16_text_value(trim_white(args[0]));
                let h = u16_text_value(trim_white(args[1]));
                match res {
                    Ok(a) => w is Some && h is Some && a == Action::Resize(w.unwrap(), h.unwrap()),
                    Err(_) => w is None || h is None,
                }
            } else {
                (res matches Err(e) && e@ == "Invalid Resize format: "@ + value@)
            }
        },
        named_action(value@) is None && !has_prefix(value@, "Error("@) && !has_prefix(value@, "Resize("@)
            ==> (res matches Err(e) && e@ == "Unknown Action variant: "@ + value@),
{
    let v = chars_of(value);
    if let Some(a) = named_action_of(v.as_slice()) {
        return Ok(a);
    }
    let error_prefix = chars_of("Error(");
    if occurs_at(v.as_slice(), 0, error_prefix.as_slice()) {
        proof {
            reveal_strlit("Error(");
        }
        assert(v@.skip(0) =~= v@);
        let body = strip_leading_chars(v.as_slice(), error_prefix.as_slice());
        let message = strip_trailing_chars(body, ')');
        return Ok(Action::Error(string_of(message.as_slice())));
    }
    let resize_prefix = chars_of("Resize(");
    assert(v@.skip(0) =~= v@);
    if occurs_at(v.as_slice(), 0, resize_prefix.as_slice()) {
        proof {
            reveal_strlit("Resize(");
        }
        let body = strip_leading_chars(v.as_slice(), resize_prefix.as_slice());
        let body = strip_trailing_chars(body, ')');
        let parts = split_at_char(body.as_slice(), ',');
        if parts.len() == 2 {
            assert(parts@[0]@ == resize_arguments(value@)[0]);
            assert(parts@[1]@ == resize_arguments(value@)[1]);
            let width = string_of(trim_white_chars(parts[0].as_slice()).as_slice());
            let height = string_of(trim_white_chars(parts[1].as_slice()).as_slice());
            return resize_action(width.as_str(), height.as_str());
        } else {
            let prefix = chars_of("Invalid Resize format: ");
            return Err(concat_string(prefix.as_slice(), v.as_slice()));
        }
    }
    let prefix = chars_of("Unknown Action variant: ");
    Err(concat_string(prefix.as_slice(), v.as_slice()))
}

} // verus!
