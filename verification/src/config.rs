use vstd::prelude::*;

use crate::action::Action;
use crate::keys::{decimal, decimal_chars, parse_key_sequence, spec_parse_key_sequence, KeyCode, KeyEvent, KeyModifiers};
use crate::mode::Mode;
use crate::styles::{is_style_readable, parse_style, spec_parse_style, style_readable, Style};
use crate::text::{chars_of, concat, string_of};
use vstd::string::StringExecFns;

verus! {

/// Where the application keeps its data and its configuration.
#[derive(Debug, Clone, PartialEq, Eq, Default)]
pub struct AppConfig {
    pub _data_dir: String,
    pub _config_dir: String,
}

/// A group of key bindings shown as one key hint, under this name.
#[derive(Debug, PartialEq, Eq)]
pub struct GroupValue {
    pub display_name: String,
}

/// What a key sequence does in a mode: its action, and how it is shown among the key hints
/// (under a name of its own, or as part of a group).
#[derive(Debug, PartialEq, Eq)]
pub struct KeyBinding {
    pub action: Action,
    pub display_name: Option<String>,
    pub display_group: Option<String>,
}

/// The key bindings of one mode as the configuration writes them: its groups of key hints, the
/// modes whose bindings it takes over, and its own bindings by key sequence.
#[derive(Debug, PartialEq, Eq)]
pub struct ModeValue {
    pub display_groups: Option<Vec<(String, GroupValue)>>,
    pub extends: Option<Vec<Mode>>,
    pub key_bindings: Vec<(String, KeyBinding)>,
}

/// The key bindings of every mode: what each key sequence does, and the key hints shown.
#[derive(Debug)]
pub struct KeyBindings {
    pub bindings: Vec<(Mode, Vec<(Vec<KeyEvent>, Action)>)>,
    pub display_names: Vec<(Mode, Vec<String>)>,
}

/// A key binding as the contracts see it.
pub struct KeyBindingView {
    pub action: Action,
    pub display_name: Option<Seq<char>>,
    pub display_group: Option<Seq<char>>,
}

/// The key bindings of a mode as the contracts see them; a mode that extends none has no
/// modes to extend.
pub struct ModeValueView {
    pub display_groups: Option<Seq<(Seq<char>, Seq<char>)>>,
    pub extends: Seq<Mode>,
    pub key_bindings: Seq<(Seq<char>, KeyBindingView)>,
}

pub open spec fn opt_view(o: Option<String>) -> Option<Seq<char>> {
    match o {
        Some(s) => Some(s@),
        None => None,
    }
}

impl View for KeyBinding {
    type V = KeyBindingView;

    open spec fn view(&self) -> KeyBindingView {
        KeyBindingView {
            action: self.action,
            display_name: opt_view(self.display_name),
            display_group: opt_view(self.display_group),
        }
    }
}

impl View for ModeValue {
    type V = ModeValueView;

    open spec fn view(&self) -> ModeValueView {
        ModeValueView {
            display_groups: match self.display_groups {
                Some(g) => Some(g@.map_values(|p: (String, GroupValue)| (p.0@, p.1.display_name@))),
                None => None,
            },
            extends: match self.extends {
                Some(e) => e@,
                None => Seq::empty(),
            },
            key_bindings: self.key_bindings@.map_values(|p: (String, KeyBinding)| (p.0@, p.1@)),
        }
    }
}

/// The modes of a configuration as the contracts see them.
pub open spec fn modes_view(modes: Seq<(Mode, ModeValue)>) -> Seq<(Mode, ModeValueView)> {
    modes.map_values(|p: (Mode, ModeValue)| (p.0, p.1@))
}

/// The position of the first occurrence of `k` in `keys`.
pub open spec fn first_index<K>(keys: Seq<K>, k: K) -> Option<int> {
    if exists|i: int| 0 <= i < keys.len() && keys[i] == k {
        Some(choose|i: int| 0 <= i < keys.len() && keys[i] == k && forall|j: int| 0 <= j < i ==> keys[j] != k)
    } else {
        None
    }
}

/// The keys of an association list.
pub open spec fn keys_of<K, V>(m: Seq<(K, V)>) -> Seq<K> {
    m.map_values(|p: (K, V)| p.0)
}

/// An association list (a map that keeps the order in which keys came) with `k` bound to `v`:
/// a key already there keeps its place and takes the new value; a new key comes last.
pub open spec fn assoc_insert<K, V>(m: Seq<(K, V)>, k: K, v: V) -> Seq<(K, V)> {
    match first_index(keys_of(m), k) {
        Some(i) => m.update(i, (k, v)),
        None => m.push((k, v)),
    }
}

/// The association list `m` with the entries `entries` bound in order.
pub open spec fn insert_all<K, V>(m: Seq<(K, V)>, entries: Seq<(K, V)>) -> Seq<(K, V)>
    decreases entries.len(),
{
    if entries.len() == 0 {
        m
    } else {
        assoc_insert(insert_all(m, entries.drop_last()), entries.last().0, entries.last().1)
    }
}

/// The positions of the key bindings that mode `m` takes, in order: those of the modes it
/// extends (in order, each with those it extends), then its own. There are none when a mode is
/// missing or the modes extend each other more than `fuel` deep.
pub open spec fn collected(modes: Seq<(Mode, ModeValueView)>, m: Mode, fuel: nat) -> Option<Seq<int>>
    decreases fuel, 0nat,
{
    if fuel == 0 {
        None
    } else {
        match first_index(keys_of(modes), m) {
            None => None,
            Some(i) => match collected_all(modes, modes[i].1.extends, (fuel - 1) as nat) {
                Some(s) => Some(s.push(i)),
                None => None,
            },
        }
    }
}

/// The positions of the key bindings that the modes `ext` take, one mode after the other.
pub open spec fn collected_all(modes: Seq<(Mode, ModeValueView)>, ext: Seq<Mode>, fuel: nat) -> Option<Seq<int>>
    decreases fuel, ext.len(),
{
    if ext.len() == 0 {
        Some(Seq::empty())
    } else {
        match collected_all(modes, ext.drop_last(), fuel) {
            None => None,
            Some(s) => match collected(modes, ext.last(), fuel) {
                Some(t) => Some(s + t),
                None => None,
            },
        }
    }
}

/// The groups of key hints of the mode values `vs`, by name, with their display names; a later
/// group of the same name gives its display name to the earlier.
pub open spec fn groups_of(vs: Seq<ModeValueView>) -> Seq<(Seq<char>, Seq<char>)>
    decreases vs.len(),
{
    if vs.len() == 0 {
        Seq::empty()
    } else {
        let g = groups_of(vs.drop_last());
        match vs.last().display_groups {
            Some(d) => insert_all(g, d),
            None => g,
        }
    }
}

/// What binding a mode's keys has gathered: the action of each key sequence, the display name
/// of each key sequence shown on its own, and the key presses of each group of hints.
pub struct ModeBuild {
    pub actions: Seq<(Seq<KeyEvent>, Action)>,
    pub names: Seq<(Seq<KeyEvent>, Seq<char>)>,
    pub group_events: Seq<Seq<KeyEvent>>,
}

/// Binds the key sequence `key` as `kb` says, given the mode's groups: its key presses join
/// their group, or are shown under their own name; they do the binding's action. There is
/// nothing when `key` is not a key sequence or names a group that the mode does not have.
pub open spec fn bind_one(st: ModeBuild, groups: Seq<(Seq<char>, Seq<char>)>, key: Seq<char>, kb: KeyBindingView) -> Option<ModeBuild> {
    match spec_parse_key_sequence(key) {
        Err(_) => None,
        Ok(events) => {
            let shown = match kb.display_group {
                Some(g) => match first_index(keys_of(groups), g) {
                    Some(i) => Some(
                        ModeBuild { group_events: st.group_events.update(i, st.group_events[i] + events), ..st },
                    ),
                    None => None,
                },
                None => match kb.display_name {
                    Some(n) => Some(ModeBuild { names: assoc_insert(st.names, events, n), ..st }),
                    None => Some(st),
                },
            };
            match shown {
                Some(s) => Some(ModeBuild { actions: assoc_insert(s.actions, events, kb.action), ..s }),
                None => None,
            }
        },
    }
}

/// Binds the key sequences `bindings` in order.
pub open spec fn bind_all(st: ModeBuild, groups: Seq<(Seq<char>, Seq<char>)>, bindings: Seq<(Seq<char>, KeyBindingView)>) -> Option<ModeBuild>
    decreases bindings.len(),
{
    if bindings.len() == 0 {
        Some(st)
    } else {
        match bind_all(st, groups, bindings.drop_last()) {
            Some(s) => bind_one(s, groups, bindings.last().0, bindings.last().1),
            None => None,
        }
    }
}

/// Binds the key sequences of the mode values `vs` in order.
pub open spec fn bind_values(st: ModeBuild, groups: Seq<(Seq<char>, Seq<char>)>, vs: Seq<ModeValueView>) -> Option<ModeBuild>
    decreases vs.len(),
{
    if vs.len() == 0 {
        Some(st)
    } else {
        match bind_values(st, groups, vs.drop_last()) {
            Some(s) => bind_all(s, groups, vs.last().key_bindings),
            None => None,
        }
    }
}

/// The display names with those of the first `n` groups added, each under the key presses of
/// its group.
pub open spec fn add_group_names(names: Seq<(Seq<KeyEvent>, Seq<char>)>, groups: Seq<(Seq<char>, Seq<char>)>, group_events: Seq<Seq<KeyEvent>>, n: nat) -> Seq<(Seq<KeyEvent>, Seq<char>)>
    decreases n,
{
    if n == 0 {
        names
    } else {
        assoc_insert(
            add_group_names(names, groups, group_events, (n - 1) as nat),
            group_events[n - 1],
            groups[n - 1].1,
        )
    }
}

/// The symbol shown for the modifiers of a key press: one for `shift`, `ctrl` or `alt` held
/// alone (on macOS the keyboard's own symbols for the last two), nothing otherwise.
pub open spec fn modifier_symbol(m: KeyModifiers, is_macos: bool) -> Seq<char> {
    if m == (KeyModifiers { shift: true, ..KeyModifiers::none_spec() }) {
        "⇧"@
    } else if m == (KeyModifiers { control: true, ..KeyModifiers::none_spec() }) {
        if is_macos {
            "⌃"@
        } else {
            "Ctrl-"@
        }
    } else if m == (KeyModifiers { alt: true, ..KeyModifiers::none_spec() }) {
        if is_macos {
            "⌥"@
        } else {
            "Alt-"@
        }
    } else {
        Seq::empty()
    }
}

/// The symbol shown for a key.
pub open spec fn code_symbol(code: KeyCode) -> Seq<char> {
    match code {
        KeyCode::Backspace => "⌫"@,
        KeyCode::Enter => "⏎"@,
        KeyCode::Left => "←"@,
        KeyCode::Right => "→"@,
        KeyCode::Up => "↑"@,
        KeyCode::Down => "↓"@,
        KeyCode::Home => "⌂"@,
        KeyCode::End => "⇲"@,
        KeyCode::PageUp => "PgUp"@,
        KeyCode::PageDown => "PgDown"@,
        KeyCode::Tab => "↹"@,
        KeyCode::BackTab => "⇧↹"@,
        KeyCode::Delete => "⌫"@,
        KeyCode::Insert => "Insert"@,
        KeyCode::F(n) => "F"@ + decimal(n as nat),
        KeyCode::Char(c) => seq![c],
        KeyCode::Null => "Null"@,
        KeyCode::Esc => "Esc"@,
        KeyCode::CapsLock => "⇪"@,
        KeyCode::ScrollLock => "⤓"@,
        KeyCode::NumLock => "NumLock"@,
        KeyCode::PrintScreen => "PrtSc"@,
        KeyCode::Pause => "Pause"@,
        KeyCode::Menu => "Menu"@,
        KeyCode::KeypadBegin => "￣"@,
        KeyCode::Media => "?"@,
        KeyCode::Modifier => "?"@,
    }
}

/// The symbols of the key presses `events`, one after the other.
pub open spec fn events_symbols(events: Seq<KeyEvent>, is_macos: bool) -> Seq<char>
    decreases events.len(),
{
    if events.len() == 0 {
        Seq::empty()
    } else {
        events_symbols(events.drop_last(), is_macos) + modifier_symbol(events.last().modifiers, is_macos)
            + code_symbol(events.last().code)
    }
}

/// The key hint that shows `name` for the key presses `events`, such as `Quit [q]`.
pub open spec fn key_hint(name: Seq<char>, events: Seq<KeyEvent>, is_macos: bool) -> Seq<char> {
    name + " ["@ + events_symbols(events, is_macos) + "]"@
}

/// A key press of `code` with no modifier held.
pub open spec fn plain_press(code: KeyCode) -> KeyEvent {
    KeyEvent { code, modifiers: KeyModifiers::none_spec() }
}

proof fn lemma_single_press_symbols(code: KeyCode, is_macos: bool)
    ensures
        events_symbols(seq![plain_press(code)], is_macos) == code_symbol(code),
{
    let e = seq![plain_press(code)];
    assert(e.drop_last() =~= Seq::<KeyEvent>::empty());
    assert(events_symbols(e.drop_last(), is_macos) == Seq::<char>::empty());
    assert(e.last() == plain_press(code));
    assert(modifier_symbol(KeyModifiers::none_spec(), is_macos) == Seq::<char>::empty());
    assert(Seq::<char>::empty() + Seq::<char>::empty() + code_symbol(code) =~= code_symbol(code));
}

/// The key hint of a single arrow key names it by the arrow pointing its way: `name [←]`,
/// `name [→]`, `name [↑]` and `name [↓]`, so the hints of the four arrows differ.
pub proof fn lemma_arrow_key_hints(name: Seq<char>, is_macos: bool)
    ensures
        key_hint(name, seq![plain_press(KeyCode::Left)], is_macos) == name + seq![' ', '[', '\u{2190}', ']'],
        key_hint(name, seq![plain_press(KeyCode::Right)], is_macos) == name + seq![' ', '[', '\u{2192}', ']'],
        key_hint(name, seq![plain_press(KeyCode::Up)], is_macos) == name + seq![' ', '[', '\u{2191}', ']'],
        key_hint(name, seq![plain_press(KeyCode::Down)], is_macos) == name + seq![' ', '[', '\u{2193}', ']'],
{
    reveal_strlit(" [");
    reveal_strlit("]");
    reveal_strlit("\u{2190}");
    reveal_strlit("\u{2192}");
    reveal_strlit("\u{2191}");
    reveal_strlit("\u{2193}");
    lemma_single_press_symbols(KeyCode::Left, is_macos);
    lemma_single_press_symbols(KeyCode::Right, is_macos);
    lemma_single_press_symbols(KeyCode::Up, is_macos);
    lemma_single_press_symbols(KeyCode::Down, is_macos);
    assert(key_hint(name, seq![plain_press(KeyCode::Left)], is_macos) =~= name + seq![' ', '[', '\u{2190}', ']']);
    assert(key_hint(name, seq![plain_press(KeyCode::Right)], is_macos) =~= name + seq![' ', '[', '\u{2192}', ']']);
    assert(key_hint(name, seq![plain_press(KeyCode::Up)], is_macos) =~= name + seq![' ', '[', '\u{2191}', ']']);
    assert(key_hint(name, seq![plain_press(KeyCode::Down)], is_macos) =~= name + seq![' ', '[', '\u{2193}', ']']);
}

/// The key hints of the display names `names`, in order.
pub open spec fn hints_of(names: Seq<(Seq<KeyEvent>, Seq<char>)>, is_macos: bool) -> Seq<Seq<char>> {
    names.map_values(|p: (Seq<KeyEvent>, Seq<char>)| key_hint(p.1, p.0, is_macos))
}

/// The key bindings of one mode: the action of each key sequence and the key hints.
pub struct ModeBindings {
    pub actions: Seq<(Seq<KeyEvent>, Action)>,
    pub hints: Seq<Seq<char>>,
}

/// The key bindings of mode `m`: its own and those it takes over, with the hints of its
/// groups last. There are none when a mode is missing, the modes extend each other more deeply
/// than there are modes, a key sequence does not parse, or a binding names a group the mode
/// does not have.
pub open spec fn mode_bindings(modes: Seq<(Mode, ModeValueView)>, m: Mode, is_macos: bool) -> Option<ModeBindings> {
    match collected(modes, m, modes.len()) {
        None => None,
        Some(idx) => {
            let vs = idx.map_values(|j: int| modes[j].1);
            let groups = groups_of(vs);
            let init = ModeBuild {
                actions: Seq::empty(),
                names: Seq::empty(),
                group_events: Seq::new(groups.len(), |i: int| Seq::<KeyEvent>::empty()),
            };
            match bind_values(init, groups, vs) {
                None => None,
                Some(b) => Some(
                    ModeBindings {
                        actions: b.actions,
                        hints: hints_of(add_group_names(b.names, groups, b.group_events, groups.len()), is_macos),
                    },
                ),
            }
        },
    }
}

/// The key bindings of the first `n` modes, in order; none when one of them has none.
pub open spec fn all_bindings(modes: Seq<(Mode, ModeValueView)>, n: nat, is_macos: bool) -> Option<Seq<(Mode, ModeBindings)>>
    decreases n,
{
    if n == 0 {
        Some(Seq::empty())
    } else {
        match all_bindings(modes, (n - 1) as nat, is_macos) {
            None => None,
            Some(s) => match mode_bindings(modes, modes[n - 1].0, is_macos) {
                None => None,
                Some(b) => Some(s.push((modes[n - 1].0, b))),
            },
        }
    }
}

/// The position `i` is the first occurrence of `k` in `keys`.
proof fn lemma_first_index_at<K>(keys: Seq<K>, k: K, i: int)
    requires
        0 <= i < keys.len(),
        keys[i] == k,
        forall|j: int| 0 <= j < i ==> keys[j] != k,
    ensures
        first_index(keys, k) == Some(i),
{
    let c = choose|c: int| 0 <= c < keys.len() && keys[c] == k && forall|j: int| 0 <= j < c ==> keys[j] != k;
    assert(0 <= c < keys.len() && keys[c] == k && forall|j: int| 0 <= j < c ==> keys[j] != k);
    if c < i {
        assert(keys[c] != k);
    }
    if c > i {
        assert(keys[i] != k);
    }
}

pub open spec fn opt_int(r: Option<usize>) -> Option<int> {
    match r {
        Some(i) => Some(i as int),
        None => None,
    }
}

pub open spec fn positions(v: Seq<usize>) -> Seq<int> {
    v.map_values(|x: usize| x as int)
}

pub open spec fn opt_positions(r: Option<Vec<usize>>) -> Option<Seq<int>> {
    match r {
        Some(v) => Some(positions(v@)),
        None => None,
    }
}

/// The position of the first entry of mode `m`.
fn find_mode(modes: &Vec<(Mode, ModeValue)>, m: Mode) -> (r: Option<usize>)
    ensures
        opt_int(r) == first_index(keys_of(modes_view(modes@)), m),
        r matches Some(i) ==> i < modes@.len() && modes@[i as int].0 == m,
{
    let ghost keys = keys_of(modes_view(modes@));
    let mut i: usize = 0;
    while i < modes.len()
        invariant
            i <= modes@.len(),
            keys == keys_of(modes_view(modes@)),
            keys.len() == modes@.len(),
            forall|j: int| 0 <= j < i ==> keys[j] != m,
        decreases modes@.len() - i,
    {
        assert(keys[i as int] == modes@[i as int].0);
        if modes[i].0 == m {
            proof {
                lemma_first_index_at(keys, m, i as int);
            }
            return Some(i);
        }
        i = i + 1;
    }
    None
}

/// The positions of the key bindings that mode `m` takes (see `collected`).
fn collect_modes(modes: &Vec<(Mode, ModeValue)>, m: Mode, fuel: usize) -> (r: Option<Vec<usize>>)
    ensures
        opt_positions(r) == collected(modes_view(modes@), m, fuel as nat),
        r matches Some(v) ==> forall|j: int| 0 <= j < v@.len() ==> v@[j] < modes@.len(),
    decreases fuel, 0nat,
{
    if fuel == 0 {
        return None;
    }
    let i = match find_mode(modes, m) {
        Some(i) => i,
        None => {
            return None;
        },
    };
    assert(modes_view(modes@)[i as int].1 == modes@[i as int].1@);
    let extended = match &modes[i].1.extends {
        Some(ext) => collect_all(modes, ext, fuel - 1),
        None => Some(Vec::new()),
    };
    match extended {
        Some(mut v) => {
            let ghost before = v@;
            v.push(i);
            assert(positions(v@) =~= positions(before).push(i as int));
            Some(v)
        },
        None => None,
    }
}

/// Once the modes of a prefix of `ext` cannot be collected, those of `ext` cannot either.
proof fn lemma_collected_all_none(modes: Seq<(Mode, ModeValueView)>, ext: Seq<Mode>, k: int, fuel: nat)
    requires
        0 <= k <= ext.len(),
        collected_all(modes, ext.take(k), fuel) is None,
    ensures
        collected_all(modes, ext, fuel) is None,
    decreases ext.len() - k,
{
    if k < ext.len() {
        assert(ext.take(k + 1).drop_last() =~= ext.take(k));
        lemma_collected_all_none(modes, ext, k + 1, fuel);
    } else {
        assert(ext.take(k) =~= ext);
    }
}

/// The positions of the key bindings that the modes `ext` take (see `collected_all`).
fn collect_all(modes: &Vec<(Mode, ModeValue)>, ext: &Vec<Mode>, fuel: usize) -> (r: Option<Vec<usize>>)
    ensures
        opt_positions(r) == collected_all(modes_view(modes@), ext@, fuel as nat),
        r matches Some(v) ==> forall|j: int| 0 <= j < v@.len() ==> v@[j] < modes@.len(),
    decreases fuel, 1nat,
{
    let mut acc: Vec<usize> = Vec::new();
    let mut k: usize = 0;
    while k < ext.len()
        invariant
            k <= ext@.len(),
            collected_all(modes_view(modes@), ext@.take(k as int), fuel as nat) == Some(positions(acc@)),
            forall|j: int| 0 <= j < acc@.len() ==> acc@[j] < modes@.len(),
        decreases ext@.len() - k,
    {
        assert(ext@.take(k + 1).drop_last() =~= ext@.take(k as int));
        assert(ext@.take(k + 1).last() == ext@[k as int]);
        match collect_modes(modes, ext[k], fuel) {
            Some(mut t) => {
                let ghost a = acc@;
                let ghost b = t@;
                acc.append(&mut t);
                assert(positions(acc@) =~= positions(a) + positions(b));
            },
            None => {
                proof {
                    lemma_collected_all_none(modes_view(modes@), ext@, k + 1, fuel as nat);
                }
                return None;
            },
        }
        k = k + 1;
    }
    assert(ext@.take(ext@.len() as int) =~= ext@);
    Some(acc)
}

pub open spec fn pairs_view(v: Seq<(String, String)>) -> Seq<(Seq<char>, Seq<char>)> {
    v.map_values(|p: (String, String)| (p.0@, p.1@))
}

/// Binds the name `k` to `v` (see `assoc_insert`).
fn insert_pair(m: &mut Vec<(String, String)>, k: String, v: String)
    ensures
        pairs_view(final(m)@) == assoc_insert(pairs_view(old(m)@), k@, v@),
{
    let ghost keys = keys_of(pairs_view(m@));
    let mut i: usize = 0;
    while i < m.len()
        invariant
            i <= m@.len(),
            keys == keys_of(pairs_view(m@)),
            keys.len() == m@.len(),
            m@ == old(m)@,
            forall|j: int| 0 <= j < i ==> keys[j] != k@,
        decreases m@.len() - i,
    {
        assert(keys[i as int] == m@[i as int].0@);
        if m[i].0 == k {
            proof {
                lemma_first_index_at(keys, k@, i as int);
            }
            let ghost before = m@;
            m[i] = (k, v);
            assert(pairs_view(m@) =~= pairs_view(before).update(i as int, (k@, v@)));
            return;
        }
        i = i + 1;
    }
    let ghost before = m@;
    m.push((k, v));
    assert(pairs_view(m@) =~= pairs_view(before).push((k@, v@)));
}

/// The mode values at the positions `idx`.
pub open spec fn values_at(modes: Seq<(Mode, ModeValueView)>, idx: Seq<int>) -> Seq<ModeValueView> {
    idx.map_values(|j: int| modes[j].1)
}

/// The groups of key hints of the mode values at the positions `idx` (see `groups_of`).
fn mode_groups(modes: &Vec<(Mode, ModeValue)>, idx: &Vec<usize>) -> (groups: Vec<(String, String)>)
    requires
        forall|j: int| 0 <= j < idx@.len() ==> idx@[j] < modes@.len(),
    ensures
        pairs_view(groups@) == groups_of(values_at(modes_view(modes@), positions(idx@))),
{
    let ghost mv = modes_view(modes@);
    let mut groups: Vec<(String, String)> = Vec::new();
    let mut k: usize = 0;
    while k < idx.len()
        invariant
            k <= idx@.len(),
            mv == modes_view(modes@),
            forall|j: int| 0 <= j < idx@.len() ==> idx@[j] < modes@.len(),
            pairs_view(groups@) == groups_of(values_at(mv, positions(idx@.take(k as int)))),
        decreases idx@.len() - k,
    {
        let ghost vs = values_at(mv, positions(idx@.take(k + 1)));
        assert(vs.drop_last() =~= values_at(mv, positions(idx@.take(k as int))));
        assert(vs.last() == modes@[idx@[k as int] as int].1@);
        match &modes[idx[k]].1.display_groups {
            Some(d) => {
                let ghost entries = d@.map_values(|p: (String, GroupValue)| (p.0@, p.1.display_name@));
                let ghost start = pairs_view(groups@);
                let mut e: usize = 0;
                while e < d.len()
                    invariant
                        e <= d@.len(),
                        entries == d@.map_values(|p: (String, GroupValue)| (p.0@, p.1.display_name@)),
                        pairs_view(groups@) == insert_all(start, entries.take(e as int)),
                    decreases d@.len() - e,
                {
                    assert(entries.take(e + 1).drop_last() =~= entries.take(e as int));
                    insert_pair(&mut groups, d[e].0.clone(), d[e].1.display_name.clone());
                    e = e + 1;
                }
                assert(entries.take(d@.len() as int) =~= entries);
            },
            None => {},
        }
        k = k + 1;
    }
    assert(idx@.take(idx@.len() as int) =~= idx@);
    groups
}

pub open spec fn actions_view(v: Seq<(Vec<KeyEvent>, Action)>) -> Seq<(Seq<KeyEvent>, Action)> {
    v.map_values(|p: (Vec<KeyEvent>, Action)| (p.0@, p.1))
}

pub open spec fn names_view(v: Seq<(Vec<KeyEvent>, String)>) -> Seq<(Seq<KeyEvent>, Seq<char>)> {
    v.map_values(|p: (Vec<KeyEvent>, String)| (p.0@, p.1@))
}

pub open spec fn events_views(v: Seq<Vec<KeyEvent>>) -> Seq<Seq<KeyEvent>> {
    v.map_values(|e: Vec<KeyEvent>| e@)
}

pub open spec fn string_views(v: Seq<String>) -> Seq<Seq<char>> {
    v.map_values(|s: String| s@)
}

/// What binding a mode's keys has gathered so far (see `ModeBuild`).
struct Build {
    actions: Vec<(Vec<KeyEvent>, Action)>,
    names: Vec<(Vec<KeyEvent>, String)>,
    group_events: Vec<Vec<KeyEvent>>,
}

impl View for Build {
    type V = ModeBuild;

    closed spec fn view(&self) -> ModeBuild {
        ModeBuild {
            actions: actions_view(self.actions@),
            names: names_view(self.names@),
            group_events: events_views(self.group_events@),
        }
    }
}

/// Whether two key sequences are the same.
fn events_equal(a: &Vec<KeyEvent>, b: &Vec<KeyEvent>) -> (r: bool)
    ensures
        r == (a@ == b@),
{
    if a.len() != b.len() {
        return false;
    }
    let mut i: usize = 0;
    while i < a.len()
        invariant
            i <= a@.len(),
            a@.len() == b@.len(),
            forall|j: int| 0 <= j < i ==> a@[j] == b@[j],
        decreases a@.len() - i,
    {
        if a[i] != b[i] {
            return false;
        }
        i = i + 1;
    }
    assert(a@ =~= b@);
    true
}

/// A copy of a key sequence.
fn copy_events(v: &Vec<KeyEvent>) -> (r: Vec<KeyEvent>)
    ensures
        r@ == v@,
{
    let mut r: Vec<KeyEvent> = Vec::new();
    let mut i: usize = 0;
    while i < v.len()
        invariant
            i <= v@.len(),
            r@ == v@.take(i as int),
        decreases v@.len() - i,
    {
        r.push(v[i]);
        assert(v@.take(i + 1) =~= v@.take(i as int).push(v@[i as int]));
        i = i + 1;
    }
    assert(v@.take(v@.len() as int) =~= v@);
    r
}

/// Binds the key sequence `k` to the action `a` (see `assoc_insert`).
fn insert_action(m: &mut Vec<(Vec<KeyEvent>, Action)>, k: Vec<KeyEvent>, a: Action)
    ensures
        actions_view(final(m)@) == assoc_insert(actions_view(old(m)@), k@, a),
{
    let ghost keys = keys_of(actions_view(m@));
    let mut i: usize = 0;
    while i < m.len()
        invariant
            i <= m@.len(),
            keys == keys_of(actions_view(m@)),
            keys.len() == m@.len(),
            m@ == old(m)@,
            forall|j: int| 0 <= j < i ==> keys[j] != k@,
        decreases m@.len() - i,
    {
        assert(keys[i as int] == m@[i as int].0@);
        if events_equal(&m[i].0, &k) {
            proof {
                lemma_first_index_at(keys, k@, i as int);
            }
            let ghost before = m@;
            m[i] = (k, a);
            assert(actions_view(m@) =~= actions_view(before).update(i as int, (k@, a)));
            return;
        }
        i = i + 1;
    }
    let ghost before = m@;
    m.push((k, a));
    assert(actions_view(m@) =~= actions_view(before).push((k@, a)));
}

/// Binds the key sequence `k` to the display name `n` (see `assoc_insert`).
fn insert_name(m: &mut Vec<(Vec<KeyEvent>, String)>, k: Vec<KeyEvent>, n: String)
    ensures
        names_view(final(m)@) == assoc_insert(names_view(old(m)@), k@, n@),
{
    let ghost keys = keys_of(names_view(m@));
    let mut i: usize = 0;
    while i < m.len()
        invariant
            i <= m@.len(),
            keys == keys_of(names_view(m@)),
            keys.len() == m@.len(),
            m@ == old(m)@,
            forall|j: int| 0 <= j < i ==> keys[j] != k@,
        decreases m@.len() - i,
    {
        assert(keys[i as int] == m@[i as int].0@);
        if events_equal(&m[i].0, &k) {
            proof {
                lemma_first_index_at(keys, k@, i as int);
            }
            let ghost before = m@;
            m[i] = (k, n);
            assert(names_view(m@) =~= names_view(before).update(i as int, (k@, n@)));
            return;
        }
        i = i + 1;
    }
    let ghost before = m@;
    m.push((k, n));
    assert(names_view(m@) =~= names_view(before).push((k@, n@)));
}

/// The position of the group named `g`.
fn find_group(groups: &Vec<(String, String)>, g: &String) -> (r: Option<usize>)
    ensures
        opt_int(r) == first_index(keys_of(pairs_view(groups@)), g@),
        r matches Some(i) ==> i < groups@.len(),
{
    let ghost keys = keys_of(pairs_view(groups@));
    let mut i: usize = 0;
    while i < groups.len()
        invariant
            i <= groups@.len(),
            keys == keys_of(pairs_view(groups@)),
            keys.len() == groups@.len(),
            forall|j: int| 0 <= j < i ==> keys[j] != g@,
        decreases groups@.len() - i,
    {
        assert(keys[i as int] == groups@[i as int].0@);
        if groups[i].0 == *g {
            proof {
                lemma_first_index_at(keys, g@, i as int);
            }
            return Some(i);
        }
        i = i + 1;
    }
    None
}

/// Binds the key sequence `key` as `kb` says (see `bind_one`); tells whether it could.
fn bind_key(b: &mut Build, groups: &Vec<(String, String)>, key: &String, kb: &KeyBinding) -> (ok: bool)
    requires
        old(b).group_events@.len() == groups@.len(),
    ensures
        final(b).group_events@.len() == groups@.len(),
        match bind_one(old(b)@, pairs_view(groups@), key@, kb@) {
            Some(s) => ok && final(b)@ == s,
            None => !ok,
        },
{
    let events = match parse_key_sequence(key.as_str()) {
        Ok(e) => e,
        Err(_) => {
            return false;
        },
    };
    match &kb.display_group {
        Some(g) => {
            match find_group(groups, g) {
                Some(i) => {
                    let mut joined = copy_events(&b.group_events[i]);
                    let mut more = copy_events(&events);
                    joined.append(&mut more);
                    let ghost before = b.group_events@;
                    b.group_events[i] = joined;
                    assert(events_views(b.group_events@) =~= events_views(before).update(
                        i as int,
                        events_views(before)[i as int] + events@,
                    ));
                },
                None => {
                    return false;
                },
            }
        },
        None => {
            match &kb.display_name {
                Some(n) => insert_name(&mut b.names, copy_events(&events), n.clone()),
                None => {},
            }
        },
    }
    insert_action(&mut b.actions, events, kb.action.clone());
    true
}

/// Binds the key sequences of the mode values at the positions `idx` (see `bind_values`);
/// tells whether it could.
fn bind_modes(b: &mut Build, groups: &Vec<(String, String)>, modes: &Vec<(Mode, ModeValue)>, idx: &Vec<usize>) -> (ok: bool)
    requires
        old(b).group_events@.len() == groups@.len(),
        forall|j: int| 0 <= j < idx@.len() ==> idx@[j] < modes@.len(),
    ensures
        final(b).group_events@.len() == groups@.len(),
        match bind_values(old(b)@, pairs_view(groups@), values_at(modes_view(modes@), positions(idx@))) {
            Some(s) => ok && final(b)@ == s,
            None => !ok,
        },
{
    let ghost mv = modes_view(modes@);
    let ghost gv = pairs_view(groups@);
    let ghost start = b@;
    let mut k: usize = 0;
    while k < idx.len()
        invariant
            k <= idx@.len(),
            mv == modes_view(modes@),
            gv == pairs_view(groups@),
            b.group_events@.len() == groups@.len(),
            start == old(b)@,
            forall|j: int| 0 <= j < idx@.len() ==> idx@[j] < modes@.len(),
            bind_values(start, gv, values_at(mv, positions(idx@.take(k as int)))) == Some(b@),
        decreases idx@.len() - k,
    {
        let ghost vs = values_at(mv, positions(idx@.take(k + 1)));
        assert(vs.drop_last() =~= values_at(mv, positions(idx@.take(k as int))));
        assert(vs.last() == modes@[idx@[k as int] as int].1@);
        let bindings = &modes[idx[k]].1.key_bindings;
        let ghost bv = bindings@.map_values(|p: (String, KeyBinding)| (p.0@, p.1@));
        let ghost mid = b@;
        assert(vs.last().key_bindings == bv);
        let mut e: usize = 0;
        while e < bindings.len()
            invariant
                e <= bindings@.len(),
                k < idx@.len(),
                start == old(b)@,
                mv == modes_view(modes@),
                vs == values_at(mv, positions(idx@.take(k + 1))),
                bind_values(start, gv, vs.drop_last()) == Some(mid),
                vs.last().key_bindings == bv,
                bv == bindings@.map_values(|p: (String, KeyBinding)| (p.0@, p.1@)),
                b.group_events@.len() == groups@.len(),
                gv == pairs_view(groups@),
                bind_all(mid, gv, bv.take(e as int)) == Some(b@),
            decreases bindings@.len() - e,
        {
            assert(bv.take(e + 1).drop_last() =~= bv.take(e as int));
            assert(bv.take(e + 1).last() == (bindings@[e as int].0@, bindings@[e as int].1@));
            if !bind_key(b, groups, &bindings[e].0, &bindings[e].1) {
                proof {
                    lemma_bind_all_none(mid, gv, bv, e as int + 1);
                    assert(positions(idx@.take(k + 1)) =~= positions(idx@).take(k + 1));
                    assert(values_at(mv, positions(idx@)).take(k + 1) =~= vs);
                    lemma_bind_values_none(start, gv, values_at(mv, positions(idx@)), k as int + 1);
                }
                return false;
            }
            e = e + 1;
        }
        assert(bv.take(bindings@.len() as int) =~= bv);
        k = k + 1;
    }
    assert(idx@.take(idx@.len() as int) =~= idx@);
    true
}

/// Once a prefix of `bindings` cannot be bound, `bindings` cannot either.
proof fn lemma_bind_all_none(st: ModeBuild, groups: Seq<(Seq<char>, Seq<char>)>, bindings: Seq<(Seq<char>, KeyBindingView)>, k: int)
    requires
        0 <= k <= bindings.len(),
        bind_all(st, groups, bindings.take(k)) is None,
    ensures
        bind_all(st, groups, bindings) is None,
    decreases bindings.len() - k,
{
    if k < bindings.len() {
        assert(bindings.take(k + 1).drop_last() =~= bindings.take(k));
        lemma_bind_all_none(st, groups, bindings, k + 1);
    } else {
        assert(bindings.take(k) =~= bindings);
    }
}

/// Once a prefix of `vs` cannot be bound, `vs` cannot either.
proof fn lemma_bind_values_none(st: ModeBuild, groups: Seq<(Seq<char>, Seq<char>)>, vs: Seq<ModeValueView>, k: int)
    requires
        0 <= k <= vs.len(),
        bind_values(st, groups, vs.take(k)) is None,
    ensures
        bind_values(st, groups, vs) is None,
    decreases vs.len() - k,
{
    if k < vs.len() {
        assert(vs.take(k + 1).drop_last() =~= vs.take(k));
        lemma_bind_values_none(st, groups, vs, k + 1);
    } else {
        assert(vs.take(k) =~= vs);
    }
}

/// The symbol of the modifiers of a key press (see `modifier_symbol`).
fn modifier_symbol_chars(m: KeyModifiers, is_macos: bool) -> (v: Vec<char>)
    ensures
        v@ == modifier_symbol(m, is_macos),
{
    let others = m.super_key || m.hyper || m.meta;
    if m.shift && !m.control && !m.alt && !others {
        chars_of("⇧")
    } else if m.control && !m.shift && !m.alt && !others {
        if is_macos {
            chars_of("⌃")
        } else {
            chars_of("Ctrl-")
        }
    } else if m.alt && !m.shift && !m.control && !others {
        if is_macos {
            chars_of("⌥")
        } else {
            chars_of("Alt-")
        }
    } else {
        Vec::new()
    }
}

/// The symbol of a key (see `code_symbol`).
fn code_symbol_chars(code: KeyCode) -> (v: Vec<char>)
    ensures
        v@ == code_symbol(code),
{
    match code {
        KeyCode::Backspace => chars_of("⌫"),
        KeyCode::Enter => chars_of("⏎"),
        KeyCode::Left => chars_of("←"),
        KeyCode::Right => chars_of("→"),
        KeyCode::Up => chars_of("↑"),
        KeyCode::Down => chars_of("↓"),
        KeyCode::Home => chars_of("⌂"),
        KeyCode::End => chars_of("⇲"),
        KeyCode::PageUp => chars_of("PgUp"),
        KeyCode::PageDown => chars_of("PgDown"),
        KeyCode::Tab => chars_of("↹"),
        KeyCode::BackTab => chars_of("⇧↹"),
        KeyCode::Delete => chars_of("⌫"),
        KeyCode::Insert => chars_of("Insert"),
        KeyCode::F(n) => {
            let mut v = chars_of("F");
            let mut d = decimal_chars(n);
            v.append(&mut d);
            v
        },
        KeyCode::Char(c) => {
            let mut v = Vec::new();
            v.push(c);
            assert(v@ =~= seq![c]);
            v
        },
        KeyCode::Null => chars_of("Null"),
        KeyCode::Esc => chars_of("Esc"),
        KeyCode::CapsLock => chars_of("⇪"),
        KeyCode::ScrollLock => chars_of("⤓"),
        KeyCode::NumLock => chars_of("NumLock"),
        KeyCode::PrintScreen => chars_of("PrtSc"),
        KeyCode::Pause => chars_of("Pause"),
        KeyCode::Menu => chars_of("Menu"),
        KeyCode::KeypadBegin => chars_of("￣"),
        KeyCode::Media => chars_of("?"),
        KeyCode::Modifier => chars_of("?"),
    }
}

/// The key hint that shows `name` for the key presses `events` (see `key_hint`).
pub fn key_hint_text(name: &str, events: &Vec<KeyEvent>, is_macos: bool) -> (s: String)
    ensures
        s@ == key_hint(name@, events@, is_macos),
{
    let mut symbols: Vec<char> = Vec::new();
    let mut i: usize = 0;
    while i < events.len()
        invariant
            i <= events@.len(),
            symbols@ == events_symbols(events@.take(i as int), is_macos),
        decreases events@.len() - i,
    {
        assert(events@.take(i + 1).drop_last() =~= events@.take(i as int));
        let e = events[i];
        let mut m = modifier_symbol_chars(e.modifiers, is_macos);
        let mut c = code_symbol_chars(e.code);
        symbols.append(&mut m);
        symbols.append(&mut c);
        i = i + 1;
    }
    assert(events@.take(events@.len() as int) =~= events@);
    let open = concat(name, " [");
    let sym = string_of(symbols.as_slice());
    let with_symbols = concat(open.as_str(), sym.as_str());
    concat(with_symbols.as_str(), "]")
}

/// The key bindings of mode `m` (see `mode_bindings`): the action of each key sequence, and
/// the key hints; none when they cannot be built.
fn build_mode(modes: &Vec<(Mode, ModeValue)>, m: Mode, is_macos: bool) -> (r: Option<(Vec<(Vec<KeyEvent>, Action)>, Vec<String>)>)
    ensures
        match mode_bindings(modes_view(modes@), m, is_macos) {
            Some(mb) => r matches Some((a, h)) && actions_view(a@) == mb.actions && string_views(h@) == mb.hints,
            None => r is None,
        },
{
    let ghost mv = modes_view(modes@);
    let idx = match collect_modes(modes, m, modes.len()) {
        Some(idx) => idx,
        None => {
            return None;
        },
    };
    let groups = mode_groups(modes, &idx);
    let ghost gv = pairs_view(groups@);
    let mut group_events: Vec<Vec<KeyEvent>> = Vec::new();
    let mut g: usize = 0;
    while g < groups.len()
        invariant
            g <= groups@.len(),
            group_events@.len() == g,
            events_views(group_events@) =~= Seq::new(g as nat, |i: int| Seq::<KeyEvent>::empty()),
        decreases groups@.len() - g,
    {
        let ghost before = group_events@;
        group_events.push(Vec::new());
        assert(group_events@[g as int]@ =~= Seq::<KeyEvent>::empty());
        assert forall|j: int| 0 <= j < g implies group_events@[j]@ == Seq::<KeyEvent>::empty() by {
            assert(group_events@[j] == before[j]);
            assert(events_views(before)[j] == Seq::<KeyEvent>::empty());
        }
        assert(events_views(group_events@) =~= Seq::new((g + 1) as nat, |i: int| Seq::<KeyEvent>::empty()));
        g = g + 1;
    }
    let mut b = Build { actions: Vec::new(), names: Vec::new(), group_events };
    assert(b@.actions =~= Seq::<(Seq<KeyEvent>, Action)>::empty());
    assert(b@.names =~= Seq::<(Seq<KeyEvent>, Seq<char>)>::empty());
    assert(b@.group_events =~= Seq::new(gv.len(), |i: int| Seq::<KeyEvent>::empty()));
    if !bind_modes(&mut b, &groups, modes, &idx) {
        return None;
    }
    let ghost bound = b@;
    let mut names = b.names;
    let mut k: usize = 0;
    while k < groups.len()
        invariant
            k <= groups@.len(),
            gv == pairs_view(groups@),
            events_views(b.group_events@) == bound.group_events,
            b.group_events@.len() == groups@.len(),
            names_view(names@) == add_group_names(bound.names, gv, bound.group_events, k as nat),
        decreases groups@.len() - k,
    {
        let key_events = copy_events(&b.group_events[k]);
        insert_name(&mut names, key_events, groups[k].1.clone());
        k = k + 1;
    }
    let ghost final_names = names_view(names@);
    let mut hints: Vec<String> = Vec::new();
    let mut h: usize = 0;
    while h < names.len()
        invariant
            h <= names@.len(),
            final_names == names_view(names@),
            string_views(hints@) == hints_of(final_names.take(h as int), is_macos),
        decreases names@.len() - h,
    {
        let hint = key_hint_text(names[h].1.as_str(), &names[h].0, is_macos);
        let ghost before = hints@;
        hints.push(hint);
        assert(final_names[h as int] == (names@[h as int].0@, names@[h as int].1@));
        assert(hints_of(final_names.take(h + 1), is_macos) =~= hints_of(final_names.take(h as int), is_macos).push(
            key_hint(names@[h as int].1@, names@[h as int].0@, is_macos),
        ));
        assert(string_views(hints@) =~= string_views(before).push(hint@));
        h = h + 1;
    }
    assert(final_names.take(names@.len() as int) =~= final_names);
    Some((b.actions, hints))
}

/// Whether `kb` holds the key bindings `s`, mode by mode.
pub open spec fn bindings_match(kb: KeyBindings, s: Seq<(Mode, ModeBindings)>) -> bool {
    &&& kb.bindings@.len() == s.len()
    &&& kb.display_names@.len() == s.len()
    &&& forall|i: int|
        0 <= i < s.len() ==> {
            &&& (#[trigger] kb.bindings@[i]).0 == s[i].0
            &&& actions_view(kb.bindings@[i].1@) == s[i].1.actions
            &&& kb.display_names@[i].0 == s[i].0
            &&& string_views(kb.display_names@[i].1@) == s[i].1.hints
        }
}

/// Builds the key bindings of every mode of a configuration (see `mode_bindings`), with the
/// key hints as macOS shows them when `is_macos`. Fails exactly when the key bindings of some
/// mode cannot be built.
#[verifier::spinoff_prover]
#[verifier::rlimit(40)]
pub fn build_key_bindings(modes: &Vec<(Mode, ModeValue)>, is_macos: bool) -> (r: Result<KeyBindings, String>)
    ensures
        match all_bindings(modes_view(modes@), modes@.len(), is_macos) {
            Some(s) => r matches Ok(kb) && bindings_match(kb, s),
            None => r is Err,
        },
{
    let ghost mv = modes_view(modes@);
    let mut bindings: Vec<(Mode, Vec<(Vec<KeyEvent>, Action)>)> = Vec::new();
    let mut display_names: Vec<(Mode, Vec<String>)> = Vec::new();
    let mut i: usize = 0;
    while i < modes.len()
        invariant
            i <= modes@.len(),
            mv == modes_view(modes@),
            all_bindings(mv, i as nat, is_macos) matches Some(s) && bindings_match(
                KeyBindings { bindings, display_names },
                s,
            ),
        decreases modes@.len() - i,
    {
        let m = modes[i].0;
        assert(mv[i as int].0 == m);
        match build_mode(modes, m, is_macos) {
            Some((actions, hints)) => {
                bindings.push((m, actions));
                display_names.push((m, hints));
            },
            None => {
                proof {
                    lemma_all_bindings_none(mv, i as nat + 1, modes@.len(), is_macos);
                }
                return Err(String::from_str("A key binding cannot be built"));
            },
        }
        i = i + 1;
    }
    Ok(KeyBindings { bindings, display_names })
}

/// Once the key bindings of the first `k` modes cannot be built, those of the first `n` cannot.
proof fn lemma_all_bindings_none(modes: Seq<(Mode, ModeValueView)>, k: nat, n: nat, is_macos: bool)
    requires
        k <= n,
        all_bindings(modes, k, is_macos) is None,
    ensures
        all_bindings(modes, n, is_macos) is None,
    decreases n - k,
{
    if k < n {
        lemma_all_bindings_none(modes, k + 1, n, is_macos);
    }
}

/// The value bound to `k` in the association list `m`.
pub open spec fn assoc_get<K, V>(m: Seq<(K, V)>, k: K) -> Option<V> {
    match first_index(keys_of(m), k) {
        Some(i) => Some(m[i].1),
        None => None,
    }
}

/// The action that the key presses `events` do in mode `mode`, by the first bindings of that
/// mode.
pub open spec fn lookup_action(kb: KeyBindings, mode: Mode, events: Seq<KeyEvent>) -> Option<Action> {
    match first_index(keys_of(kb.bindings@), mode) {
        Some(i) => assoc_get(actions_view(kb.bindings@[i].1@), events),
        None => None,
    }
}

impl KeyBindings {
    /// The action that the key presses `events` do in mode `mode` (see `lookup_action`).
    pub fn action_for(&self, mode: Mode, events: &Vec<KeyEvent>) -> (r: Option<Action>)
        ensures
            r == lookup_action(*self, mode, events@),
    {
        let ghost modes = keys_of(self.bindings@);
        let mut i: usize = 0;
        while i < self.bindings.len()
            invariant
                i <= self.bindings@.len(),
                modes == keys_of(self.bindings@),
                forall|j: int| 0 <= j < i ==> modes[j] != mode,
            decreases self.bindings@.len() - i,
        {
            if self.bindings[i].0 == mode {
                proof {
                    lemma_first_index_at(modes, mode, i as int);
                }
                let actions = &self.bindings[i].1;
                let ghost keys = keys_of(actions_view(actions@));
                let mut k: usize = 0;
                while k < actions.len()
                    invariant
                        k <= actions@.len(),
                        i < self.bindings@.len(),
                        modes == keys_of(self.bindings@),
                        first_index(modes, mode) == Some(i as int),
                        actions@ == self.bindings@[i as int].1@,
                        keys == keys_of(actions_view(actions@)),
                        forall|j: int| 0 <= j < k ==> keys[j] != events@,
                    decreases actions@.len() - k,
                {
                    assert(keys[k as int] == actions@[k as int].0@);
                    if events_equal(&actions[k].0, events) {
                        proof {
                            lemma_first_index_at(keys, events@, k as int);
                        }
                        assert(actions_view(actions@)[k as int].1 == actions@[k as int].1);
                        return Some(actions[k].1.clone());
                    }
                    k = k + 1;
                }
                return None;
            }
            i = i + 1;
        }
        None
    }

    /// The key hints of mode `mode`, by the first hints of that mode.
    pub fn hints_for(&self, mode: Mode) -> (r: Option<&Vec<String>>)
        ensures
            match first_index(keys_of(self.display_names@), mode) {
                Some(i) => r == Some(&self.display_names@[i].1),
                None => r is None,
            },
    {
        let ghost modes = keys_of(self.display_names@);
        let mut i: usize = 0;
        while i < self.display_names.len()
            invariant
                i <= self.display_names@.len(),
                modes == keys_of(self.display_names@),
                forall|j: int| 0 <= j < i ==> modes[j] != mode,
            decreases self.display_names@.len() - i,
        {
            if self.display_names[i].0 == mode {
                proof {
                    lemma_first_index_at(modes, mode, i as int);
                }
                return Some(&self.display_names[i].1);
            }
            i = i + 1;
        }
        None
    }
}

/// The styles of each mode, by name.
pub struct Styles(pub Vec<(Mode, Vec<(String, Style)>)>);

/// Whether `styles` holds the styles that the descriptions `parsed` stand for, mode by mode and
/// name by name.
pub open spec fn styles_match(styles: Seq<(Mode, Vec<(String, Style)>)>, parsed: Seq<(Mode, Vec<(String, String)>)>) -> bool {
    &&& styles.len() == parsed.len()
    &&& forall|i: int|
        0 <= i < parsed.len() ==> {
            &&& (#[trigger] styles[i]).0 == parsed[i].0
            &&& styles[i].1@.len() == parsed[i].1@.len()
            &&& forall|j: int|
                0 <= j < parsed[i].1@.len() ==> {
                    &&& (#[trigger] styles[i].1@[j]).0@ == parsed[i].1@[j].0@
                    &&& styles[i].1@[j].1 == spec_parse_style(parsed[i].1@[j].1@)
                }
        }
}

/// Reads the style descriptions of each mode (see `parse_style`).
pub fn build_styles(parsed: &Vec<(Mode, Vec<(String, String)>)>) -> (s: Styles)
    requires
        forall|i: int, j: int|
            0 <= i < parsed@.len() && 0 <= j < parsed@[i].1@.len() ==> style_readable(
                (#[trigger] parsed@[i].1@[j]).1@,
            ),
    ensures
        styles_match(s.0@, parsed@),
{
    let mut styles: Vec<(Mode, Vec<(String, Style)>)> = Vec::new();
    let mut i: usize = 0;
    while i < parsed.len()
        invariant
            i <= parsed@.len(),
            forall|a: int, b: int|
                0 <= a < parsed@.len() && 0 <= b < parsed@[a].1@.len() ==> style_readable(
                    (#[trigger] parsed@[a].1@[b]).1@,
                ),
            styles_match(styles@, parsed@.take(i as int)),
        decreases parsed@.len() - i,
    {
        let entries = &parsed[i].1;
        let mut converted: Vec<(String, Style)> = Vec::new();
        let mut j: usize = 0;
        while j < entries.len()
            invariant
                j <= entries@.len(),
                i < parsed@.len(),
                entries == parsed@[i as int].1,
                forall|a: int, b: int|
                    0 <= a < parsed@.len() && 0 <= b < parsed@[a].1@.len() ==> style_readable(
                        (#[trigger] parsed@[a].1@[b]).1@,
                    ),
                converted@.len() == j,
                forall|b: int|
                    0 <= b < j ==> {
                        &&& (#[trigger] converted@[b]).0@ == entries@[b].0@
                        &&& converted@[b].1 == spec_parse_style(entries@[b].1@)
                    },
            decreases entries@.len() - j,
        {
            assert(style_readable(parsed@[i as int].1@[j as int].1@));
            let style = parse_style(entries[j].1.as_str());
            converted.push((entries[j].0.clone(), style));
            j = j + 1;
        }
        let ghost before = styles@;
        styles.push((parsed[i].0, converted));
        assert(styles_match(styles@, parsed@.take(i + 1))) by {
            assert forall|a: int| 0 <= a < i + 1 implies #[trigger] styles@[a] == (if a < i { before[a] } else {
                styles@[a]
            }) by {}
        }
        i = i + 1;
    }
    assert(parsed@.take(parsed@.len() as int) =~= parsed@);
    Styles(styles)
}

/// Reads the style descriptions of each mode, or gives `None` where one of them cannot be read
/// (see `style_readable`), in which case nothing is read.
pub fn read_styles(parsed: &Vec<(Mode, Vec<(String, String)>)>) -> (s: Option<Styles>)
    ensures
        match s {
            Some(st) => styles_match(st.0@, parsed@),
            None => exists|i: int, j: int|
                0 <= i < parsed@.len() && 0 <= j < parsed@[i].1@.len() && !style_readable(
                    (#[trigger] parsed@[i].1@[j]).1@,
                ),
        },
        (forall|i: int, j: int|
            0 <= i < parsed@.len() && 0 <= j < parsed@[i].1@.len() ==> style_readable(
                (#[trigger] parsed@[i].1@[j]).1@,
            )) <==> s is Some,
{
    let mut i: usize = 0;
    while i < parsed.len()
        invariant
            i <= parsed@.len(),
            forall|a: int, b: int|
                0 <= a < i && 0 <= b < parsed@[a].1@.len() ==> style_readable(
                    (#[trigger] parsed@[a].1@[b]).1@,
                ),
        decreases parsed@.len() - i,
    {
        let entries = &parsed[i].1;
        let mut j: usize = 0;
        while j < entries.len()
            invariant
                j <= entries@.len(),
                i < parsed@.len(),
                entries == parsed@[i as int].1,
                forall|a: int, b: int|
                    0 <= a < i && 0 <= b < parsed@[a].1@.len() ==> style_readable(
                        (#[trigger] parsed@[a].1@[b]).1@,
                    ),
                forall|b: int| 0 <= b < j ==> style_readable((#[trigger] parsed@[i as int].1@[b]).1@),
            decreases entries@.len() - j,
        {
            if !is_style_readable(entries[j].1.as_str()) {
                return None;
            }
            j = j + 1;
        }
        i = i + 1;
    }
    Some(build_styles(parsed))
}

/// The configuration: where things are kept, the key bindings and the styles.
pub struct Config {
    pub config: AppConfig,
    pub keybindings: KeyBindings,
    pub styles: Styles,
}

/// What `first_index` gives: the first position of `k`, or none when `k` does not occur.
proof fn lemma_first_index_props<K>(keys: Seq<K>, k: K)
    ensures
        match first_index(keys, k) {
            Some(i) => 0 <= i < keys.len() && keys[i] == k && forall|j: int| 0 <= j < i ==> keys[j] != k,
            None => forall|j: int| 0 <= j < keys.len() ==> keys[j] != k,
        },
{
    if exists|i: int| 0 <= i < keys.len() && keys[i] == k {
        let w = choose|i: int| 0 <= i < keys.len() && keys[i] == k;
        assert(exists|i: int| 0 <= i < keys.len() && keys[i] == k && forall|j: int| 0 <= j < i ==> keys[j] != k) by {
            lemma_first_occurrence(keys, k, w);
        }
    }
}

/// Below any occurrence of `k` there is a first one.
proof fn lemma_first_occurrence<K>(keys: Seq<K>, k: K, w: int)
    requires
        0 <= w < keys.len(),
        keys[w] == k,
    ensures
        exists|i: int| 0 <= i < keys.len() && keys[i] == k && forall|j: int| 0 <= j < i ==> keys[j] != k,
    decreases w,
{
    if exists|j: int| 0 <= j < w && keys[j] == k {
        let j = choose|j: int| 0 <= j < w && keys[j] == k;
        lemma_first_occurrence(keys, k, j);
    } else {
        assert(forall|j: int| 0 <= j < w ==> keys[j] != k);
    }
}

/// Binding a key in an association list whose keys are distinct keeps them distinct; the key
/// then reads back the value it was given, and every other key reads back what it had.
pub proof fn lemma_assoc_insert_get<K, V>(m: Seq<(K, V)>, k: K, v: V, other: K)
    requires
        keys_of(m).no_duplicates(),
    ensures
        keys_of(assoc_insert(m, k, v)).no_duplicates(),
        assoc_get(assoc_insert(m, k, v), k) == Some(v),
        other != k ==> assoc_get(assoc_insert(m, k, v), other) == assoc_get(m, other),
{
    let keys = keys_of(m);
    let m2 = assoc_insert(m, k, v);
    let keys2 = keys_of(m2);
    lemma_first_index_props(keys, k);
    lemma_first_index_props(keys, other);
    match first_index(keys, k) {
        Some(i) => {
            assert(keys2 =~= keys);
            lemma_first_index_props(keys2, k);
            lemma_first_index_props(keys2, other);
        },
        None => {
            assert(keys2 =~= keys.push(k));
            assert forall|a: int, b: int| 0 <= a < keys2.len() && 0 <= b < keys2.len() && a != b implies keys2[a]
                != keys2[b] by {
                if a < keys.len() && b < keys.len() {
                    assert(keys2[a] == keys[a] && keys2[b] == keys[b]);
                }
            }
            lemma_first_index_at(keys2, k, keys.len() as int);
            match first_index(keys, other) {
                Some(j) => {
                    lemma_first_index_at(keys2, other, j);
                },
                None => {
                    if other != k {
                        lemma_first_index_props(keys2, other);
                        if first_index(keys2, other) is Some {
                            let j = first_index(keys2, other)->0;
                            assert(keys2[j] == other);
                            if j < keys.len() {
                                assert(keys[j] == other);
                            }
                        }
                    }
                },
            }
        },
    }
}

/// The value of the last entry for `k` in `entries`, if there is one.
pub open spec fn last_value<K, V>(entries: Seq<(K, V)>, k: K) -> Option<V>
    decreases entries.len(),
{
    if entries.len() == 0 {
        None
    } else if entries.last().0 == k {
        Some(entries.last().1)
    } else {
        last_value(entries.drop_last(), k)
    }
}

/// The key presses of a binding's key sequence (none when it does not parse).
pub open spec fn key_events(key: Seq<char>) -> Seq<KeyEvent> {
    match spec_parse_key_sequence(key) {
        Ok(events) => events,
        Err(_) => Seq::empty(),
    }
}

/// The key presses and actions of the bindings `bindings`, in order.
pub open spec fn action_pairs(bindings: Seq<(Seq<char>, KeyBindingView)>) -> Seq<(Seq<KeyEvent>, Action)> {
    bindings.map_values(|b: (Seq<char>, KeyBindingView)| (key_events(b.0), b.1.action))
}

/// The key presses and actions of the bindings of the mode values `vs`, one value after the
/// other.
pub open spec fn values_action_pairs(vs: Seq<ModeValueView>) -> Seq<(Seq<KeyEvent>, Action)>
    decreases vs.len(),
{
    if vs.len() == 0 {
        Seq::empty()
    } else {
        values_action_pairs(vs.drop_last()) + action_pairs(vs.last().key_bindings)
    }
}

/// Binding entries one after the other reads back, for each key, the last value given to it
/// (or what the list had), and keeps the keys distinct.
proof fn lemma_insert_all_get<K, V>(m: Seq<(K, V)>, entries: Seq<(K, V)>, k: K)
    requires
        keys_of(m).no_duplicates(),
    ensures
        keys_of(insert_all(m, entries)).no_duplicates(),
        assoc_get(insert_all(m, entries), k) == match last_value(entries, k) {
            Some(v) => Some(v),
            None => assoc_get(m, k),
        },
    decreases entries.len(),
{
    if entries.len() > 0 {
        let init = entries.drop_last();
        let (lk, lv) = entries.last();
        lemma_insert_all_get(m, init, k);
        lemma_assoc_insert_get(insert_all(m, init), lk, lv, k);
    }
}

/// Binding the entries of `a` and then those of `b` binds those of `a + b`.
proof fn lemma_insert_all_concat<K, V>(m: Seq<(K, V)>, a: Seq<(K, V)>, b: Seq<(K, V)>)
    ensures
        insert_all(m, a + b) == insert_all(insert_all(m, a), b),
    decreases b.len(),
{
    if b.len() == 0 {
        assert(a + b =~= a);
    } else {
        assert((a + b).drop_last() =~= a + b.drop_last());
        assert((a + b).last() == b.last());
        lemma_insert_all_concat(m, a, b.drop_last());
    }
}

/// Binding key sequences binds their actions one after the other.
proof fn lemma_bind_all_actions(st: ModeBuild, groups: Seq<(Seq<char>, Seq<char>)>, bindings: Seq<(Seq<char>, KeyBindingView)>)
    requires
        bind_all(st, groups, bindings) is Some,
    ensures
        bind_all(st, groups, bindings)->0.actions == insert_all(st.actions, action_pairs(bindings)),
    decreases bindings.len(),
{
    if bindings.len() > 0 {
        lemma_bind_all_actions(st, groups, bindings.drop_last());
        assert(action_pairs(bindings).drop_last() =~= action_pairs(bindings.drop_last()));
    } else {
        assert(action_pairs(bindings) =~= Seq::<(Seq<KeyEvent>, Action)>::empty());
    }
}

/// Binding the key sequences of mode values binds their actions one after the other.
proof fn lemma_bind_values_actions(st: ModeBuild, groups: Seq<(Seq<char>, Seq<char>)>, vs: Seq<ModeValueView>)
    requires
        bind_values(st, groups, vs) is Some,
    ensures
        bind_values(st, groups, vs)->0.actions == insert_all(st.actions, values_action_pairs(vs)),
    decreases vs.len(),
{
    if vs.len() > 0 {
        lemma_bind_values_actions(st, groups, vs.drop_last());
        let mid = bind_values(st, groups, vs.drop_last())->0;
        lemma_bind_all_actions(mid, groups, vs.last().key_bindings);
        lemma_insert_all_concat(st.actions, values_action_pairs(vs.drop_last()), action_pairs(vs.last().key_bindings));
    }
}

/// In a mode, a key sequence does what the last of its bindings among those the mode takes
/// says: the bindings of the modes it extends come first, in order, and its own last.
pub proof fn lemma_mode_action(modes: Seq<(Mode, ModeValueView)>, m: Mode, is_macos: bool, events: Seq<KeyEvent>)
    requires
        mode_bindings(modes, m, is_macos) is Some,
    ensures
        collected(modes, m, modes.len()) is Some,
        assoc_get(mode_bindings(modes, m, is_macos)->0.actions, events) == last_value(
            values_action_pairs(values_at(modes, collected(modes, m, modes.len())->0)),
            events,
        ),
{
    let idx = collected(modes, m, modes.len())->0;
    let vs = idx.map_values(|j: int| modes[j].1);
    assert(vs == values_at(modes, idx));
    let groups = groups_of(vs);
    let init = ModeBuild {
        actions: Seq::empty(),
        names: Seq::empty(),
        group_events: Seq::new(groups.len(), |i: int| Seq::<KeyEvent>::empty()),
    };
    lemma_bind_values_actions(init, groups, vs);
    assert(keys_of(Seq::<(Seq<KeyEvent>, Action)>::empty()) =~= Seq::<Seq<KeyEvent>>::empty());
    lemma_insert_all_get(Seq::<(Seq<KeyEvent>, Action)>::empty(), values_action_pairs(vs), events);
    assert(first_index(keys_of(Seq::<(Seq<KeyEvent>, Action)>::empty()), events) is None);
}

} // verus!
