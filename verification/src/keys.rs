use vstd::prelude::*;

use crate::text::{ascii_lower, ascii_upper, string_of, chars_from, chars_of, concat_string, has_prefix, is_text, lower_ascii, occurs_at, result_view, to_ascii_lower_chars, to_ascii_upper};

verus! {

/// A key on the keyboard, as the terminal reports it.
#[derive(Debug, Clone, Copy, PartialEq, Eq, Hash, Structural)]
pub enum KeyCode {
    Backspace,
    Enter,
    Left,
    Right,
    Up,
    Down,
    Home,
    End,
    PageUp,
    PageDown,
    Tab,
    BackTab,
    Delete,
    Insert,
    F(u8),
    Char(char),
    Null,
    Esc,
    CapsLock,
    ScrollLock,
    NumLock,
    PrintScreen,
    Pause,
    Menu,
    KeypadBegin,
    Media,
    Modifier,
}

/// The modifier keys held while a key is pressed.
#[derive(Debug, Clone, Copy, PartialEq, Eq, Hash, Structural)]
pub struct KeyModifiers {
    pub shift: bool,
    pub control: bool,
    pub alt: bool,
    pub super_key: bool,
    pub hyper: bool,
    pub meta: bool,
}

/// A key press: a key code and the modifiers held with it.
#[derive(Debug, Clone, Copy, PartialEq, Eq, Hash, Structural)]
pub struct KeyEvent {
    pub code: KeyCode,
    pub modifiers: KeyModifiers,
}

impl KeyModifiers {
    pub open spec fn none_spec() -> KeyModifiers {
        KeyModifiers {
            shift: false,
            control: false,
            alt: false,
            super_key: false,
            hyper: false,
            meta: false,
        }
    }

    /// No modifier held.
    pub fn none() -> (m: KeyModifiers)
        ensures
            m == KeyModifiers::none_spec(),
    {
        KeyModifiers {
            shift: false,
            control: false,
            alt: false,
            super_key: false,
            hyper: false,
            meta: false,
        }
    }

    /// Every modifier held in `self` or in `other`.
    pub open spec fn union(self, other: KeyModifiers) -> KeyModifiers {
        KeyModifiers {
            shift: self.shift || other.shift,
            control: self.control || other.control,
            alt: self.alt || other.alt,
            super_key: self.super_key || other.super_key,
            hyper: self.hyper || other.hyper,
            meta: self.meta || other.meta,
        }
    }

    /// Whether no modifier is held.
    pub fn is_empty(&self) -> (r: bool)
        ensures
            r == (*self == KeyModifiers::none_spec()),
    {
        !self.shift && !self.control && !self.alt && !self.super_key && !self.hyper && !self.meta
    }
}

impl KeyEvent {
    /// A key press of `code` with `modifiers` held.
    pub fn new(code: KeyCode, modifiers: KeyModifiers) -> (e: KeyEvent)
        ensures
            e.code == code,
            e.modifiers == modifiers,
    {
        KeyEvent { code, modifiers }
    }
}

pub open spec fn ctrl_prefix() -> Seq<char> {
    seq!['c', 't', 'r', 'l', '-']
}

pub open spec fn alt_prefix() -> Seq<char> {
    seq!['a', 'l', 't', '-']
}

pub open spec fn shift_prefix() -> Seq<char> {
    seq!['s', 'h', 'i', 'f', 't', '-']
}

/// Strips the leading `ctrl-`, `alt-` and `shift-` prefixes, in any order and number,
/// and collects the modifiers they name.
pub open spec fn spec_extract_modifiers(s: Seq<char>) -> (Seq<char>, KeyModifiers)
    decreases s.len(),
{
    if has_prefix(s, ctrl_prefix()) {
        let (r, m) = spec_extract_modifiers(s.skip(5));
        (r, KeyModifiers { control: true, ..m })
    } else if has_prefix(s, alt_prefix()) {
        let (r, m) = spec_extract_modifiers(s.skip(4));
        (r, KeyModifiers { alt: true, ..m })
    } else if has_prefix(s, shift_prefix()) {
        let (r, m) = spec_extract_modifiers(s.skip(6));
        (r, KeyModifiers { shift: true, ..m })
    } else {
        (s, KeyModifiers::none_spec())
    }
}

/// The key code that a key name stands for, before modifiers are applied.
/// `backtab` also implies shift; a name of one ASCII character stands for that character.
pub open spec fn spec_parse_key_code(raw: Seq<char>, m: KeyModifiers) -> Result<KeyEvent, Seq<char>> {
    let ok = |c: KeyCode| Ok::<KeyEvent, Seq<char>>(KeyEvent { code: c, modifiers: m });
    if raw == "esc"@ {
        ok(KeyCode::Esc)
    } else if raw == "enter"@ {
        ok(KeyCode::Enter)
    } else if raw == "left"@ {
        ok(KeyCode::Left)
    } else if raw == "right"@ {
        ok(KeyCode::Right)
    } else if raw == "up"@ {
        ok(KeyCode::Up)
    } else if raw == "down"@ {
        ok(KeyCode::Down)
    } else if raw == "home"@ {
        ok(KeyCode::Home)
    } else if raw == "end"@ {
        ok(KeyCode::End)
    } else if raw == "pageup"@ {
        ok(KeyCode::PageUp)
    } else if raw == "pagedown"@ {
        ok(KeyCode::PageDown)
    } else if raw == "backtab"@ {
        Ok(KeyEvent { code: KeyCode::BackTab, modifiers: KeyModifiers { shift: true, ..m } })
    } else if raw == "backspace"@ {
        ok(KeyCode::Backspace)
    } else if raw == "delete"@ {
        ok(KeyCode::Delete)
    } else if raw == "insert"@ {
        ok(KeyCode::Insert)
    } else if raw == "f1"@ {
        ok(KeyCode::F(1))
    } else if raw == "f2"@ {
        ok(KeyCode::F(2))
    } else if raw == "f3"@ {
        ok(KeyCode::F(3))
    } else if raw == "f4"@ {
        ok(KeyCode::F(4))
    } else if raw == "f5"@ {
        ok(KeyCode::F(5))
    } else if raw == "f6"@ {
        ok(KeyCode::F(6))
    } else if raw == "f7"@ {
        ok(KeyCode::F(7))
    } else if raw == "f8"@ {
        ok(KeyCode::F(8))
    } else if raw == "f9"@ {
        ok(KeyCode::F(9))
    } else if raw == "f10"@ {
        ok(KeyCode::F(10))
    } else if raw == "f11"@ {
        ok(KeyCode::F(11))
    } else if raw == "f12"@ {
        ok(KeyCode::F(12))
    } else if raw == "space"@ {
        ok(KeyCode::Char(' '))
    } else if raw == "hyphen"@ {
        ok(KeyCode::Char('-'))
    } else if raw == "minus"@ {
        ok(KeyCode::Char('-'))
    } else if raw == "tab"@ {
        ok(KeyCode::Tab)
    } else if raw.len() == 1 && (raw[0] as u32) < 128 {
        let c = if m.shift {
            ascii_upper(raw[0])
        } else {
            raw[0]
        };
        ok(KeyCode::Char(c))
    } else {
        Err("Unable to parse "@ + raw)
    }
}

/// What parsing a single key description gives: it is read case-insensitively (ASCII),
/// modifier prefixes are stripped, and the rest names the key.
pub open spec fn spec_parse_key_event(raw: Seq<char>) -> Result<KeyEvent, Seq<char>> {
    let (rest, m) = spec_extract_modifiers(lower_ascii(raw));
    spec_parse_key_code(rest, m)
}

/// Strips the modifier prefixes from `raw`; returns the position where the key name
/// starts and the modifiers named before it.
pub fn extract_modifiers(raw: &[char]) -> (res: (usize, KeyModifiers))
    ensures
        res.0 <= raw@.len(),
        (raw@.skip(res.0 as int), res.1) == spec_extract_modifiers(raw@),
{
    let ctrl = chars_of("ctrl-");
    let alt = chars_of("alt-");
    let shift = chars_of("shift-");
    proof {
        reveal_strlit("ctrl-");
        reveal_strlit("alt-");
        reveal_strlit("shift-");
        assert(ctrl@ =~= ctrl_prefix());
        assert(alt@ =~= alt_prefix());
        assert(shift@ =~= shift_prefix());
    }
    let mut modifiers = KeyModifiers::none();
    let mut i: usize = 0;
    assert(raw@.skip(0) =~= raw@);
    loop
        invariant
            i <= raw@.len(),
            raw@.len() == raw.len(),
            ctrl@ == ctrl_prefix(),
            alt@ == alt_prefix(),
            shift@ == shift_prefix(),
            ({
                let (r, m) = spec_extract_modifiers(raw@.skip(i as int));
                spec_extract_modifiers(raw@) == (r, modifiers.union(m))
            }),
        decreases raw@.len() - i,
    {
        let ghost s = raw@.skip(i as int);
        if occurs_at(raw, i, ctrl.as_slice()) {
            assert(s.skip(5) =~= raw@.skip(i + 5));
            modifiers.control = true;
            i = i + 5;
        } else if occurs_at(raw, i, alt.as_slice()) {
            assert(s.skip(4) =~= raw@.skip(i + 4));
            modifiers.alt = true;
            i = i + 4;
        } else if occurs_at(raw, i, shift.as_slice()) {
            assert(s.skip(6) =~= raw@.skip(i + 6));
            modifiers.shift = true;
            i = i + 6;
        } else {
            return (i, modifiers);
        }
    }
}

/// Reads a key name (already lower-cased and stripped of modifier prefixes) together with
/// the modifiers named before it.
pub fn parse_key_code_with_modifiers(raw: &[char], modifiers: KeyModifiers) -> (res: Result<KeyEvent, String>)
    ensures
        result_view(res) == spec_parse_key_code(raw@, modifiers),
{
    let m = modifiers;
    let code = if is_text(raw, "esc") {
        KeyCode::Esc
    } else if is_text(raw, "enter") {
        KeyCode::Enter
    } else if is_text(raw, "left") {
        KeyCode::Left
    } else if is_text(raw, "right") {
        KeyCode::Right
    } else if is_text(raw, "up") {
        KeyCode::Up
    } else if is_text(raw, "down") {
        KeyCode::Down
    } else if is_text(raw, "home") {
        KeyCode::Home
    } else if is_text(raw, "end") {
        KeyCode::End
    } else if is_text(raw, "pageup") {
        KeyCode::PageUp
    } else if is_text(raw, "pagedown") {
        KeyCode::PageDown
    } else if is_text(raw, "backtab") {
        return Ok(KeyEvent { code: KeyCode::BackTab, modifiers: KeyModifiers { shift: true, ..m } });
    } else if is_text(raw, "backspace") {
        KeyCode::Backspace
    } else if is_text(raw, "delete") {
        KeyCode::Delete
    } else if is_text(raw, "insert") {
        KeyCode::Insert
    } else if is_text(raw, "f1") {
        KeyCode::F(1)
    } else if is_text(raw, "f2") {
        KeyCode::F(2)
    } else if is_text(raw, "f3") {
        KeyCode::F(3)
    } else if is_text(raw, "f4") {
        KeyCode::F(4)
    } else if is_text(raw, "f5") {
        KeyCode::F(5)
    } else if is_text(raw, "f6") {
        KeyCode::F(6)
    } else if is_text(raw, "f7") {
        KeyCode::F(7)
    } else if is_text(raw, "f8") {
        KeyCode::F(8)
    } else if is_text(raw, "f9") {
        KeyCode::F(9)
    } else if is_text(raw, "f10") {
        KeyCode::F(10)
    } else if is_text(raw, "f11") {
        KeyCode::F(11)
    } else if is_text(raw, "f12") {
        KeyCode::F(12)
    } else if is_text(raw, "space") {
        KeyCode::Char(' ')
    } else if is_text(raw, "hyphen") {
        KeyCode::Char('-')
    } else if is_text(raw, "minus") {
        KeyCode::Char('-')
    } else if is_text(raw, "tab") {
        KeyCode::Tab
    } else if raw.len() == 1 && (raw[0] as u32) < 128 {
        let c = if m.shift {
            to_ascii_upper(raw[0])
        } else {
            raw[0]
        };
        KeyCode::Char(c)
    } else {
        let prefix = chars_of("Unable to parse ");
        return Err(concat_string(prefix.as_slice(), raw));
    };
    Ok(KeyEvent { code, modifiers: m })
}

/// Parses one key description such as `ctrl-a`, `alt-enter` or `shift-esc`,
/// ignoring ASCII case.
pub fn parse_key_event(raw: &str) -> (res: Result<KeyEvent, String>)
    ensures
        result_view(res) == spec_parse_key_event(raw@),
{
    let chars = chars_of(raw);
    let lower = to_ascii_lower_chars(chars.as_slice());
    let (start, modifiers) = extract_modifiers(lower.as_slice());
    let rest = chars_from(lower.as_slice(), start);
    parse_key_code_with_modifiers(rest.as_slice(), modifiers)
}

/// The decimal digit character for `d < 10`.
pub open spec fn digit_char(d: nat) -> char {
    ((d + 48) as u32) as char
}

/// The decimal notation of `n`, without leading zeros.
pub open spec fn decimal(n: nat) -> Seq<char>
    decreases n,
{
    if n < 10 {
        seq![digit_char(n)]
    } else {
        decimal(n / 10).push(digit_char(n % 10))
    }
}

/// The text that names a key code in a key description; empty for keys without a name.
pub open spec fn key_code_name(code: KeyCode) -> Seq<char> {
    match code {
        KeyCode::Backspace => "backspace"@,
        KeyCode::Enter => "enter"@,
        KeyCode::Left => "left"@,
        KeyCode::Right => "right"@,
        KeyCode::Up => "up"@,
        KeyCode::Down => "down"@,
        KeyCode::Home => "home"@,
        KeyCode::End => "end"@,
        KeyCode::PageUp => "pageup"@,
        KeyCode::PageDown => "pagedown"@,
        KeyCode::Tab => "tab"@,
        KeyCode::BackTab => "backtab"@,
        KeyCode::Delete => "delete"@,
        KeyCode::Insert => "insert"@,
        KeyCode::F(n) => "f("@ + decimal(n as nat) + ")"@,
        KeyCode::Char(c) => if c == ' ' {
            "space"@
        } else {
            seq![c]
        },
        KeyCode::Esc => "esc"@,
        _ => Seq::empty(),
    }
}

/// The modifier prefix of a key description: `ctrl-`, `shift-`, `alt-` in this order,
/// for those of the three that are held.
pub open spec fn modifiers_prefix(m: KeyModifiers) -> Seq<char> {
    (if m.control {
        ctrl_prefix()
    } else {
        Seq::empty()
    }) + (if m.shift {
        shift_prefix()
    } else {
        Seq::empty()
    }) + (if m.alt {
        alt_prefix()
    } else {
        Seq::empty()
    })
}

/// The key description of a key press.
pub open spec fn spec_key_event_to_string(e: KeyEvent) -> Seq<char> {
    modifiers_prefix(e.modifiers) + key_code_name(e.code)
}

pub(crate) fn decimal_chars(n: u8) -> (v: Vec<char>)
    ensures
        v@ == decimal(n as nat),
{
    proof {
        reveal_with_fuel(decimal, 3);
    }
    let mut v: Vec<char> = Vec::new();
    if n >= 100 {
        v.push((n / 100 + 48) as char);
        v.push((n / 10 % 10 + 48) as char);
        v.push((n % 10 + 48) as char);
        assert(decimal(n as nat) =~= seq![digit_char(n as nat / 100), digit_char(n as nat / 10 % 10), digit_char(n as nat % 10)]);
    } else if n >= 10 {
        v.push((n / 10 + 48) as char);
        v.push((n % 10 + 48) as char);
        assert(decimal(n as nat) =~= seq![digit_char(n as nat / 10), digit_char(n as nat % 10)]);
    } else {
        v.push((n + 48) as char);
    }
    assert(v@ =~= decimal(n as nat));
    v
}

fn key_code_name_chars(code: KeyCode) -> (v: Vec<char>)
    ensures
        v@ == key_code_name(code),
{
    match code {
        KeyCode::Backspace => chars_of("backspace"),
        KeyCode::Enter => chars_of("enter"),
        KeyCode::Left => chars_of("left"),
        KeyCode::Right => chars_of("right"),
        KeyCode::Up => chars_of("up"),
        KeyCode::Down => chars_of("down"),
        KeyCode::Home => chars_of("home"),
        KeyCode::End => chars_of("end"),
        KeyCode::PageUp => chars_of("pageup"),
        KeyCode::PageDown => chars_of("pagedown"),
        KeyCode::Tab => chars_of("tab"),
        KeyCode::BackTab => chars_of("backtab"),
        KeyCode::Delete => chars_of("delete"),
        KeyCode::Insert => chars_of("insert"),
        KeyCode::F(n) => {
            let mut v = chars_of("f(");
            let mut d = decimal_chars(n);
            v.append(&mut d);
            let mut close = chars_of(")");
            v.append(&mut close);
            v
        },
        KeyCode::Char(c) => {
            if c == ' ' {
                chars_of("space")
            } else {
                let mut v = Vec::new();
                v.push(c);
                assert(v@ =~= seq![c]);
                v
            }
        },
        KeyCode::Esc => chars_of("esc"),
        _ => Vec::new(),
    }
}

/// Writes a key press as a key description, such as `ctrl-alt-a`.
pub fn key_event_to_string(key_event: &KeyEvent) -> (s: String)
    ensures
        s@ == spec_key_event_to_string(*key_event),
{
    let mut v: Vec<char> = Vec::new();
    if key_event.modifiers.control {
        v = chars_of("ctrl-");
        proof {
            reveal_strlit("ctrl-");
        }
        assert(v@ =~= ctrl_prefix());
    }
    if key_event.modifiers.shift {
        let mut p = chars_of("shift-");
        proof {
            reveal_strlit("shift-");
        }
        assert(p@ =~= shift_prefix());
        v.append(&mut p);
    }
    if key_event.modifiers.alt {
        let mut p = chars_of("alt-");
        proof {
            reveal_strlit("alt-");
        }
        assert(p@ =~= alt_prefix());
        v.append(&mut p);
    }
    assert(v@ =~= modifiers_prefix(key_event.modifiers));
    let mut name = key_code_name_chars(key_event.code);
    v.append(&mut name);
    string_of(v.as_slice())
}

/// The key presses whose description reads back as the same key press: only
/// `ctrl`, `shift` and `alt` are held, the key has a name that parses back
/// (`F` keys are written `f(n)` and unnamed keys as nothing), `backtab` comes with shift,
/// and a character key is ASCII and lower-case without shift, not lower-case with shift.
pub open spec fn describable(e: KeyEvent) -> bool {
    &&& !e.modifiers.super_key
    &&& !e.modifiers.hyper
    &&& !e.modifiers.meta
    &&& match e.code {
        KeyCode::Backspace | KeyCode::Enter | KeyCode::Left | KeyCode::Right | KeyCode::Up
        | KeyCode::Down | KeyCode::Home | KeyCode::End | KeyCode::PageUp | KeyCode::PageDown
        | KeyCode::Tab | KeyCode::Delete | KeyCode::Insert | KeyCode::Esc => true,
        KeyCode::BackTab => e.modifiers.shift,
        KeyCode::Char(c) => {
            &&& (c as u32) < 128
            &&& e.modifiers.shift ==> !('a' <= c && c <= 'z')
            &&& !e.modifiers.shift ==> !('A' <= c && c <= 'Z')
        },
        _ => false,
    }
}

proof fn lemma_lower_concat(a: Seq<char>, b: Seq<char>)
    ensures
        lower_ascii(a + b) == lower_ascii(a) + lower_ascii(b),
{
    assert(lower_ascii(a + b) =~= lower_ascii(a) + lower_ascii(b));
}

proof fn lemma_prefix_lower(m: KeyModifiers)
    ensures
        lower_ascii(modifiers_prefix(m)) == modifiers_prefix(m),
{
    let p = modifiers_prefix(m);
    assert(lower_ascii(p) =~= p);
}

proof fn lemma_extract_after_prefix(m: KeyModifiers, t: Seq<char>)
    requires
        !has_prefix(t, ctrl_prefix()),
        !has_prefix(t, alt_prefix()),
        !has_prefix(t, shift_prefix()),
    ensures
        spec_extract_modifiers(modifiers_prefix(m) + t) == (t, KeyModifiers {
            shift: m.shift,
            control: m.control,
            alt: m.alt,
            super_key: false,
            hyper: false,
            meta: false,
        }),
{
    let a = if m.alt { alt_prefix() } else { Seq::empty() };
    let s = if m.shift { shift_prefix() } else { Seq::empty() };
    let c = if m.control { ctrl_prefix() } else { Seq::empty() };
    assert(modifiers_prefix(m) + t =~= c + (s + (a + t)));
    let at = a + t;
    assert(spec_extract_modifiers(t) == (t, KeyModifiers::none_spec()));
    if m.alt {
        assert(at.take(4) =~= alt_prefix());
        assert(has_prefix(at, alt_prefix()));
        assert(at[0] == 'a');
        if has_prefix(at, ctrl_prefix()) {
            assert(at.take(5)[0] == 'c');
        }
        assert(at.skip(4) =~= t);
    } else {
        assert(at =~= t);
    }
    let ma = KeyModifiers { alt: m.alt, ..KeyModifiers::none_spec() };
    assert(spec_extract_modifiers(at) == (t, ma));
    let sat = s + at;
    if m.shift {
        assert(sat.take(6) =~= shift_prefix());
        assert(has_prefix(sat, shift_prefix()));
        assert(sat[0] == 's');
        if has_prefix(sat, ctrl_prefix()) {
            assert(sat.take(5)[0] == 'c');
        }
        if has_prefix(sat, alt_prefix()) {
            assert(sat.take(4)[0] == 'a');
        }
        assert(sat.skip(6) =~= at);
    } else {
        assert(sat =~= at);
    }
    let ms = KeyModifiers { shift: m.shift, ..ma };
    assert(spec_extract_modifiers(sat) == (t, ms));
    let csat = c + sat;
    if m.control {
        assert(csat.take(5) =~= ctrl_prefix());
        assert(has_prefix(csat, ctrl_prefix()));
        assert(csat.skip(5) =~= sat);
    } else {
        assert(csat =~= sat);
    }
    assert(spec_extract_modifiers(csat) == (t, KeyModifiers { control: m.control, ..ms }));
}

proof fn lemma_name_not_prefixed(t: Seq<char>)
    requires
        t.len() < 4 || t.len() >= 4 && t[3] != '-' && (t.len() < 5 || t[4] != '-') && (t.len() < 6 || t[5] != '-'),
    ensures
        !has_prefix(t, ctrl_prefix()),
        !has_prefix(t, alt_prefix()),
        !has_prefix(t, shift_prefix()),
{
    if has_prefix(t, ctrl_prefix()) {
        assert(t.take(5)[4] == '-');
    }
    if has_prefix(t, alt_prefix()) {
        assert(t.take(4)[3] == '-');
    }
    if has_prefix(t, shift_prefix()) {
        assert(t.take(6)[5] == '-');
    }
}

/// Writing a key press as a description and reading it back gives the same key press,
/// for every key press that has such a description.
pub proof fn lemma_key_event_round_trip(e: KeyEvent)
    requires
        describable(e),
    ensures
        spec_parse_key_event(spec_key_event_to_string(e)) == Ok::<KeyEvent, Seq<char>>(e),
{
    reveal_strlit("esc");
    reveal_strlit("enter");
    reveal_strlit("left");
    reveal_strlit("right");
    reveal_strlit("up");
    reveal_strlit("down");
    reveal_strlit("home");
    reveal_strlit("end");
    reveal_strlit("pageup");
    reveal_strlit("pagedown");
    reveal_strlit("backtab");
    reveal_strlit("backspace");
    reveal_strlit("delete");
    reveal_strlit("insert");
    reveal_strlit("f1");
    reveal_strlit("f2");
    reveal_strlit("f3");
    reveal_strlit("f4");
    reveal_strlit("f5");
    reveal_strlit("f6");
    reveal_strlit("f7");
    reveal_strlit("f8");
    reveal_strlit("f9");
    reveal_strlit("f10");
    reveal_strlit("f11");
    reveal_strlit("f12");
    reveal_strlit("space");
    reveal_strlit("hyphen");
    reveal_strlit("minus");
    reveal_strlit("tab");
    let m = e.modifiers;
    let t = key_code_name(e.code);
    lemma_lower_concat(modifiers_prefix(m), t);
    lemma_prefix_lower(m);
    let lt = lower_ascii(t);
    assert(lower_ascii(spec_key_event_to_string(e)) == modifiers_prefix(m) + lt);
    match e.code {
        KeyCode::Char(c) => {
            if c == ' ' {
                assert(lt =~= t);
            } else {
                assert(lt =~= seq![ascii_lower(c)]);
            }
        },
        _ => {
            assert(lt =~= t);
        },
    }
    lemma_name_not_prefixed(lt);
    lemma_extract_after_prefix(m, lt);
    assert(spec_parse_key_event(spec_key_event_to_string(e)) == spec_parse_key_code(lt, m));
    if e.code == KeyCode::End {
        assert(lt[1] != "esc"@[1]);
    }
    assert(spec_parse_key_code(lt, m) == Ok::<KeyEvent, Seq<char>>(e));
}

/// How many times `c` occurs in `s`.
pub open spec fn count_char(s: Seq<char>, c: char) -> nat
    decreases s.len(),
{
    if s.len() == 0 {
        0
    } else {
        count_char(s.drop_last(), c) + if s.last() == c {
            1nat
        } else {
            0nat
        }
    }
}

/// Whether `><` occurs in `s` at position `i`.
pub open spec fn joint_at(s: Seq<char>, i: int) -> bool {
    0 <= i < s.len() - 1 && s[i] == '>' && s[i + 1] == '<'
}

/// Whether `><` occurs in `s`.
pub open spec fn contains_joint(s: Seq<char>) -> bool {
    exists|i: int| #[trigger] joint_at(s, i)
}

/// `s` without its first character if that is `c`.
pub open spec fn strip_first(s: Seq<char>, c: char) -> Seq<char> {
    if s.len() > 0 && s[0] == c {
        s.drop_first()
    } else {
        s
    }
}

/// The pieces of `s` between the occurrences of `><`, taken from the left without overlap
/// (`str::split` with the pattern `><`).
pub open spec fn split_joints(s: Seq<char>) -> Seq<Seq<char>>
    decreases s.len(),
{
    if s.len() < 2 {
        seq![s]
    } else if s[0] == '>' && s[1] == '<' {
        seq![Seq::<char>::empty()] + split_joints(s.skip(2))
    } else {
        let rest = split_joints(s.drop_first());
        rest.update(0, seq![s[0]] + rest[0])
    }
}

/// One key of a sequence with its angle bracket removed: a leading `<`, else a trailing `>`.
pub open spec fn unbracket(p: Seq<char>) -> Seq<char> {
    if p.len() > 0 && p[0] == '<' {
        p.drop_first()
    } else if p.len() > 0 && p.last() == '>' {
        p.drop_last()
    } else {
        p
    }
}

/// The keys of a key sequence, before each is parsed.
pub open spec fn key_sequence_pieces(raw: Seq<char>) -> Seq<Seq<char>> {
    let s = if !contains_joint(raw) {
        strip_first(strip_first(raw, '<'), '>')
    } else {
        raw
    };
    split_joints(s).map_values(|p: Seq<char>| unbracket(p))
}

/// Parses every piece in order; the first piece that does not parse gives the error.
pub open spec fn parse_pieces(pieces: Seq<Seq<char>>) -> Result<Seq<KeyEvent>, Seq<char>>
    decreases pieces.len(),
{
    if pieces.len() == 0 {
        Ok(Seq::empty())
    } else {
        match spec_parse_key_event(pieces[0]) {
            Err(e) => Err(e),
            Ok(k) => match parse_pieces(pieces.drop_first()) {
                Err(e) => Err(e),
                Ok(ks) => Ok(seq![k] + ks),
            },
        }
    }
}

/// What parsing a key sequence such as `<ctrl-a><b>` gives.
pub open spec fn spec_parse_key_sequence(raw: Seq<char>) -> Result<Seq<KeyEvent>, Seq<char>> {
    if count_char(raw, '>') != count_char(raw, '<') {
        Err("Unable to parse `"@ + raw + "`"@)
    } else {
        parse_pieces(key_sequence_pieces(raw))
    }
}

fn count_of(s: &[char], c: char) -> (n: usize)
    ensures
        n == count_char(s@, c),
{
    let mut n: usize = 0;
    let mut i: usize = 0;
    while i < s.len()
        invariant
            i <= s@.len(),
            n == count_char(s@.take(i as int), c),
            n <= i,
        decreases s@.len() - i,
    {
        assert(s@.take(i + 1).drop_last() =~= s@.take(i as int));
        if s[i] == c {
            n = n + 1;
        }
        i = i + 1;
    }
    assert(s@.take(s@.len() as int) =~= s@);
    n
}

fn has_joint(s: &[char]) -> (r: bool)
    ensures
        r == contains_joint(s@),
{
    let mut i: usize = 0;
    while i < s.len() && i + 1 < s.len()
        invariant
            s@.len() == s.len(),
            i <= s@.len(),
            forall|j: int| 0 <= j < i ==> !#[trigger] joint_at(s@, j),
        decreases s@.len() - i,
    {
        if s[i] == '>' && s[i + 1] == '<' {
            assert(joint_at(s@, i as int));
            return true;
        }
        i = i + 1;
    }
    assert(forall|j: int| !#[trigger] joint_at(s@, j));
    false
}

/// `merge(cur, parts)`: `parts` with `cur` put in front of its first piece.
spec fn merge_first(cur: Seq<char>, parts: Seq<Seq<char>>) -> Seq<Seq<char>> {
    parts.update(0, cur + parts[0])
}

proof fn lemma_split_nonempty(s: Seq<char>)
    ensures
        split_joints(s).len() >= 1,
    decreases s.len(),
{
    if s.len() >= 2 {
        if s[0] == '>' && s[1] == '<' {
            lemma_split_nonempty(s.skip(2));
        } else {
            lemma_split_nonempty(s.drop_first());
        }
    }
}

fn split_at_joints(s: &[char]) -> (parts: Vec<Vec<char>>)
    ensures
        parts@.map_values(|p: Vec<char>| p@) == split_joints(s@),
{
    let mut parts: Vec<Vec<char>> = Vec::new();
    let mut cur: Vec<char> = Vec::new();
    let mut i: usize = 0;
    assert(s@.skip(0) =~= s@);
    proof {
        lemma_split_nonempty(s@);
        assert(merge_first(cur@, split_joints(s@)) =~= split_joints(s@));
    }
    while i < s.len()
        invariant
            i <= s@.len(),
            split_joints(s@) == parts@.map_values(|p: Vec<char>| p@) + merge_first(cur@, split_joints(s@.skip(i as int))),
        decreases s@.len() - i,
    {
        let ghost rest = s@.skip(i as int);
        proof {
            lemma_split_nonempty(rest);
        }
        if i + 1 < s.len() && s[i] == '>' && s[i + 1] == '<' {
            proof {
                assert(rest.skip(2) =~= s@.skip(i + 2));
                lemma_split_nonempty(rest.skip(2));
                let tail = split_joints(rest.skip(2));
                assert(split_joints(rest) == seq![Seq::<char>::empty()] + tail);
                assert(merge_first(cur@, split_joints(rest)) =~= seq![cur@] + merge_first(Seq::<char>::empty(), tail));
            }
            let ghost old_parts = parts@;
            let done = cur;
            parts.push(done);
            cur = Vec::new();
            assert(parts@.map_values(|p: Vec<char>| p@) =~= old_parts.map_values(|p: Vec<char>| p@).push(done@));
            i = i + 2;
        } else {
            proof {
                assert(rest.drop_first() =~= s@.skip(i + 1));
                lemma_split_nonempty(rest.drop_first());
                let tail = split_joints(rest.drop_first());
                if rest.len() >= 2 {
                    assert(split_joints(rest) == tail.update(0, seq![rest[0]] + tail[0]));
                } else {
                    assert(rest.drop_first() =~= Seq::<char>::empty());
                    assert(tail == seq![Seq::<char>::empty()]);
                    assert(split_joints(rest) == seq![rest]);
                    assert(rest =~= seq![rest[0]] + tail[0]);
                }
                assert(rest[0] == s@[i as int]);
                assert(cur@ + (seq![rest[0]] + tail[0]) =~= cur@.push(s@[i as int]) + tail[0]);
                assert(merge_first(cur@, split_joints(rest)) =~= merge_first(cur@.push(s@[i as int]), tail));
            }
            cur.push(s[i]);
            i = i + 1;
        }
    }
    proof {
        assert(s@.skip(i as int) =~= Seq::<char>::empty());
        assert(merge_first(cur@, split_joints(s@.skip(i as int))) =~= seq![cur@]);
    }
    let ghost old_parts = parts@;
    let done = cur;
    parts.push(done);
    assert(parts@.map_values(|p: Vec<char>| p@) =~= old_parts.map_values(|p: Vec<char>| p@).push(done@));
    parts
}

fn strip_first_char(s: Vec<char>, c: char) -> (r: Vec<char>)
    ensures
        r@ == strip_first(s@, c),
{
    if s.len() > 0 && s[0] == c {
        let r = chars_from(s.as_slice(), 1);
        assert(r@ =~= s@.drop_first());
        r
    } else {
        s
    }
}

fn unbracket_chars(p: &Vec<char>) -> (r: Vec<char>)
    ensures
        r@ == unbracket(p@),
{
    if p.len() > 0 && p[0] == '<' {
        let r = chars_from(p.as_slice(), 1);
        assert(r@ =~= p@.drop_first());
        r
    } else if p.len() > 0 && p[p.len() - 1] == '>' {
        let mut r = p.clone();
        r.pop();
        assert(r@ =~= p@.drop_last());
        r
    } else {
        p.clone()
    }
}

/// Parses a key sequence such as `<ctrl-a><b>` or `q`: the angle brackets must balance,
/// and each key is parsed as `parse_key_event` does.
pub fn parse_key_sequence(raw: &str) -> (res: Result<Vec<KeyEvent>, String>)
    ensures
        match res {
            Ok(v) => spec_parse_key_sequence(raw@) == Ok::<Seq<KeyEvent>, Seq<char>>(v@),
            Err(e) => spec_parse_key_sequence(raw@) == Err::<Seq<KeyEvent>, Seq<char>>(e@),
        },
{
    let chars = chars_of(raw);
    if count_of(chars.as_slice(), '>') != count_of(chars.as_slice(), '<') {
        let mut msg = chars_of("Unable to parse `");
        let mut body = chars.clone();
        msg.append(&mut body);
        let mut close = chars_of("`");
        msg.append(&mut close);
        return Err(string_of(msg.as_slice()));
    }
    let prepared = if !has_joint(chars.as_slice()) {
        let r = strip_first_char(chars, '<');
        strip_first_char(r, '>')
    } else {
        chars
    };
    let parts = split_at_joints(prepared.as_slice());
    let ghost pieces = key_sequence_pieces(raw@);
    assert(pieces =~= parts@.map_values(|p: Vec<char>| unbracket(p@)));
    let mut events: Vec<KeyEvent> = Vec::new();
    let mut i: usize = 0;
    assert(pieces.skip(0) =~= pieces);
    proof {
        match parse_pieces(pieces) {
            Err(_) => {},
            Ok(ks) => {
                assert(events@ + ks =~= ks);
            },
        }
    }
    assert(spec_parse_key_sequence(raw@) == parse_pieces(pieces));
    while i < parts.len()
        invariant
            i <= parts@.len(),
            pieces.len() == parts@.len(),
            spec_parse_key_sequence(raw@) == parse_pieces(pieces),
            forall|j: int| 0 <= j < pieces.len() ==> #[trigger] pieces[j] == unbracket(parts@[j]@),
            parse_pieces(pieces) == match parse_pieces(pieces.skip(i as int)) {
                Err(e) => Err(e),
                Ok(ks) => Ok::<Seq<KeyEvent>, Seq<char>>(events@ + ks),
            },
        decreases parts@.len() - i,
    {
        let ghost rest = pieces.skip(i as int);
        assert(rest[0] == pieces[i as int]);
        assert(rest.drop_first() =~= pieces.skip(i + 1));
        let piece = unbracket_chars(&parts[i]);
        let text = string_of(piece.as_slice());
        match parse_key_event(text.as_str()) {
            Err(e) => {
                assert(text@ == rest[0]);
                assert(parse_pieces(rest) == Err::<Seq<KeyEvent>, Seq<char>>(e@));
                return Err(e);
            },
            Ok(k) => {
                assert(events@.push(k) + Seq::empty() =~= events@.push(k));
                proof {
                    match parse_pieces(pieces.skip(i + 1)) {
                        Err(_) => {},
                        Ok(ks) => {
                            assert(events@ + (seq![k] + ks) =~= events@.push(k) + ks);
                        },
                    }
                }
                events.push(k);
            },
        }
        i = i + 1;
    }
    assert(pieces.skip(i as int) =~= Seq::<Seq<char>>::empty());
    assert(events@ + Seq::<KeyEvent>::empty() =~= events@);
    Ok(events)
}

} // verus!
