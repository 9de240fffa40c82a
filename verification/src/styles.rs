use vstd::prelude::*;

use crate::action::strip_leading;
use crate::text::{
    chars_from, chars_of, has_prefix, occurs_at, string_of, take_chars, trim_white,
    trim_white_chars, utf8_size, utf8_width, utf8_width_of,
};

verus! {

/// A terminal color, given by its index in the 256-color palette.
#[derive(Debug, Clone, Copy, PartialEq, Eq, Hash, Structural)]
pub enum Color {
    Indexed(u8),
}

/// The text modifiers that a style description can switch on.
#[derive(Debug, Clone, Copy, PartialEq, Eq, Hash, Structural)]
pub struct Modifier {
    pub bold: bool,
    pub underlined: bool,
    pub reversed: bool,
}

/// A text style: foreground and background color and the modifiers added.
#[derive(Debug, Clone, Copy, PartialEq, Eq, Hash, Structural)]
pub struct Style {
    pub fg: Option<Color>,
    pub bg: Option<Color>,
    pub add_modifier: Modifier,
}

impl Modifier {
    pub open spec fn empty_spec() -> Modifier {
        Modifier { bold: false, underlined: false, reversed: false }
    }

    /// No modifier.
    pub fn empty() -> (m: Modifier)
        ensures
            m == Modifier::empty_spec(),
    {
        Modifier { bold: false, underlined: false, reversed: false }
    }

    /// The modifiers of `self` and of `other` together.
    pub open spec fn union(self, other: Modifier) -> Modifier {
        Modifier {
            bold: self.bold || other.bold,
            underlined: self.underlined || other.underlined,
            reversed: self.reversed || other.reversed,
        }
    }
}

impl Style {
    pub open spec fn default_spec() -> Style {
        Style { fg: None, bg: None, add_modifier: Modifier::empty_spec() }
    }
}

impl Default for Style {
    fn default() -> (s: Style)
        ensures
            s == Style::default_spec(),
    {
        Style { fg: None, bg: None, add_modifier: Modifier::empty() }
    }
}

/// The position of the first occurrence of `p` in `s` (`str::find`).
pub open spec fn find_text(s: Seq<char>, p: Seq<char>) -> Option<nat>
    decreases s.len(),
{
    if has_prefix(s, p) {
        Some(0)
    } else if s.len() == 0 {
        None
    } else {
        match find_text(s.drop_first(), p) {
            Some(i) => Some(i + 1),
            None => None,
        }
    }
}

/// `p` occurs in `s` (`str::contains`).
pub open spec fn contains_text(s: Seq<char>, p: Seq<char>) -> bool {
    find_text(s, p) is Some
}

/// `s` with every occurrence of `from`, taken from the left without overlap, replaced by `to`
/// (`str::replace`).
pub open spec fn replace_text(s: Seq<char>, from: Seq<char>, to: Seq<char>) -> Seq<char>
    decreases s.len(),
{
    if from.len() > 0 && has_prefix(s, from) {
        to + replace_text(s.skip(from.len() as int), from, to)
    } else if s.len() == 0 {
        s
    } else {
        seq![s[0]] + replace_text(s.drop_first(), from, to)
    }
}

/// The `u8` a text denotes when parsed as `str::parse::<u8>` does, or zero where it
/// denotes none (`unwrap_or_default`).
pub open spec fn u8_or_zero(s: Seq<char>) -> u8 {
    match crate::action::u16_text_value(s) {
        Some(n) => if n <= 255 {
            n as u8
        } else {
            0
        },
        None => 0,
    }
}

/// The decimal digit a character denotes, or zero (`to_digit(10).unwrap_or_default()`).
pub open spec fn digit_or_zero(c: char) -> nat {
    if '0' <= c && c <= '9' {
        ((c as u32) - 48) as nat
    } else {
        0
    }
}

/// A color description with surrounding white space removed.
pub open spec fn color_words(s: Seq<char>) -> Seq<char> {
    trim_white(s)
}

/// The decimal digit that the byte at offset `k` of the UTF-8 encoding of `s` denotes when
/// taken as a character, or zero: a byte of a character of more than one byte is no digit.
pub open spec fn digit_at_byte(s: Seq<char>, k: nat) -> nat
    decreases s.len(),
{
    if s.len() == 0 {
        0
    } else if k == 0 {
        digit_or_zero(s[0])
    } else if k < utf8_width(s[0]) {
        0
    } else {
        digit_at_byte(s.drop_first(), (k - utf8_width(s[0])) as nat)
    }
}

/// The palette index of an `rgbRGB` description, `16 + 36 r + 6 g + b`, whose digits are
/// read from the bytes at offsets 3, 4 and 5.
pub open spec fn rgb_index(s: Seq<char>) -> nat {
    16 + digit_at_byte(s, 3) * 36 + digit_at_byte(s, 4) * 6 + digit_at_byte(s, 5)
}

/// The color descriptions that can be read without failing: an `rgb` description is at least
/// six bytes long and its index fits in a byte, and a `gray` level lies below 24.
pub open spec fn color_readable(s0: Seq<char>) -> bool {
    words_readable(color_words(s0))
}

/// `color_readable` for a description with its surrounding white space removed.
pub open spec fn words_readable(s: Seq<char>) -> bool {
    if contains_text(s, "bright color"@) || contains_text(s, "color"@) {
        true
    } else if contains_text(s, "gray"@) {
        232 + u8_or_zero(strip_leading(s, "gray"@)) <= 255
    } else if contains_text(s, "rgb"@) {
        utf8_size(s) >= 6 && rgb_index(s) <= 255
    } else {
        true
    }
}

/// The color that a color description names.
pub open spec fn spec_parse_color(s0: Seq<char>) -> Option<Color> {
    color_of_words(color_words(s0))
}

/// The color named by a description with its surrounding white space removed.
pub open spec fn color_of_words(s: Seq<char>) -> Option<Color> {
    if contains_text(s, "bright color"@) {
        // A shift of a byte by eight places wraps around to a shift by none.
        Some(Color::Indexed(u8_or_zero(strip_leading(strip_leading(s, "bright "@), "color"@))))
    } else if contains_text(s, "color"@) {
        Some(Color::Indexed(u8_or_zero(strip_leading(s, "color"@))))
    } else if contains_text(s, "gray"@) {
        Some(Color::Indexed((232 + u8_or_zero(strip_leading(s, "gray"@))) as u8))
    } else if contains_text(s, "rgb"@) {
        Some(Color::Indexed(rgb_index(s) as u8))
    } else if s == "bold black"@ {
        Some(Color::Indexed(8))
    } else if s == "bold red"@ {
        Some(Color::Indexed(9))
    } else if s == "bold green"@ {
        Some(Color::Indexed(10))
    } else if s == "bold yellow"@ {
        Some(Color::Indexed(11))
    } else if s == "bold blue"@ {
        Some(Color::Indexed(12))
    } else if s == "bold magenta"@ {
        Some(Color::Indexed(13))
    } else if s == "bold cyan"@ {
        Some(Color::Indexed(14))
    } else if s == "bold white"@ {
        Some(Color::Indexed(15))
    } else if s == "black"@ {
        Some(Color::Indexed(0))
    } else if s == "red"@ {
        Some(Color::Indexed(1))
    } else if s == "green"@ {
        Some(Color::Indexed(2))
    } else if s == "yellow"@ {
        Some(Color::Indexed(3))
    } else if s == "blue"@ {
        Some(Color::Indexed(4))
    } else if s == "magenta"@ {
        Some(Color::Indexed(5))
    } else if s == "cyan"@ {
        Some(Color::Indexed(6))
    } else if s == "white"@ {
        Some(Color::Indexed(7))
    } else {
        None
    }
}

/// The names of the eight colors of the terminal palette, in palette order.
pub open spec fn palette_names() -> Seq<Seq<char>> {
    seq![
        seq!['b', 'l', 'a', 'c', 'k'],
        seq!['r', 'e', 'd'],
        seq!['g', 'r', 'e', 'e', 'n'],
        seq!['y', 'e', 'l', 'l', 'o', 'w'],
        seq!['b', 'l', 'u', 'e'],
        seq!['m', 'a', 'g', 'e', 'n', 't', 'a'],
        seq!['c', 'y', 'a', 'n'],
        seq!['w', 'h', 'i', 't', 'e'],
    ]
}

/// A text that lacks a character of `p` does not contain `p`.
proof fn lemma_missing_char_not_found(s: Seq<char>, p: Seq<char>, j: int)
    requires
        0 <= j < p.len(),
        forall|i: int| 0 <= i < s.len() ==> s[i] != p[j],
    ensures
        find_text(s, p) is None,
    decreases s.len(),
{
    if has_prefix(s, p) {
        assert(s.take(p.len() as int)[j] == s[j]);
    } else if s.len() > 0 {
        lemma_missing_char_not_found(s.drop_first(), p, j);
    }
}

/// The `k`-th palette name contains none of the words that make a description a numbered,
/// gray or rgb color.
proof fn lemma_palette_name_is_plain(k: int)
    requires
        0 <= k < 8,
    ensures
        !contains_text(palette_names()[k], "bright color"@),
        !contains_text(palette_names()[k], "color"@),
        !contains_text(palette_names()[k], "gray"@),
        !contains_text(palette_names()[k], "rgb"@),
{
    reveal_strlit("bright color");
    reveal_strlit("color");
    reveal_strlit("gray");
    reveal_strlit("rgb");
    let n = palette_names()[k];
    // Each word has a letter that the name lacks; these are its positions.
    let (bi, ci, gi, ri): (int, int, int, int) = if k == 0 {
        (1, 1, 0, 0)
    } else if k == 1 {
        (0, 0, 0, 1)
    } else if k == 2 {
        (0, 0, 2, 2)
    } else if k == 4 {
        (1, 0, 0, 0)
    } else if k == 5 {
        (0, 0, 1, 0)
    } else if k == 6 {
        (0, 1, 0, 0)
    } else {
        (0, 0, 0, 0)
    };
    lemma_missing_char_not_found(n, "bright color"@, bi);
    lemma_missing_char_not_found(n, "color"@, ci);
    lemma_missing_char_not_found(n, "gray"@, gi);
    lemma_missing_char_not_found(n, "rgb"@, ri);
}

/// A description that, with its surrounding white space removed, is the name of one of the
/// eight palette colors black, red, green, yellow, blue, magenta, cyan and white names that
/// color's place in the palette, 0 to 7.
pub proof fn lemma_palette_colors(s: Seq<char>, k: int)
    requires
        0 <= k < 8,
        trim_white(s) == palette_names()[k],
    ensures
        spec_parse_color(s) == Some(Color::Indexed(k as u8)),
{
    lemma_palette_name_is_plain(k);
    reveal_strlit("bold black");
    reveal_strlit("bold red");
    reveal_strlit("bold green");
    reveal_strlit("bold yellow");
    reveal_strlit("bold blue");
    reveal_strlit("bold magenta");
    reveal_strlit("bold cyan");
    reveal_strlit("bold white");
    reveal_strlit("black");
    reveal_strlit("red");
    reveal_strlit("green");
    reveal_strlit("yellow");
    reveal_strlit("blue");
    reveal_strlit("magenta");
    reveal_strlit("cyan");
    reveal_strlit("white");
    let n = palette_names()[k];
    assert(color_words(s) == n);
    assert(n.len() < 8);
    assert(n != "bold black"@ && n != "bold red"@ && n != "bold green"@ && n != "bold yellow"@);
    assert(n != "bold blue"@ && n != "bold magenta"@ && n != "bold cyan"@ && n != "bold white"@);
    if k == 0 {
        assert(n == "black"@);
    } else if k == 1 {
        assert(n == "red"@);
        assert(n != "black"@);
    } else if k == 2 {
        assert(n == "green"@);
        assert(n != "black"@ && n != "red"@);
    } else if k == 3 {
        assert(n == "yellow"@);
        assert(n != "black"@ && n != "red"@ && n != "green"@);
    } else if k == 4 {
        assert(n == "blue"@);
        assert(n != "black"@ && n != "red"@ && n != "green"@ && n != "yellow"@);
    } else if k == 5 {
        assert(n == "magenta"@);
        assert(n != "black"@ && n != "red"@ && n != "green"@ && n != "yellow"@ && n != "blue"@);
    } else if k == 6 {
        assert(n == "cyan"@);
        assert(n != "black"@ && n != "red"@ && n != "green"@ && n != "yellow"@ && n != "blue"@ && n != "magenta"@);
    } else {
        assert(n == "white"@);
        assert(n != "black"@ && n != "red"@ && n != "green"@ && n != "yellow"@ && n != "blue"@ && n != "magenta"@
            && n != "cyan"@);
    }
}

/// A color description with its modifier words taken out, and the modifiers it names.
pub open spec fn spec_process_color_string(s: Seq<char>) -> (Seq<char>, Modifier) {
    let color = replace_text(
        replace_text(
            replace_text(
                replace_text(replace_text(s, "grey"@, "gray"@), "bright "@, Seq::empty()),
                "bold "@,
                Seq::empty(),
            ),
            "underline "@,
            Seq::empty(),
        ),
        "inverse "@,
        Seq::empty(),
    );
    (
        color,
        Modifier {
            bold: contains_text(s, "bold"@),
            underlined: contains_text(s, "underline"@),
            reversed: contains_text(s, "inverse"@),
        },
    )
}

/// The result of `str::to_lowercase`: the text with every character replaced by its
/// lower-case mapping in Unicode.
pub uninterp spec fn lowercased(s: Seq<char>) -> Seq<char>;

/// Calls `str::to_lowercase`. The contract ties the result to the argument by the name
/// `lowercased`; Unicode's case mappings are left unsaid.
#[verifier::external_body]
fn to_lowercase_text(s: &str) -> (r: String)
    ensures
        r@ == lowercased(s@),
{
    s.to_lowercase()
}

/// The index of the character of `s` that starts at byte offset `b` of its UTF-8 encoding
/// (the length of `s` for the offset of its end), or `None` where no character starts there.
pub open spec fn char_at_byte(s: Seq<char>, b: nat) -> Option<nat>
    decreases s.len(),
{
    if b == 0 {
        Some(0)
    } else if s.len() == 0 || b < utf8_width(s[0]) {
        None
    } else {
        match char_at_byte(s.drop_first(), (b - utf8_width(s[0])) as nat) {
            Some(j) => Some(j + 1),
            None => None,
        }
    }
}

/// The byte offset at which a style description is split: that of the first `on ` in its
/// lower-cased text, or its whole length.
pub open spec fn style_split_byte(line: Seq<char>) -> nat {
    let lower = lowercased(line);
    match find_text(lower, "on "@) {
        Some(i) => utf8_size(lower.take(i as int)),
        None => utf8_size(line),
    }
}

/// Where a style description splits into foreground and background, as an index of its
/// characters: where the character at `style_split_byte` starts, if one starts there.
pub open spec fn style_split(line: Seq<char>) -> Option<nat> {
    char_at_byte(line, style_split_byte(line))
}

/// The foreground part of a style description, processed.
pub open spec fn style_foreground(line: Seq<char>) -> (Seq<char>, Modifier) {
    spec_process_color_string(line.take(style_split(line).unwrap() as int))
}

/// The background part of a style description (every `on ` taken out), processed.
pub open spec fn style_background(line: Seq<char>) -> (Seq<char>, Modifier) {
    spec_process_color_string(replace_text(line.skip(style_split(line).unwrap() as int), "on "@, Seq::empty()))
}

/// The style descriptions that can be read without failing: the split falls where a
/// character starts, and the two colors can both be read.
pub open spec fn style_readable(line: Seq<char>) -> bool {
    &&& style_split(line) is Some
    &&& color_readable(style_foreground(line).0)
    &&& color_readable(style_background(line).0)
}

/// The style a description such as `underline red on blue` stands for.
pub open spec fn spec_parse_style(line: Seq<char>) -> Style {
    let fg = style_foreground(line);
    let bg = style_background(line);
    Style {
        fg: spec_parse_color(fg.0),
        bg: spec_parse_color(bg.0),
        add_modifier: fg.1.union(bg.1),
    }
}

/// Calls `str::parse::<u8>`; it succeeds exactly where the text denotes a `u8` as
/// `str::parse::<u16>` would denote one no greater than 255, as the standard library
/// documents for both.
#[verifier::external_body]
fn parse_u8(s: &str) -> (r: Option<u8>)
    ensures
        match r {
            Some(n) => crate::action::u16_text_value(s@) == Some(n as u16),
            None => crate::action::u16_text_value(s@) is None || crate::action::u16_text_value(
                s@,
            ).unwrap() > 255,
        },
{
    s.parse::<u8>().ok()
}

fn u8_or_zero_of(s: &[char]) -> (r: u8)
    ensures
        r == u8_or_zero(s@),
{
    match parse_u8(string_of(s).as_str()) {
        Some(n) => n,
        None => 0,
    }
}

fn find_in(s: &[char], p: &[char]) -> (r: Option<usize>)
    ensures
        match r {
            Some(i) => find_text(s@, p@) == Some(i as nat),
            None => find_text(s@, p@) is None,
        },
{
    let mut i: usize = 0;
    assert(s@.skip(0) =~= s@);
    while i < s.len()
        invariant
            i <= s@.len(),
            find_text(s@, p@) == match find_text(s@.skip(i as int), p@) {
                Some(j) => Some((j + i) as nat),
                None => None::<nat>,
            },
        decreases s@.len() - i,
    {
        if occurs_at(s, i, p) {
            return Some(i);
        }
        assert(s@.skip(i as int).drop_first() =~= s@.skip(i + 1));
        i = i + 1;
    }
    assert(s@.skip(i as int) =~= Seq::<char>::empty());
    if occurs_at(s, i, p) {
        Some(i)
    } else {
        None
    }
}

fn contains_in(s: &[char], lit: &str) -> (r: bool)
    ensures
        r == contains_text(s@, lit@),
{
    let p = chars_of(lit);
    find_in(s, p.as_slice()).is_some()
}

fn replace_in(s: &[char], from: &str, to: &str) -> (r: Vec<char>)
    ensures
        r@ == replace_text(s@, from@, to@),
{
    let f = chars_of(from);
    let t = chars_of(to);
    let mut r: Vec<char> = Vec::new();
    let mut i: usize = 0;
    assert(s@.skip(0) =~= s@);
    while i < s.len()
        invariant
            i <= s@.len(),
            f@ == from@,
            t@ == to@,
            replace_text(s@, from@, to@) == r@ + replace_text(s@.skip(i as int), from@, to@),
        decreases s@.len() - i,
    {
        let ghost rest = s@.skip(i as int);
        if f.len() > 0 && occurs_at(s, i, f.as_slice()) {
            assert(rest.skip(f@.len() as int) =~= s@.skip(i + f@.len()));
            let mut tt = t.clone();
            assert(r@ + (t@ + replace_text(rest.skip(f@.len() as int), from@, to@)) =~= (r@ + t@) + replace_text(s@.skip(i + f@.len()), from@, to@));
            r.append(&mut tt);
            i = i + f.len();
        } else {
            assert(rest.drop_first() =~= s@.skip(i + 1));
            assert(r@ + (seq![rest[0]] + replace_text(rest.drop_first(), from@, to@)) =~= r@.push(s@[i as int]) + replace_text(s@.skip(i + 1), from@, to@));
            r.push(s[i]);
            i = i + 1;
        }
    }
    assert(s@.skip(i as int) =~= Seq::<char>::empty());
    assert(r@ + Seq::<char>::empty() =~= r@);
    r
}

fn strip_leading_of(s: &[char], lit: &str) -> (r: Vec<char>)
    requires
        lit@.len() > 0,
    ensures
        r@ == strip_leading(s@, lit@),
{
    let p = chars_of(lit);
    let mut i: usize = 0;
    assert(s@.skip(0) =~= s@);
    while i <= s.len() && occurs_at(s, i, p.as_slice())
        invariant
            i <= s@.len(),
            p@ == lit@,
            p@.len() > 0,
            strip_leading(s@, lit@) == strip_leading(s@.skip(i as int), lit@),
        decreases s@.len() - i,
    {
        assert(s@.skip(i as int).skip(p@.len() as int) =~= s@.skip(i + p@.len()));
        i = i + p.len();
    }
    chars_from(s, i)
}

fn named_color(s: &[char]) -> (r: Option<Color>)
    ensures
        !contains_text(s@, "bright color"@) && !contains_text(s@, "color"@) && !contains_text(s@, "gray"@)
            && !contains_text(s@, "rgb"@) ==> r == color_of_words(s@),
{
    if crate::text::is_text(s, "bold black") {
        Some(Color::Indexed(8))
    } else if crate::text::is_text(s, "bold red") {
        Some(Color::Indexed(9))
    } else if crate::text::is_text(s, "bold green") {
        Some(Color::Indexed(10))
    } else if crate::text::is_text(s, "bold yellow") {
        Some(Color::Indexed(11))
    } else if crate::text::is_text(s, "bold blue") {
        Some(Color::Indexed(12))
    } else if crate::text::is_text(s, "bold magenta") {
        Some(Color::Indexed(13))
    } else if crate::text::is_text(s, "bold cyan") {
        Some(Color::Indexed(14))
    } else if crate::text::is_text(s, "bold white") {
        Some(Color::Indexed(15))
    } else if crate::text::is_text(s, "black") {
        Some(Color::Indexed(0))
    } else if crate::text::is_text(s, "red") {
        Some(Color::Indexed(1))
    } else if crate::text::is_text(s, "green") {
        Some(Color::Indexed(2))
    } else if crate::text::is_text(s, "yellow") {
        Some(Color::Indexed(3))
    } else if crate::text::is_text(s, "blue") {
        Some(Color::Indexed(4))
    } else if crate::text::is_text(s, "magenta") {
        Some(Color::Indexed(5))
    } else if crate::text::is_text(s, "cyan") {
        Some(Color::Indexed(6))
    } else if crate::text::is_text(s, "white") {
        Some(Color::Indexed(7))
    } else {
        None
    }
}

fn digit_or_zero_of(c: char) -> (d: u8)
    ensures
        d as nat == digit_or_zero(c),
        d <= 9,
{
    if '0' <= c && c <= '9' {
        ((c as u32) - 48) as u8
    } else {
        0
    }
}

/// The digit at byte offset `k` of `s` (see `digit_at_byte`).
fn digit_at_byte_of(s: &[char], k: usize) -> (d: u8)
    requires
        k <= 5,
    ensures
        d as nat == digit_at_byte(s@, k as nat),
        d <= 9,
{
    let mut i: usize = 0;
    let mut off: usize = 0;
    assert(s@.skip(0) =~= s@);
    while i < s.len() && off + utf8_width_of(s[i]) <= k
        invariant
            i <= s@.len(),
            off <= k,
            k <= 5,
            digit_at_byte(s@, k as nat) == digit_at_byte(s@.skip(i as int), (k - off) as nat),
        decreases s@.len() - i,
    {
        assert(s@.skip(i as int).drop_first() =~= s@.skip(i + 1));
        off = off + utf8_width_of(s[i]);
        i = i + 1;
    }
    if i == s.len() {
        0
    } else if off == k {
        digit_or_zero_of(s[i])
    } else {
        0
    }
}

/// Whether the UTF-8 encoding of `s` takes at least `n` bytes.
fn utf8_size_at_least(s: &[char], n: usize) -> (b: bool)
    requires
        n <= 8,
    ensures
        b == (utf8_size(s@) >= n),
{
    let mut i: usize = 0;
    let mut off: usize = 0;
    assert(s@.skip(0) =~= s@);
    while i < s.len() && off < n
        invariant
            i <= s@.len(),
            off < n + 4,
            n <= 8,
            utf8_size(s@) == off + utf8_size(s@.skip(i as int)),
        decreases s@.len() - i,
    {
        assert(s@.skip(i as int).drop_first() =~= s@.skip(i + 1));
        off = off + utf8_width_of(s[i]);
        i = i + 1;
    }
    if off >= n {
        true
    } else {
        assert(s@.skip(i as int) =~= Seq::<char>::empty());
        false
    }
}

/// Reads a color description such as `red`, `bold blue`, `color42`, `gray7` or `rgb123`.
pub fn parse_color(s: &str) -> (r: Option<Color>)
    requires
        color_readable(s@),
    ensures
        r == spec_parse_color(s@),
{
    let all = chars_of(s);
    let w = trim_white_chars(all.as_slice());
    proof {
        reveal_strlit("bright ");
        reveal_strlit("color");
        reveal_strlit("gray");
    }
    if contains_in(w.as_slice(), "bright color") {
        let rest = strip_leading_of(w.as_slice(), "bright ");
        let digits = strip_leading_of(rest.as_slice(), "color");
        let c = u8_or_zero_of(digits.as_slice());
        let shifted = c.wrapping_shl(8);
        assert(c << (8u32 % 8) == c) by (bit_vector);
        Some(Color::Indexed(shifted))
    } else if contains_in(w.as_slice(), "color") {
        let digits = strip_leading_of(w.as_slice(), "color");
        Some(Color::Indexed(u8_or_zero_of(digits.as_slice())))
    } else if contains_in(w.as_slice(), "gray") {
        let digits = strip_leading_of(w.as_slice(), "gray");
        let level = u8_or_zero_of(digits.as_slice());
        Some(Color::Indexed(232 + level))
    } else if contains_in(w.as_slice(), "rgb") {
        let red = digit_at_byte_of(w.as_slice(), 3);
        let green = digit_at_byte_of(w.as_slice(), 4);
        let blue = digit_at_byte_of(w.as_slice(), 5);
        Some(Color::Indexed(16 + red * 36 + green * 6 + blue))
    } else {
        named_color(w.as_slice())
    }
}

/// Takes the modifier words (`bold`, `underline`, `inverse`, `bright`) out of a color
/// description, spelling `grey` as `gray`, and collects the modifiers named.
pub fn process_color_string(color_str: &str) -> (r: (String, Modifier))
    ensures
        (r.0@, r.1) == spec_process_color_string(color_str@),
{
    let s = chars_of(color_str);
    proof {
        reveal_strlit("");
        assert(""@ =~= Seq::<char>::empty());
    }
    let c1 = replace_in(s.as_slice(), "grey", "gray");
    let c2 = replace_in(c1.as_slice(), "bright ", "");
    let c3 = replace_in(c2.as_slice(), "bold ", "");
    let c4 = replace_in(c3.as_slice(), "underline ", "");
    let c5 = replace_in(c4.as_slice(), "inverse ", "");
    let mut modifiers = Modifier::empty();
    if contains_in(s.as_slice(), "underline") {
        modifiers.underlined = true;
    }
    if contains_in(s.as_slice(), "bold") {
        modifiers.bold = true;
    }
    if contains_in(s.as_slice(), "inverse") {
        modifiers.reversed = true;
    }
    (string_of(c5.as_slice()), modifiers)
}

/// An index shifted by `by`, if there is one.
pub open spec fn shifted(o: Option<nat>, by: nat) -> Option<nat> {
    match o {
        Some(j) => Some(j + by),
        None => None,
    }
}

/// The index of the character of `b` that starts where the first `i` characters of `a` end,
/// counted in bytes (see `char_at_byte`). Walks both texts once, keeping the number of bytes
/// by which `a` is ahead, which stays below eight.
fn byte_boundary(a: &[char], i: usize, b: &[char]) -> (r: Option<usize>)
    requires
        i <= a@.len(),
    ensures
        match r {
            Some(j) => char_at_byte(b@, utf8_size(a@.take(i as int))) == Some(j as nat),
            None => char_at_byte(b@, utf8_size(a@.take(i as int))) is None,
        },
{
    let ghost target = char_at_byte(b@, utf8_size(a@.take(i as int)));
    let mut x: usize = 0;
    let mut y: usize = 0;
    let mut ahead: usize = 0;
    assert(a@.subrange(0, i as int) =~= a@.take(i as int));
    assert(b@.skip(0) =~= b@);
    while x < i
        invariant
            x <= i <= a@.len(),
            y <= b@.len(),
            target == char_at_byte(b@, utf8_size(a@.take(i as int))),
            ahead < 4,
            ahead > 0 ==> y < b@.len() && ahead < utf8_width(b@[y as int]),
            target == shifted(char_at_byte(b@.skip(y as int), (utf8_size(a@.subrange(x as int, i as int)) + ahead) as nat), y as nat),
        decreases i - x,
    {
        assert(a@.subrange(x as int, i as int).drop_first() =~= a@.subrange(x + 1, i as int));
        ahead = ahead + utf8_width_of(a[x]);
        x = x + 1;
        while y < b.len() && utf8_width_of(b[y]) <= ahead
            invariant
                x <= i <= a@.len(),
                y <= b@.len(),
                target == char_at_byte(b@, utf8_size(a@.take(i as int))),
                ahead < 8,
                target == shifted(char_at_byte(b@.skip(y as int), (utf8_size(a@.subrange(x as int, i as int)) + ahead) as nat), y as nat),
            decreases b@.len() - y,
        {
            assert(b@.skip(y as int).drop_first() =~= b@.skip(y + 1));
            ahead = ahead - utf8_width_of(b[y]);
            y = y + 1;
        }
        if y == b.len() && ahead > 0 {
            let ghost k = (utf8_size(a@.subrange(x as int, i as int)) + ahead) as nat;
            assert(b@.skip(y as int) =~= Seq::<char>::empty());
            assert(char_at_byte(b@.skip(y as int), k) is None);
            return None;
        }
    }
    assert(a@.subrange(i as int, i as int) =~= Seq::<char>::empty());
    if ahead == 0 {
        Some(y)
    } else {
        None
    }
}

proof fn lemma_char_at_byte_bound(s: Seq<char>, b: nat)
    ensures
        char_at_byte(s, b) matches Some(j) ==> j <= s.len(),
    decreases s.len(),
{
    if b != 0 && s.len() > 0 && b >= utf8_width(s[0]) {
        lemma_char_at_byte_bound(s.drop_first(), (b - utf8_width(s[0])) as nat);
    }
}

/// Where a style description splits (see `style_split`); `chars` are its characters.
fn style_split_of(line: &str, chars: &[char]) -> (r: Option<usize>)
    requires
        chars@ == line@,
    ensures
        match r {
            Some(j) => style_split(line@) == Some(j as nat) && j <= chars@.len(),
            None => style_split(line@) is None,
        },
{
    let lower_text = to_lowercase_text(line);
    let lower = chars_of(lower_text.as_str());
    let on = chars_of("on ");
    let r = match find_in(lower.as_slice(), on.as_slice()) {
        Some(i) => {
            proof {
                lemma_find_bound(lower@, on@);
            }
            byte_boundary(lower.as_slice(), i, chars)
        },
        None => {
            assert(chars@.take(chars@.len() as int) =~= chars@);
            byte_boundary(chars, chars.len(), chars)
        },
    };
    proof {
        lemma_char_at_byte_bound(line@, style_split_byte(line@));
    }
    r
}

/// Whether a color description can be read without failing (see `color_readable`).
pub fn is_color_readable(s: &str) -> (b: bool)
    ensures
        b == color_readable(s@),
{
    let all = chars_of(s);
    let w = trim_white_chars(all.as_slice());
    proof {
        reveal_strlit("gray");
    }
    if contains_in(w.as_slice(), "bright color") || contains_in(w.as_slice(), "color") {
        true
    } else if contains_in(w.as_slice(), "gray") {
        let digits = strip_leading_of(w.as_slice(), "gray");
        let level = u8_or_zero_of(digits.as_slice());
        level <= 23
    } else if contains_in(w.as_slice(), "rgb") {
        if utf8_size_at_least(w.as_slice(), 6) {
            let red = digit_at_byte_of(w.as_slice(), 3);
            let green = digit_at_byte_of(w.as_slice(), 4);
            let blue = digit_at_byte_of(w.as_slice(), 5);
            16 + (red as u32) * 36 + (green as u32) * 6 + (blue as u32) <= 255
        } else {
            false
        }
    } else {
        true
    }
}

/// Whether a style description can be read without failing (see `style_readable`).
pub fn is_style_readable(line: &str) -> (b: bool)
    ensures
        b == style_readable(line@),
{
    let chars = chars_of(line);
    let split = match style_split_of(line, chars.as_slice()) {
        Some(j) => j,
        None => {
            return false;
        },
    };
    let fg_chars = take_chars(chars.as_slice(), split);
    let bg_chars = chars_from(chars.as_slice(), split);
    let bg_plain = replace_in(bg_chars.as_slice(), "on ", "");
    proof {
        reveal_strlit("");
        assert(""@ =~= Seq::<char>::empty());
    }
    let foreground = process_color_string(string_of(fg_chars.as_slice()).as_str());
    let background = process_color_string(string_of(bg_plain.as_slice()).as_str());
    is_color_readable(foreground.0.as_str()) && is_color_readable(background.0.as_str())
}

/// Reads a style description such as `underline red on blue`: the words before the first
/// `on ` give the foreground, the words after it the background.
pub fn parse_style(line: &str) -> (style: Style)
    requires
        style_readable(line@),
    ensures
        style == spec_parse_style(line@),
{
    let chars = chars_of(line);
    let split = match style_split_of(line, chars.as_slice()) {
        Some(j) => j,
        None => chars.len(),
    };
    let fg_chars = take_chars(chars.as_slice(), split);
    let bg_chars = chars_from(chars.as_slice(), split);
    let bg_plain = replace_in(bg_chars.as_slice(), "on ", "");
    proof {
        reveal_strlit("");
        assert(""@ =~= Seq::<char>::empty());
    }
    let foreground = process_color_string(string_of(fg_chars.as_slice()).as_str());
    let background = process_color_string(string_of(bg_plain.as_slice()).as_str());
    let mut style = Style::default();
    if let Some(fg) = parse_color(foreground.0.as_str()) {
        style.fg = Some(fg);
    }
    if let Some(bg) = parse_color(background.0.as_str()) {
        style.bg = Some(bg);
    }
    style.add_modifier = Modifier {
        bold: foreground.1.bold || background.1.bold,
        underlined: foreground.1.underlined || background.1.underlined,
        reversed: foreground.1.reversed || background.1.reversed,
    };
    style
}

proof fn lemma_find_bound(s: Seq<char>, p: Seq<char>)
    ensures
        find_text(s, p) matches Some(i) ==> i + p.len() <= s.len(),
    decreases s.len(),
{
    if !has_prefix(s, p) && s.len() > 0 {
        lemma_find_bound(s.drop_first(), p);
    }
}

} // verus!
