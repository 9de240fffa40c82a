use vstd::prelude::*;
use vstd::string::*;

verus! {

/// Appends one character to a string (`String::push`).
#[verifier::external_body]
pub(crate) fn push_char(s: &mut String, c: char)
    ensures
        final(s)@ == old(s)@.push(c),
{
    s.push(c);
}

/// The characters of a string slice, in order.
pub fn chars_of(s: &str) -> (v: Vec<char>)
    ensures
        v@ == s@,
{
    let n = s.unicode_len();
    let mut v: Vec<char> = Vec::new();
    let mut i: usize = 0;
    while i < n
        invariant
            n == s@.len(),
            i <= n,
            v@ == s@.take(i as int),
        decreases n - i,
    {
        v.push(s.get_char(i));
        i = i + 1;
    }
    assert(s@.take(n as int) =~= s@);
    v
}

/// A string holding exactly the given characters.
pub fn string_of(v: &[char]) -> (s: String)
    ensures
        s@ == v@,
{
    let mut s = String::new();
    let mut i: usize = 0;
    while i < v.len()
        invariant
            i <= v@.len(),
            s@ == v@.take(i as int),
        decreases v@.len() - i,
    {
        push_char(&mut s, v[i]);
        i = i + 1;
    }
    assert(v@.take(v@.len() as int) =~= v@);
    s
}

/// ASCII upper-casing of a single character; every other character is kept.
pub open spec fn ascii_upper(c: char) -> char {
    if 'a' <= c && c <= 'z' {
        ((c as u32) - 32) as char
    } else {
        c
    }
}

/// ASCII lower-casing of a single character; every other character is kept.
pub open spec fn ascii_lower(c: char) -> char {
    if 'A' <= c && c <= 'Z' {
        ((c as u32) + 32) as char
    } else {
        c
    }
}

pub fn to_ascii_upper(c: char) -> (r: char)
    ensures
        r == ascii_upper(c),
{
    if 'a' <= c && c <= 'z' {
        ((c as u8) - 32) as char
    } else {
        c
    }
}

} // verus!

verus! {

/// `p` is a prefix of `s`.
pub open spec fn has_prefix(s: Seq<char>, p: Seq<char>) -> bool {
    p.len() <= s.len() && s.take(p.len() as int) == p
}

/// `s` with every ASCII upper-case letter lowered (`str::to_ascii_lowercase`).
pub open spec fn lower_ascii(s: Seq<char>) -> Seq<char> {
    s.map_values(|c: char| ascii_lower(c))
}

/// An `Err` carrying a `String` seen as its characters.
pub open spec fn result_view<T>(r: Result<T, String>) -> Result<T, Seq<char>> {
    match r {
        Ok(t) => Ok(t),
        Err(e) => Err(e@),
    }
}

/// Whether two character sequences are equal.
pub fn chars_equal(a: &[char], b: &[char]) -> (r: bool)
    ensures
        r == (a@ == b@),
{
    if a.len() != b.len() {
        return false;
    }
    let mut i: usize = 0;
    while i < a.len()
        invariant
            a@.len() == b@.len(),
            i <= a@.len(),
            forall|j: int| 0 <= j < i ==> a@[j] == b@[j],
        decreases a@.len() - i,
    {
        if a[i] != b[i] {
            return false;
        }
        i = i + 1;
    }
    assert(a@ =~= b@);
    true
}

/// Whether the characters equal those of the string slice `lit`.
pub fn is_text(a: &[char], lit: &str) -> (r: bool)
    ensures
        r == (a@ == lit@),
{
    let l = chars_of(lit);
    chars_equal(a, l.as_slice())
}

/// Whether `p` occurs in `a` starting at position `start`.
pub fn occurs_at(a: &[char], start: usize, p: &[char]) -> (r: bool)
    requires
        start <= a@.len(),
    ensures
        r == has_prefix(a@.skip(start as int), p@),
{
    if p.len() > a.len() - start {
        return false;
    }
    let mut i: usize = 0;
    while i < p.len()
        invariant
            start <= a@.len(),
            a@.len() == a.len(),
            p@.len() <= a@.len() - start,
            i <= p@.len(),
            forall|j: int| 0 <= j < i ==> a@[start + j] == p@[j],
        decreases p@.len() - i,
    {
        if a[start + i] != p[i] {
            assert(a@.skip(start as int).take(p@.len() as int)[i as int] != p@[i as int]);
            return false;
        }
        i = i + 1;
    }
    assert(a@.skip(start as int).take(p@.len() as int) =~= p@);
    true
}

/// The characters with every ASCII upper-case letter lowered.
pub fn to_ascii_lower_chars(a: &[char]) -> (r: Vec<char>)
    ensures
        r@ == lower_ascii(a@),
{
    let mut r: Vec<char> = Vec::new();
    let mut i: usize = 0;
    while i < a.len()
        invariant
            i <= a@.len(),
            r@ == lower_ascii(a@.take(i as int)),
        decreases a@.len() - i,
    {
        let c = a[i];
        let l = if 'A' <= c && c <= 'Z' {
            ((c as u8) + 32) as char
        } else {
            c
        };
        r.push(l);
        assert(a@.take(i + 1) =~= a@.take(i as int).push(c));
        assert(lower_ascii(a@.take(i + 1)) =~= lower_ascii(a@.take(i as int)).push(l));
        i = i + 1;
    }
    assert(a@.take(a@.len() as int) =~= a@);
    r
}

/// The characters of `a` from position `start` on.
pub fn chars_from(a: &[char], start: usize) -> (r: Vec<char>)
    requires
        start <= a@.len(),
    ensures
        r@ == a@.skip(start as int),
{
    let mut r: Vec<char> = Vec::new();
    let mut i: usize = start;
    while i < a.len()
        invariant
            start <= i <= a@.len(),
            r@ == a@.subrange(start as int, i as int),
        decreases a@.len() - i,
    {
        r.push(a[i]);
        assert(a@.subrange(start as int, i + 1) =~= a@.subrange(start as int, i as int).push(a@[i as int]));
        i = i + 1;
    }
    assert(a@.subrange(start as int, a@.len() as int) =~= a@.skip(start as int));
    r
}

/// The concatenation of two character sequences as a string.
pub fn concat_string(a: &[char], b: &[char]) -> (s: String)
    ensures
        s@ == a@ + b@,
{
    let mut s = string_of(a);
    let mut i: usize = 0;
    while i < b.len()
        invariant
            i <= b@.len(),
            s@ == a@ + b@.take(i as int),
        decreases b@.len() - i,
    {
        push_char(&mut s, b[i]);
        assert(b@.take(i + 1) =~= b@.take(i as int).push(b@[i as int]));
        assert(a@ + b@.take(i + 1) =~= (a@ + b@.take(i as int)).push(b@[i as int]));
        i = i + 1;
    }
    assert(b@.take(b@.len() as int) =~= b@);
    s
}

/// The concatenation of two strings.
pub fn concat(a: &str, b: &str) -> (s: String)
    ensures
        s@ == a@ + b@,
{
    let va = chars_of(a);
    let vb = chars_of(b);
    concat_string(va.as_slice(), vb.as_slice())
}

/// The first `n` characters of `a`.
pub fn take_chars(a: &[char], n: usize) -> (r: Vec<char>)
    requires
        n <= a@.len(),
    ensures
        r@ == a@.take(n as int),
{
    let mut r: Vec<char> = Vec::new();
    let mut i: usize = 0;
    while i < n
        invariant
            n <= a@.len(),
            i <= n,
            r@ == a@.take(i as int),
        decreases n - i,
    {
        r.push(a[i]);
        assert(a@.take(i + 1) =~= a@.take(i as int).push(a@[i as int]));
        i = i + 1;
    }
    r
}


/// A character of Unicode's White_Space property, which `str::trim` and its kin strip:
/// U+0009 to U+000D, U+0020, U+0085, U+00A0, U+1680, U+2000 to U+200A, U+2028, U+2029,
/// U+202F, U+205F and U+3000.
pub open spec fn is_white_space(c: char) -> bool {
    ||| ('\u{9}' <= c && c <= '\u{d}')
    ||| c == ' '
    ||| c == '\u{85}'
    ||| c == '\u{a0}'
    ||| c == '\u{1680}'
    ||| ('\u{2000}' <= c && c <= '\u{200a}')
    ||| c == '\u{2028}'
    ||| c == '\u{2029}'
    ||| c == '\u{202f}'
    ||| c == '\u{205f}'
    ||| c == '\u{3000}'
}

/// `s` without leading white space (`str::trim_start`).
pub open spec fn trim_start_white(s: Seq<char>) -> Seq<char>
    decreases s.len(),
{
    if s.len() > 0 && is_white_space(s[0]) {
        trim_start_white(s.drop_first())
    } else {
        s
    }
}

/// `s` without trailing white space (`str::trim_end`).
pub open spec fn trim_end_white(s: Seq<char>) -> Seq<char>
    decreases s.len(),
{
    if s.len() > 0 && is_white_space(s.last()) {
        trim_end_white(s.drop_last())
    } else {
        s
    }
}

/// `s` without leading and trailing white space (`str::trim`).
pub open spec fn trim_white(s: Seq<char>) -> Seq<char> {
    trim_end_white(trim_start_white(s))
}

/// Whether a character is white space.
pub fn is_white_space_char(c: char) -> (b: bool)
    ensures
        b == is_white_space(c),
{
    ('\u{9}' <= c && c <= '\u{d}') || c == ' ' || c == '\u{85}' || c == '\u{a0}' || c == '\u{1680}'
        || ('\u{2000}' <= c && c <= '\u{200a}') || c == '\u{2028}' || c == '\u{2029}' || c
        == '\u{202f}' || c == '\u{205f}' || c == '\u{3000}'
}

/// The characters of `s` without leading and trailing white space.
pub fn trim_white_chars(s: &[char]) -> (r: Vec<char>)
    ensures
        r@ == trim_white(s@),
{
    let mut start: usize = 0;
    assert(s@.skip(0) =~= s@);
    while start < s.len() && is_white_space_char(s[start])
        invariant
            start <= s@.len(),
            trim_start_white(s@) == trim_start_white(s@.skip(start as int)),
        decreases s@.len() - start,
    {
        assert(s@.skip(start as int).drop_first() =~= s@.skip(start + 1));
        start = start + 1;
    }
    let mut r = chars_from(s, start);
    while r.len() > 0 && is_white_space_char(r[r.len() - 1])
        invariant
            trim_white(s@) == trim_end_white(r@),
        decreases r@.len(),
    {
        r.pop();
    }
    r
}

/// The number of bytes that UTF-8 takes for a character.
pub open spec fn utf8_width(c: char) -> nat {
    if (c as u32) < 0x80 {
        1
    } else if (c as u32) < 0x800 {
        2
    } else if (c as u32) < 0x10000 {
        3
    } else {
        4
    }
}

/// The number of bytes of the UTF-8 encoding of `s` (`str::len`).
pub open spec fn utf8_size(s: Seq<char>) -> nat
    decreases s.len(),
{
    if s.len() == 0 {
        0
    } else {
        utf8_width(s[0]) + utf8_size(s.drop_first())
    }
}

/// The number of bytes that UTF-8 takes for a character.
pub fn utf8_width_of(c: char) -> (w: usize)
    ensures
        w == utf8_width(c),
        1 <= w <= 4,
{
    let n = c as u32;
    if n < 0x80 {
        1
    } else if n < 0x800 {
        2
    } else if n < 0x10000 {
        3
    } else {
        4
    }
}

} // verus!
