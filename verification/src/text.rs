//! Character and string helpers shared by the theme and rendering modules.
use vstd::prelude::*;
use vstd::utf8::*;

verus! {

/// ASCII lowercase mapping of a single character (`char::to_ascii_lowercase`).
pub open spec fn ascii_lower(c: char) -> char {
    if 'A' <= c && c <= 'Z' {
        ((c as u32) + 32) as char
    } else {
        c
    }
}

/// Lowercases every ASCII letter of a character sequence.
pub open spec fn ascii_lower_seq(s: Seq<char>) -> Seq<char> {
    s.map_values(|c: char| ascii_lower(c))
}

/// Whether a character carries the Unicode `White_Space` property: the ASCII
/// space, tab, line feed, vertical tab, form feed and carriage return, plus
/// U+0085, U+00A0, U+1680, U+2000..=U+200A, U+2028, U+2029, U+202F, U+205F
/// and U+3000.
pub open spec fn unicode_white_space(c: char) -> bool {
    ||| c == ' '
    ||| ('\t' <= c && c <= '\r')
    ||| c == '\u{85}'
    ||| c == '\u{a0}'
    ||| c == '\u{1680}'
    ||| ('\u{2000}' <= c && c <= '\u{200a}')
    ||| c == '\u{2028}'
    ||| c == '\u{2029}'
    ||| c == '\u{202f}'
    ||| c == '\u{205f}'
    ||| c == '\u{3000}'
}

/// Drops leading whitespace (`str::trim_start`).
pub open spec fn trim_start(s: Seq<char>) -> Seq<char>
    decreases s.len(),
{
    if s.len() > 0 && unicode_white_space(s[0]) {
        trim_start(s.drop_first())
    } else {
        s
    }
}

/// Drops trailing whitespace (`str::trim_end`).
pub open spec fn trim_end(s: Seq<char>) -> Seq<char>
    decreases s.len(),
{
    if s.len() > 0 && unicode_white_space(s.last()) {
        trim_end(s.drop_last())
    } else {
        s
    }
}

/// Drops leading and trailing whitespace (`str::trim`).
pub open spec fn trimmed(s: Seq<char>) -> Seq<char> {
    trim_end(trim_start(s))
}

/// The decimal digit character for `d < 10`.
pub open spec fn digit_char(d: nat) -> char {
    (48 + d) as char
}

/// The lowercase hexadecimal digit character for `d < 16`.
pub open spec fn hex_digit_char(d: nat) -> char {
    if d < 10 {
        (48 + d) as char
    } else {
        (87 + d) as char
    }
}

/// Decimal rendering of a natural number, without leading zeros.
pub open spec fn decimal(n: nat) -> Seq<char>
    decreases n,
{
    if n < 10 {
        seq![digit_char(n)]
    } else {
        decimal(n / 10).push(digit_char(n % 10))
    }
}

/// Two-digit lowercase hexadecimal rendering of a byte (`{:02x}`).
pub open spec fn hex2(b: u8) -> Seq<char> {
    seq![hex_digit_char((b / 16) as nat), hex_digit_char((b % 16) as nat)]
}

/// Whether a character has the Unicode `White_Space` property, as
/// `char::is_whitespace` tests it.
pub(crate) fn char_is_whitespace(c: char) -> (r: bool)
    ensures
        r == unicode_white_space(c),
{
    c == ' ' || ('\t' <= c && c <= '\r') || c == '\u{85}' || c == '\u{a0}' || c == '\u{1680}' || ('\u{2000}' <= c
        && c <= '\u{200a}') || c == '\u{2028}' || c == '\u{2029}' || c == '\u{202f}' || c == '\u{205f}' || c
        == '\u{3000}'
}

/// What `String::from_utf8_lossy` yields for a byte sequence.
pub uninterp spec fn lossy_utf8(bytes: Seq<u8>) -> Seq<char>;

/// Decodes bytes as UTF-8, replacing invalid sequences (`String::from_utf8_lossy`).
///
/// The standard library documents that valid UTF-8 input is returned unchanged;
/// what replacement characters stand for invalid input is only tied to the name
/// `lossy_utf8`.
#[verifier::external_body]
pub(crate) fn bytes_to_text(bytes: &[u8]) -> (s: String)
    ensures
        s@ == lossy_utf8(bytes@),
        valid_utf8(bytes@) ==> s@ == decode_utf8(bytes@),
{
    String::from_utf8_lossy(bytes).into_owned()
}

/// Appends one character to a string (`String::push`).
#[verifier::external_body]
pub(crate) fn push_char(s: &mut String, c: char)
    ensures
        final(s)@ == old(s)@.push(c),
{
    s.push(c);
}

/// Appends a string slice to a string.
pub fn push_str(s: &mut String, t: &str)
    ensures
        final(s)@ == old(s)@ + t@,
{
    s.append(t);
}

/// Converts an ASCII code point to a character.
pub fn char_from_ascii(v: u32) -> (c: char)
    requires
        v < 128,
    ensures
        c == v as char,
{
    (v as u8) as char
}

/// Lowercases the ASCII letters of one character (`char::to_ascii_lowercase`).
pub fn to_ascii_lower(c: char) -> (r: char)
    ensures
        r == ascii_lower(c),
{
    if 'A' <= c && c <= 'Z' {
        let v: u32 = (c as u32) + 32;
        char_from_ascii(v)
    } else {
        c
    }
}

/// Collects the characters of a string slice.
pub fn chars_of(s: &str) -> (v: Vec<char>)
    ensures
        v@ == s@,
{
    let mut v: Vec<char> = Vec::new();
    for c in it: s.chars()
        invariant
            v@ == it.seq().take(it.index() as int),
    {
        v.push(c);
    }
    assert(v@ == s@);
    v
}

/// Builds a string from the characters `v[lo..hi]`, lowercasing ASCII letters
/// when `lower` is set.
pub fn string_from_chars(v: &Vec<char>, lo: usize, hi: usize, lower: bool) -> (s: String)
    requires
        lo <= hi <= v@.len(),
    ensures
        lower ==> s@ == ascii_lower_seq(v@.subrange(lo as int, hi as int)),
        !lower ==> s@ == v@.subrange(lo as int, hi as int),
{
    let mut s = String::new();
    let mut i = lo;
    while i < hi
        invariant
            lo <= i <= hi <= v@.len(),
            lower ==> s@ == ascii_lower_seq(v@.subrange(lo as int, i as int)),
            !lower ==> s@ == v@.subrange(lo as int, i as int),
        decreases hi - i,
    {
        let c = if lower {
            to_ascii_lower(v[i])
        } else {
            v[i]
        };
        push_char(&mut s, c);
        proof {
            assert(v@.subrange(lo as int, i + 1) == v@.subrange(lo as int, i as int).push(v@[i as int]));
        }
        i += 1;
    }
    s
}

/// Index of the first character of `v` that is not whitespace (or `v.len()`).
pub fn trim_start_index(v: &Vec<char>) -> (i: usize)
    ensures
        i <= v@.len(),
        trim_start(v@) == v@.subrange(i as int, v@.len() as int),
{
    let mut i: usize = 0;
    assert(v@.subrange(0, v@.len() as int) == v@);
    while i < v.len() && char_is_whitespace(v[i])
        invariant
            i <= v@.len(),
            trim_start(v@) == trim_start(v@.subrange(i as int, v@.len() as int)),
        decreases v@.len() - i,
    {
        proof {
            let sub = v@.subrange(i as int, v@.len() as int);
            assert(sub.drop_first() == v@.subrange(i + 1, v@.len() as int));
        }
        i += 1;
    }
    i
}

/// One past the index of the last character of `v[lo..]` that is not whitespace.
pub fn trim_end_index(v: &Vec<char>, lo: usize) -> (j: usize)
    requires
        lo <= v@.len(),
    ensures
        lo <= j <= v@.len(),
        trim_end(v@.subrange(lo as int, v@.len() as int)) == v@.subrange(lo as int, j as int),
{
    let mut j: usize = v.len();
    while j > lo && char_is_whitespace(v[j - 1])
        invariant
            lo <= j <= v@.len(),
            trim_end(v@.subrange(lo as int, v@.len() as int)) == trim_end(
                v@.subrange(lo as int, j as int),
            ),
        decreases j,
    {
        proof {
            let sub = v@.subrange(lo as int, j as int);
            assert(sub.drop_last() == v@.subrange(lo as int, j - 1));
        }
        j -= 1;
    }
    j
}

/// Appends the decimal rendering of `n` (`{}` formatting of an unsigned integer).
pub fn push_decimal(out: &mut String, n: u64)
    ensures
        final(out)@ == old(out)@ + decimal(n as nat),
    decreases n,
{
    if n >= 10 {
        push_decimal(out, n / 10);
    }
    let d: u64 = n % 10;
    let c = char_from_ascii((48 + d) as u32);
    push_char(out, c);
    proof {
        if n < 10 {
            assert(decimal(n as nat) == seq![digit_char(n as nat)]);
        }
    }
}

/// The lowercase hexadecimal digit for `d < 16`.
pub fn hex_digit(d: u8) -> (c: char)
    requires
        d < 16,
    ensures
        c == hex_digit_char(d as nat),
{
    if d < 10 {
        char_from_ascii((48 + d) as u32)
    } else {
        char_from_ascii((87 + d) as u32)
    }
}

/// Appends the two-digit lowercase hexadecimal rendering of a byte (`{:02x}`).
pub fn push_hex2(out: &mut String, b: u8)
    ensures
        final(out)@ == old(out)@ + hex2(b),
{
    push_char(out, hex_digit(b / 16));
    push_char(out, hex_digit(b % 16));
}

/// Whether a string holds exactly the characters of a string slice.
pub fn text_eq(s: &String, t: &str) -> (r: bool)
    ensures
        r == (s@ == t@),
{
    let other = String::from_str(t);
    *s == other
}

/// Whether two string slices hold the same characters.
pub fn str_eq(a: &str, b: &str) -> (r: bool)
    ensures
        r == (a@ == b@),
{
    let x = String::from_str(a);
    text_eq(&x, b)
}

} // verus!
