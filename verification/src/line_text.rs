//! Decoding one line of editor text, in UTF-8 or UTF-16, without its line end.
use crate::text::{bytes_to_text, lossy_utf8};
use crate::tsbundler::TsbundlerEncoding;
use vstd::prelude::*;

verus! {

/// The characters of UTF-16 code units, each unpaired surrogate replaced by
/// `U+FFFD`: a high surrogate followed by a low one makes one character, any
/// other surrogate is unpaired, and every other unit is its own character.
pub open spec fn lossy_utf16(units: Seq<u16>) -> Seq<char>
    decreases units.len(),
{
    if units.len() == 0 {
        seq![]
    } else {
        let u = units[0];
        if 0xD800 <= u < 0xDC00 && units.len() >= 2 && 0xDC00 <= units[1] < 0xE000 {
            seq![(0x10000 + (u - 0xD800) * 0x400 + (units[1] - 0xDC00)) as char] + lossy_utf16(
                units.subrange(2, units.len() as int),
            )
        } else if 0xD800 <= u < 0xE000 {
            seq!['\u{FFFD}'] + lossy_utf16(units.drop_first())
        } else {
            seq![u as char] + lossy_utf16(units.drop_first())
        }
    }
}

/// Decodes UTF-16 code units, replacing unpaired surrogates
/// (`String::from_utf16_lossy`).
///
/// The standard library documents that the code units are decoded as UTF-16
/// (`char::decode_utf16`) with each unpaired surrogate replaced by
/// `U+FFFD`, as `lossy_utf16` states.
#[verifier::external_body]
fn units_to_text(units: &[u16]) -> (s: String)
    ensures
        s@ == lossy_utf16(units@),
{
    String::from_utf16_lossy(units)
}

/// The length of a byte sequence without its trailing `\n` and `\r` bytes.
pub open spec fn kept_bytes(s: Seq<u8>) -> int
    decreases s.len(),
{
    if s.len() == 0 {
        0
    } else if s.last() == 10u8 || s.last() == 13u8 {
        kept_bytes(s.drop_last())
    } else {
        s.len() as int
    }
}

/// The length of a code-unit sequence without its trailing `\n` and `\r` units.
pub open spec fn kept_units(s: Seq<u16>) -> int
    decreases s.len(),
{
    if s.len() == 0 {
        0
    } else if s.last() == 10u16 || s.last() == 13u16 {
        kept_units(s.drop_last())
    } else {
        s.len() as int
    }
}

/// The UTF-16 code units of a byte sequence, two bytes each (a trailing odd
/// byte is dropped), little-endian or big-endian.
pub open spec fn utf16_units(raw: Seq<u8>, little_endian: bool) -> Seq<u16> {
    Seq::new(
        (raw.len() / 2) as nat,
        |i: int|
            if little_endian {
                (raw[2 * i] + 256 * raw[2 * i + 1]) as u16
            } else {
                (256 * raw[2 * i] + raw[2 * i + 1]) as u16
            },
    )
}

/// The text of one line of raw editor bytes, without its line end.
pub open spec fn line_text(raw: Seq<u8>, encoding: TsbundlerEncoding) -> Seq<char> {
    match encoding {
        TsbundlerEncoding::Utf8 => lossy_utf8(raw.take(kept_bytes(raw))),
        TsbundlerEncoding::Utf16Le => {
            let u = utf16_units(raw, true);
            lossy_utf16(u.take(kept_units(u)))
        },
        TsbundlerEncoding::Utf16Be => {
            let u = utf16_units(raw, false);
            lossy_utf16(u.take(kept_units(u)))
        },
    }
}

proof fn lemma_kept_bytes(s: Seq<u8>, k: int)
    requires
        0 <= k <= s.len(),
        forall|i: int| k <= i < s.len() ==> s[i] == 10u8 || s[i] == 13u8,
    ensures
        kept_bytes(s) == kept_bytes(s.take(k)),
    decreases s.len() - k,
{
    if k < s.len() {
        assert(s.drop_last().take(k) == s.take(k));
        lemma_kept_bytes(s.drop_last(), k);
    } else {
        assert(s.take(k) == s);
    }
}

proof fn lemma_kept_units(s: Seq<u16>, k: int)
    requires
        0 <= k <= s.len(),
        forall|i: int| k <= i < s.len() ==> s[i] == 10u16 || s[i] == 13u16,
    ensures
        kept_units(s) == kept_units(s.take(k)),
    decreases s.len() - k,
{
    if k < s.len() {
        assert(s.drop_last().take(k) == s.take(k));
        lemma_kept_units(s.drop_last(), k);
    } else {
        assert(s.take(k) == s);
    }
}

fn kept_bytes_len(raw: &[u8]) -> (n: usize)
    ensures
        n == kept_bytes(raw@),
        n <= raw@.len(),
{
    let mut k: usize = raw.len();
    while k > 0 && (raw[k - 1] == 10 || raw[k - 1] == 13)
        invariant
            k <= raw@.len(),
            forall|i: int| k <= i < raw@.len() ==> raw@[i] == 10u8 || raw@[i] == 13u8,
        decreases k,
    {
        k = k - 1;
    }
    proof {
        lemma_kept_bytes(raw@, k as int);
    }
    k
}

fn kept_units_len(units: &Vec<u16>) -> (n: usize)
    ensures
        n == kept_units(units@),
        n <= units@.len(),
{
    let mut k: usize = units.len();
    while k > 0 && (units[k - 1] == 10 || units[k - 1] == 13)
        invariant
            k <= units@.len(),
            forall|i: int| k <= i < units@.len() ==> units@[i] == 10u16 || units@[i] == 13u16,
        decreases k,
    {
        k = k - 1;
    }
    proof {
        lemma_kept_units(units@, k as int);
    }
    k
}

fn code_units(raw: &[u8], little_endian: bool) -> (u: Vec<u16>)
    ensures
        u@ == utf16_units(raw@, little_endian),
{
    let len = raw.len();
    let n = len / 2;
    let mut u: Vec<u16> = Vec::new();
    let mut i: usize = 0;
    while i < n
        invariant
            i <= n == raw@.len() / 2,
            len == raw@.len(),
            u@.len() == i,
            forall|j: int| 0 <= j < i ==> u@[j] == utf16_units(raw@, little_endian)[j],
        decreases n - i,
    {
        assert(2 * i + 1 < len) by (nonlinear_arith)
            requires
                i < n,
                n == len / 2,
        ;
        let lo = raw[2 * i];
        let hi = raw[2 * i + 1];
        let unit: u16 = if little_endian {
            (lo as u16) + 256 * (hi as u16)
        } else {
            256 * (lo as u16) + (hi as u16)
        };
        u.push(unit);
        i = i + 1;
    }
    assert(u@ == utf16_units(raw@, little_endian));
    u
}

/// Decodes one line of raw editor bytes and drops its trailing `\n` and `\r`
/// characters; invalid sequences become replacement characters.
pub fn decode_line(raw: &[u8], encoding: TsbundlerEncoding) -> (s: String)
    ensures
        s@ == line_text(raw@, encoding),
{
    match encoding {
        TsbundlerEncoding::Utf8 => {
            let end = kept_bytes_len(raw);
            bytes_to_text(vstd::slice::slice_subrange(raw, 0, end))
        },
        TsbundlerEncoding::Utf16Le | TsbundlerEncoding::Utf16Be => {
            let little = match encoding {
                TsbundlerEncoding::Utf16Le => true,
                _ => false,
            };
            let units = code_units(raw, little);
            let end = kept_units_len(&units);
            units_to_text(vstd::slice::slice_subrange(units.as_slice(), 0, end))
        },
    }
}

} // verus!
