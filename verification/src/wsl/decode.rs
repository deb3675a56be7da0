//! Decoding of `wsl.exe` output.
//!
//! The wsl CLI emits its own messages as UTF-16LE (usually with a BOM). By
//! contrast, in-distro command output (`wsl -d <name> -- ...`) is the Linux
//! side's UTF-8 and is decoded with [`decode_utf8`].
use vstd::prelude::*;
use vstd::utf8::{decode_utf8 as utf8_decoded, valid_utf8};

verus! {

pub open spec fn is_high_surrogate(u: u16) -> bool {
    0xD800 <= u && u <= 0xDBFF
}

pub open spec fn is_low_surrogate(u: u16) -> bool {
    0xDC00 <= u && u <= 0xDFFF
}

/// UTF-16 decoding with every unpaired surrogate replaced by U+FFFD.
pub open spec fn utf16_decode(us: Seq<u16>) -> Seq<char>
    decreases us.len(),
{
    if us.len() == 0 {
        seq![]
    } else if us.len() >= 2 && is_high_surrogate(us[0]) && is_low_surrogate(us[1]) {
        let c = 0x10000 + ((us[0] - 0xD800) * 0x400) + (us[1] - 0xDC00);
        seq![c as char] + utf16_decode(us.skip(2))
    } else if is_high_surrogate(us[0]) || is_low_surrogate(us[0]) {
        seq!['\u{FFFD}'] + utf16_decode(us.drop_first())
    } else {
        seq![us[0] as char] + utf16_decode(us.drop_first())
    }
}

/// What `String::from_utf8_lossy` yields for `bytes`.
pub uninterp spec fn utf8_lossy(bytes: Seq<u8>) -> Seq<char>;

/// `String::from_utf16_lossy`: decodes UTF-16, replacing each unpaired
/// surrogate with U+FFFD.
#[verifier::external_body]
fn string_from_utf16_lossy(units: &[u16]) -> (r: String)
    ensures
        r@ == utf16_decode(units@),
{
    String::from_utf16_lossy(units)
}

/// `String::from_utf8_lossy(..).into_owned()`: the result is named
/// `utf8_lossy`; for valid UTF-8 input it is exactly the decoded text
/// (invalid sequences become U+FFFD, which is not stated here).
#[verifier::external_body]
fn string_from_utf8_lossy(bytes: &[u8]) -> (r: String)
    ensures
        r@ == utf8_lossy(bytes@),
        valid_utf8(bytes@) ==> r@ == utf8_decoded(bytes@),
{
    String::from_utf8_lossy(bytes).into_owned()
}

/// The little-endian 16-bit units of `b` (a trailing odd byte is dropped).
pub open spec fn le_units(b: Seq<u8>) -> Seq<u16> {
    Seq::new(b.len() / 2, |i: int| (b[2 * i] + 256 * b[2 * i + 1]) as u16)
}

/// The byte at odd position `2 * j + 1`.
pub open spec fn odd_byte(b: Seq<u8>, j: int) -> u8 {
    b[2 * j + 1]
}

/// The heuristic for BOM-less UTF-16LE: some odd-positioned byte is NUL.
pub open spec fn looks_utf16(b: Seq<u8>) -> bool {
    b.len() >= 2 && exists|j: int| 0 <= j && 2 * j + 1 < b.len() && #[trigger] odd_byte(b, j) == 0
}

/// The text `decode_wsl_output` produces for `b`.
pub open spec fn wsl_text(b: Seq<u8>) -> Seq<char> {
    if b.len() >= 2 && b[0] == 0xFF && b[1] == 0xFE {
        utf16_decode(le_units(b.skip(2)))
    } else if looks_utf16(b) {
        utf16_decode(le_units(b))
    } else {
        utf8_lossy(b)
    }
}

fn le_units_exec(b: &[u8], lo: usize) -> (r: Vec<u16>)
    requires
        lo <= b@.len(),
    ensures
        r@ == le_units(b@.skip(lo as int)),
{
    let ghost s = b@.skip(lo as int);
    let n = (b.len() - lo) / 2;
    let mut out: Vec<u16> = Vec::new();
    let mut i: usize = 0;
    while i < n
        invariant
            n == s.len() / 2,
            s == b@.skip(lo as int),
            lo <= b@.len(),
            b.len() == b@.len(),
            lo + 2 * n <= b@.len(),
            i <= n,
            out@.len() == i,
            forall|j: int| 0 <= j < i ==> out@[j] == le_units(s)[j],
        decreases n - i,
    {
        let lo_b = b[lo + 2 * i];
        let hi_b = b[lo + 2 * i + 1];
        assert(s[2 * i as int] == lo_b && s[2 * i + 1] == hi_b);
        out.push((lo_b as u16) + 256 * (hi_b as u16));
        i = i + 1;
    }
    assert(out@ =~= le_units(s));
    out
}

fn decode_utf16le(b: &[u8], lo: usize) -> (r: String)
    requires
        lo <= b@.len(),
    ensures
        r@ == utf16_decode(le_units(b@.skip(lo as int))),
{
    let units = le_units_exec(b, lo);
    string_from_utf16_lossy(units.as_slice())
}

/// Decode `wsl.exe` meta output. Handles an optional UTF-16LE BOM. If the bytes
/// do not look like UTF-16 (no BOM and no NUL at an odd position) they are
/// treated as UTF-8, so the function is robust across environments.
pub fn decode_wsl_output(bytes: &[u8]) -> (r: String)
    ensures
        r@ == wsl_text(bytes@),
        !(bytes@.len() >= 2 && bytes@[0] == 0xFF && bytes@[1] == 0xFE) && !looks_utf16(bytes@)
            && valid_utf8(bytes@) ==> r@ == utf8_decoded(bytes@),
{
    if bytes.len() >= 2 && bytes[0] == 0xFF && bytes[1] == 0xFE {
        return decode_utf16le(bytes, 2);
    }
    // UTF-16LE encodes every ASCII character with a NUL high byte; localized
    // output may begin with non-ASCII prose but always contains ASCII later, so
    // the whole buffer is scanned.
    let mut looks = false;
    let half = bytes.len() / 2;
    let mut j: usize = 0;
    while j < half
        invariant
            half == bytes@.len() / 2,
            bytes.len() == bytes@.len(),
            j <= half,
            !looks ==> forall|i: int| 0 <= i < j ==> #[trigger] odd_byte(bytes@, i) != 0,
            looks ==> looks_utf16(bytes@),
        decreases half - j,
    {
        if bytes[2 * j + 1] == 0 {
            assert(odd_byte(bytes@, j as int) == 0);
            looks = true;
        }
        j = j + 1;
    }
    proof {
        if !looks {
            assert forall|i: int| 0 <= i && 2 * i + 1 < bytes@.len() implies #[trigger] odd_byte(
                bytes@,
                i,
            ) != 0 by {
                assert(i < half);
            }
        }
    }
    if looks {
        assert(bytes@.skip(0) == bytes@);
        decode_utf16le(bytes, 0)
    } else {
        string_from_utf8_lossy(bytes)
    }
}

/// Decode raw UTF-8 bytes (used for in-distro command output).
pub fn decode_utf8(bytes: &[u8]) -> (r: String)
    ensures
        r@ == utf8_lossy(bytes@),
        valid_utf8(bytes@) ==> r@ == utf8_decoded(bytes@),
{
    string_from_utf8_lossy(bytes)
}

/// The UTF-16 units of one character: itself below U+10000, else its
/// surrogate pair.
pub open spec fn utf16_units(c: char) -> Seq<u16> {
    let v = c as u32;
    if v < 0x10000 {
        seq![v as u16]
    } else {
        seq![(0xD800 + (v - 0x10000) / 0x400) as u16, (0xDC00 + (v - 0x10000) % 0x400) as u16]
    }
}

/// UTF-16 encoding of a text.
pub open spec fn utf16_encode(s: Seq<char>) -> Seq<u16>
    decreases s.len(),
{
    if s.len() == 0 {
        seq![]
    } else {
        utf16_units(s[0]) + utf16_encode(s.drop_first())
    }
}

/// The little-endian bytes of 16-bit units.
pub open spec fn le_bytes(us: Seq<u16>) -> Seq<u8> {
    Seq::new(
        2 * us.len(),
        |k: int|
            if k % 2 == 0 {
                (us[k / 2] % 256) as u8
            } else {
                (us[k / 2] / 256) as u8
            },
    )
}

proof fn lemma_decode_units(c: char, rest: Seq<u16>)
    ensures
        utf16_decode(utf16_units(c) + rest) == seq![c] + utf16_decode(rest),
{
    let v = c as u32;
    let us = utf16_units(c) + rest;
    if v < 0x10000 {
        assert(!(0xD800 <= v && v <= 0xDFFF));
        assert(us[0] == v as u16);
        assert(us.drop_first() =~= rest);
        assert((v as u16) as char == c);
    } else {
        let hi = (0xD800 + (v - 0x10000) / 0x400) as u16;
        let lo = (0xDC00 + (v - 0x10000) % 0x400) as u16;
        assert(v <= 0x10FFFF);
        assert(us[0] == hi && us[1] == lo);
        assert(us.skip(2) =~= rest);
        let w = 0x10000 + ((hi - 0xD800) * 0x400) + (lo - 0xDC00);
        assert(w == v);
        assert(w as char == c);
    }
}

/// Decoding the UTF-16 encoding of a text gives the text back.
pub proof fn law_utf16_round_trip(s: Seq<char>)
    ensures
        utf16_decode(utf16_encode(s)) == s,
    decreases s.len(),
{
    if s.len() > 0 {
        law_utf16_round_trip(s.drop_first());
        lemma_decode_units(s[0], utf16_encode(s.drop_first()));
        assert(s =~= seq![s[0]] + s.drop_first());
    }
}

/// Reading little-endian bytes back as 16-bit units gives the units back.
pub proof fn law_le_round_trip(us: Seq<u16>)
    ensures
        le_units(le_bytes(us)) == us,
{
    let b = le_bytes(us);
    assert forall|i: int| 0 <= i < us.len() implies #[trigger] le_units(b)[i] == us[i] by {
        assert((2 * i) % 2 == 0 && (2 * i) / 2 == i);
        assert((2 * i + 1) % 2 == 1 && (2 * i + 1) / 2 == i);
        assert(b[2 * i] == (us[i] % 256) as u8);
        assert(b[2 * i + 1] == (us[i] / 256) as u8);
    }
    assert(le_units(b) =~= us);
}

proof fn lemma_encode_append(a: Seq<char>, b: Seq<char>)
    ensures
        utf16_encode(a + b) == utf16_encode(a) + utf16_encode(b),
    decreases a.len(),
{
    if a.len() == 0 {
        assert(a + b =~= b);
        assert(utf16_encode(a) =~= Seq::<u16>::empty());
        assert(utf16_encode(a) + utf16_encode(b) =~= utf16_encode(b));
    } else {
        assert((a + b).drop_first() =~= a.drop_first() + b);
        assert((a + b)[0] == a[0]);
        lemma_encode_append(a.drop_first(), b);
        assert(utf16_encode(a + b) =~= utf16_encode(a) + utf16_encode(b));
    }
}

proof fn lemma_encoded_looks_utf16(s: Seq<char>, i: int)
    requires
        0 <= i < s.len(),
        (s[i] as u32) < 0x100,
    ensures
        looks_utf16(le_bytes(utf16_encode(s))),
{
    let us = utf16_encode(s);
    let b = le_bytes(us);
    let tail = seq![s[i]] + s.skip(i + 1);
    assert(s =~= s.take(i) + tail);
    lemma_encode_append(s.take(i), tail);
    assert(tail.drop_first() =~= s.skip(i + 1));
    assert(tail[0] == s[i]);
    assert(utf16_encode(tail) == utf16_units(s[i]) + utf16_encode(s.skip(i + 1)));
    let p = utf16_encode(s.take(i)).len() as int;
    assert(us[p] == utf16_encode(tail)[0]);
    assert(us[p] == (s[i] as u32) as u16);
    assert((2 * p + 1) % 2 == 1 && (2 * p + 1) / 2 == p);
    assert(b[2 * p + 1] == (us[p] / 256) as u8);
    assert(odd_byte(b, p) == 0);
}

proof fn lemma_char_code(c: char)
    ensures
        (c as u32) <= 0x10FFFF,
        (c as u32) < 0x10000 ==> ((c as u32) as u16) as char == c,
        (c as u32) == 0xFEFF ==> c == '\u{FEFF}',
{
}

proof fn lemma_encoded_has_no_bom(s: Seq<char>)
    requires
        s.len() > 0,
        s[0] != '\u{FEFF}',
    ensures
        !(le_bytes(utf16_encode(s))[0] == 0xFF && le_bytes(utf16_encode(s))[1] == 0xFE),
        le_bytes(utf16_encode(s)).len() >= 2,
{
    let us = utf16_encode(s);
    let b = le_bytes(us);
    assert(us =~= utf16_units(s[0]) + utf16_encode(s.drop_first()));
    assert(us[0] == utf16_units(s[0])[0]);
    assert(b[0] == (us[0] % 256) as u8 && b[1] == (us[0] / 256) as u8);
    let u = us[0];
    let c = s[0];
    let v = c as u32;
    lemma_char_code(c);
    if b[0] == 0xFF && b[1] == 0xFE {
        assert(u == 256 * (u / 256) + u % 256);
        assert(u == 0xFEFF);
        if v < 0x10000 {
            assert(u == v);
            assert(v == 0xFEFF);
        } else {
            assert(0xD800 <= u <= 0xDBFF);
        }
    }
}

/// `wsl.exe` output in UTF-16LE decodes back to its text: always after a BOM,
/// and without one when the text holds a character below U+0100 (so that
/// some high byte is NUL) and does not itself start with U+FEFF.
pub proof fn law_wsl_output_utf16_round_trip(s: Seq<char>)
    ensures
        wsl_text(seq![0xFFu8, 0xFEu8] + le_bytes(utf16_encode(s))) == s,
        (exists|i: int| 0 <= i < s.len() && (#[trigger] s[i] as u32) < 0x100) && s[0] != '\u{FEFF}'
            ==> wsl_text(le_bytes(utf16_encode(s))) == s,
{
    let us = utf16_encode(s);
    let b = le_bytes(us);
    law_utf16_round_trip(s);
    law_le_round_trip(us);
    let bom = seq![0xFFu8, 0xFEu8] + b;
    assert(bom.skip(2) =~= b);
    if (exists|i: int| 0 <= i < s.len() && (#[trigger] s[i] as u32) < 0x100) && s[0] != '\u{FEFF}' {
        let i = choose|i: int| 0 <= i < s.len() && (#[trigger] s[i] as u32) < 0x100;
        lemma_encoded_looks_utf16(s, i);
        lemma_encoded_has_no_bom(s);
    }
}

} // verus!
