//! Display helpers for the terminal UI: truncation and padding to a column
//! budget (CJK-aware, through `unicode-width`), human-readable byte sizes,
//! usage levels of gauges, and centring of popups.
use vstd::prelude::*;

use unicode_width::{UnicodeWidthChar, UnicodeWidthStr};

use crate::text::{from_chars, to_chars};

verus! {

/// The display width `unicode-width` gives a character (`None` for control
/// characters).
pub uninterp spec fn char_width(c: char) -> Option<usize>;

/// The display width `unicode-width` gives a string.
pub uninterp spec fn str_width(s: Seq<char>) -> usize;

/// `UnicodeWidthChar::width`: the character's column width, `None` for control
/// characters: printable ASCII is one column, the C0 and C1 control ranges
/// (and DEL) have no width, and every character from U+00A0 up has one. What
/// the Unicode tables give those is not stated.
#[verifier::external_body]
fn width_of_char(c: char) -> (r: Option<usize>)
    ensures
        r == char_width(c),
        '\u{20}' <= c < '\u{7F}' ==> r == Some(1usize),
        c < '\u{20}' || ('\u{7F}' <= c < '\u{A0}') ==> r.is_none(),
        '\u{A0}' <= c ==> r.is_some(),
{
    UnicodeWidthChar::width(c)
}

/// `UnicodeWidthStr::width`: the string's column width. A string of
/// printable ASCII is as wide as it is long (the crate's rules make a string's
/// width the sum of its characters' widths except for `\r\n`, emoji and
/// script ligatures, none of which is printable ASCII). Nothing more is
/// claimed of it (in particular not that it is the sum of the characters'
/// widths in general).
#[verifier::external_body]
fn width_of_str(s: &str) -> (r: usize)
    ensures
        r == str_width(s@),
        (forall|i: int| 0 <= i < s@.len() ==> '\u{20}' <= #[trigger] s@[i] < '\u{7F}') ==> r
            == s@.len(),
{
    UnicodeWidthStr::width(s)
}

/// A character's width for layout (control characters take no column).
pub open spec fn col_width(c: char) -> nat {
    match char_width(c) {
        Some(w) => w as nat,
        None => 0,
    }
}

/// How many leading characters of `cs` fit in `budget` columns, taking them
/// in order and stopping at the first that does not fit.
pub open spec fn fitting_prefix(cs: Seq<char>, budget: int) -> nat
    decreases cs.len(),
{
    if cs.len() == 0 {
        0
    } else if col_width(cs[0]) > budget {
        0
    } else {
        1 + fitting_prefix(cs.drop_first(), budget - col_width(cs[0]))
    }
}

/// `s` cut to at most `max` display columns: unchanged when it fits, else the
/// characters that fit in `max - 1` columns followed by `…` (nothing when
/// `max` is zero).
pub open spec fn truncate_spec(s: Seq<char>, max: nat) -> Seq<char> {
    if str_width(s) <= max {
        s
    } else if max == 0 {
        seq![]
    } else {
        s.take(fitting_prefix(s, max - 1) as int).push('…')
    }
}

proof fn lemma_fitting_step(cs: Seq<char>, budget: int, i: int, used: int)
    requires
        0 <= i < cs.len(),
        fitting_prefix(cs, budget) == i + fitting_prefix(cs.skip(i), budget - used),
        used + col_width(cs[i]) <= budget,
    ensures
        fitting_prefix(cs, budget) == i + 1 + fitting_prefix(cs.skip(i + 1), budget - used - col_width(cs[i])),
{
    let t = cs.skip(i);
    assert(t[0] == cs[i]);
    assert(t.drop_first() == cs.skip(i + 1));
}

proof fn lemma_fitting_stop(cs: Seq<char>, budget: int, i: int, used: int)
    requires
        0 <= i <= cs.len(),
        fitting_prefix(cs, budget) == i + fitting_prefix(cs.skip(i), budget - used),
        i == cs.len() || used + col_width(cs[i]) > budget,
    ensures
        fitting_prefix(cs, budget) == i,
{
    let t = cs.skip(i);
    if i < cs.len() {
        assert(t[0] == cs[i]);
    } else {
        assert(t.len() == 0);
    }
}

/// Truncate `s` to at most `max` display columns (CJK-aware), appending `…`
/// when characters are dropped.
pub fn truncate_width(s: &str, max: usize) -> (r: String)
    ensures
        r@ == truncate_spec(s@, max as nat),
{
    if width_of_str(s) <= max {
        return s.to_owned();
    }
    if max == 0 {
        return String::new();
    }
    let budget = max - 1;
    let cs = to_chars(s);
    let mut out: Vec<char> = Vec::new();
    let mut width: usize = 0;
    let mut i: usize = 0;
    assert(cs@.skip(0) == cs@);
    while i < cs.len()
        invariant
            i <= cs@.len(),
            width <= budget,
            out@ == cs@.take(i as int),
            fitting_prefix(cs@, budget as int) == i + fitting_prefix(
                cs@.skip(i as int),
                budget - width,
            ),
        ensures
            i <= cs@.len(),
            out@ == cs@.take(i as int),
            fitting_prefix(cs@, budget as int) == i,
        decreases cs@.len() - i,
    {
        let w = match width_of_char(cs[i]) {
            Some(w) => w,
            None => 0,
        };
        if w > budget - width {
            proof {
                lemma_fitting_stop(cs@, budget as int, i as int, width as int);
            }
            break;
        }
        proof {
            lemma_fitting_step(cs@, budget as int, i as int, width as int);
        }
        out.push(cs[i]);
        width = width + w;
        i = i + 1;
        assert(out@ == cs@.take(i as int));
    }
    out.push('…');
    from_chars(out.as_slice())
}

/// `s` padded with spaces on the right to `width` display columns (unchanged
/// when it is already that wide or wider).
pub open spec fn pad_spec(s: Seq<char>, width: nat) -> Seq<char> {
    if str_width(s) >= width {
        s
    } else {
        s + Seq::new((width - str_width(s)) as nat, |i: int| ' ')
    }
}

/// Pad `s` with spaces to `width` display columns, for aligned labels.
pub fn pad_display(s: &str, width: usize) -> (r: String)
    ensures
        r@ == pad_spec(s@, width as nat),
{
    let w = width_of_str(s);
    if w >= width {
        return s.to_owned();
    }
    let mut out = to_chars(s);
    let missing = width - w;
    let mut i: usize = 0;
    while i < missing
        invariant
            i <= missing,
            out@ == s@ + Seq::new(i as nat, |j: int| ' '),
        decreases missing - i,
    {
        out.push(' ');
        i = i + 1;
        assert(out@ =~= s@ + Seq::new(i as nat, |j: int| ' '));
    }
    from_chars(out.as_slice())
}

/// The character of a decimal digit.
pub open spec fn digit_char(d: nat) -> char {
    if d == 0 {
        '0'
    } else if d == 1 {
        '1'
    } else if d == 2 {
        '2'
    } else if d == 3 {
        '3'
    } else if d == 4 {
        '4'
    } else if d == 5 {
        '5'
    } else if d == 6 {
        '6'
    } else if d == 7 {
        '7'
    } else if d == 8 {
        '8'
    } else {
        '9'
    }
}

/// The decimal digits of `n`, without leading zeros.
pub open spec fn decimal(n: nat) -> Seq<char>
    decreases n,
{
    if n < 10 {
        seq![digit_char(n)]
    } else {
        decimal(n / 10).push(digit_char(n % 10))
    }
}

fn digit(d: u128) -> (r: char)
    requires
        d < 10,
    ensures
        r == digit_char(d as nat),
{
    if d == 0 {
        '0'
    } else if d == 1 {
        '1'
    } else if d == 2 {
        '2'
    } else if d == 3 {
        '3'
    } else if d == 4 {
        '4'
    } else if d == 5 {
        '5'
    } else if d == 6 {
        '6'
    } else if d == 7 {
        '7'
    } else if d == 8 {
        '8'
    } else {
        '9'
    }
}

/// Append the decimal digits of `n` to `out`.
fn push_decimal(out: &mut Vec<char>, n: u128)
    ensures
        final(out)@ == old(out)@ + decimal(n as nat),
    decreases n,
{
    if n >= 10 {
        push_decimal(out, n / 10);
    }
    out.push(digit(n % 10));
    assert(out@ =~= old(out)@ + decimal(n as nat));
}

/// The binary unit a byte count is shown in: 0 for B, 1 for KB, up to 4 for TB.
pub open spec fn size_unit(bytes: nat) -> nat {
    if bytes < 1024 {
        0
    } else if bytes < 1048576 {
        1
    } else if bytes < 1073741824 {
        2
    } else if bytes < 1099511627776 {
        3
    } else {
        4
    }
}

/// How many bytes one of the unit counts (1024 to the power of the unit).
pub open spec fn unit_scale(unit: nat) -> nat {
    if unit == 0 {
        1
    } else if unit == 1 {
        1024
    } else if unit == 2 {
        1048576
    } else if unit == 3 {
        1073741824
    } else {
        1099511627776
    }
}

/// The unit's name.
pub open spec fn unit_name(unit: nat) -> Seq<char> {
    if unit == 0 {
        seq!['B']
    } else if unit == 1 {
        seq!['K', 'B']
    } else if unit == 2 {
        seq!['M', 'B']
    } else if unit == 3 {
        seq!['G', 'B']
    } else {
        seq!['T', 'B']
    }
}

/// `n / d` rounded to the nearest integer, halves going to the even one.
pub open spec fn round_half_even(n: nat, d: nat) -> nat
    recommends
        d > 0,
{
    let q = n / d;
    let r = n % d;
    if 2 * r > d || (2 * r == d && q % 2 == 1) {
        q + 1
    } else {
        q
    }
}

/// A byte count in binary units: whole bytes as `"512 B"`, larger counts
/// with one decimal in the largest unit up to TB that they reach, as
/// `"1.5 KB"` (rounded to the nearest tenth, halves to even).
pub open spec fn human_size_spec(bytes: nat) -> Seq<char> {
    let unit = size_unit(bytes);
    if unit == 0 {
        decimal(bytes) + seq![' ', 'B']
    } else {
        let tenths = round_half_even(10 * bytes, unit_scale(unit));
        decimal(tenths / 10) + seq!['.'] + decimal(tenths % 10) + seq![' '] + unit_name(unit)
    }
}

/// Human-readable byte size using binary units.
pub fn human_size(bytes: u64) -> (r: String)
    ensures
        r@ == human_size_spec(bytes as nat),
{
    let mut out: Vec<char> = Vec::new();
    if bytes < 1024 {
        push_decimal(&mut out, bytes as u128);
        out.push(' ');
        out.push('B');
        assert(out@ =~= human_size_spec(bytes as nat));
        return from_chars(out.as_slice());
    }
    let (scale, name): (u128, [char; 2]) = if bytes < 1048576 {
        (1024, ['K', 'B'])
    } else if bytes < 1073741824 {
        (1048576, ['M', 'B'])
    } else if bytes < 1099511627776 {
        (1073741824, ['G', 'B'])
    } else {
        (1099511627776, ['T', 'B'])
    };
    let n: u128 = (bytes as u128) * 10;
    let q: u128 = n / scale;
    let rem: u128 = n % scale;
    let tenths: u128 = if 2 * rem > scale || (2 * rem == scale && q % 2 == 1) {
        q + 1
    } else {
        q
    };
    assert(tenths == round_half_even(10 * bytes as nat, unit_scale(size_unit(bytes as nat))));
    push_decimal(&mut out, tenths / 10);
    out.push('.');
    push_decimal(&mut out, tenths % 10);
    out.push(' ');
    out.push(name[0]);
    out.push(name[1]);
    assert(out@ =~= human_size_spec(bytes as nat));
    from_chars(out.as_slice())
}

/// How full a gauge is: below three quarters, from three quarters, or from
/// nine tenths up.
#[derive(Debug, Clone, Copy, PartialEq, Eq, Structural)]
pub enum UsageLevel {
    Normal,
    Warning,
    Critical,
}

/// The level of `part` out of `whole`: critical from 90 %, warning from 75 %.
pub open spec fn usage_level_spec(part: nat, whole: nat) -> UsageLevel {
    if 10 * part >= 9 * whole {
        UsageLevel::Critical
    } else if 4 * part >= 3 * whole {
        UsageLevel::Warning
    } else {
        UsageLevel::Normal
    }
}

/// The level of usage `part` out of `whole`, which picks a gauge's colour.
pub fn usage_level(part: u64, whole: u64) -> (r: UsageLevel)
    requires
        whole > 0,
    ensures
        r == usage_level_spec(part as nat, whole as nat),
{
    let p = part as u128;
    let w = whole as u128;
    if 10 * p >= 9 * w {
        UsageLevel::Critical
    } else if 4 * p >= 3 * w {
        UsageLevel::Warning
    } else {
        UsageLevel::Normal
    }
}

/// How many of a gauge's `width` cells are filled for `part` out of `whole`:
/// the share rounded down, at most the whole gauge.
pub open spec fn gauge_fill_spec(part: nat, whole: nat, width: nat) -> nat {
    if part >= whole {
        width
    } else {
        part * width / whole
    }
}

/// The number of filled cells of a `width`-cell gauge showing `part` of `whole`.
pub fn gauge_fill(part: u64, whole: u64, width: u16) -> (r: u16)
    requires
        whole > 0,
    ensures
        r == gauge_fill_spec(part as nat, whole as nat, width as nat),
        r <= width,
{
    if part >= whole {
        return width;
    }
    assert((part as u128) * (width as u128) <= 0xffff_ffff_ffff_ffff * 0xffff) by (nonlinear_arith)
        requires
            part <= 0xffff_ffff_ffff_ffffu64,
            width <= 0xffffu16,
    ;
    let prod: u128 = (part as u128) * (width as u128);
    let cells: u128 = prod / (whole as u128);
    assert(cells <= width) by (nonlinear_arith)
        requires
            prod == part * width,
            cells == prod / (whole as u128),
            part < whole,
            whole > 0,
    {
        assert(part * width <= whole * width);
        assert(prod / (whole as u128) <= (whole * width) / (whole as int));
    }
    cells as u16
}

/// A centred span of `size` (at most `extent`) inside `[offset, offset + extent)`:
/// its start and its length.
pub open spec fn centered_spec(offset: nat, extent: nat, size: nat) -> (nat, nat) {
    let len = if size <= extent {
        size
    } else {
        extent
    };
    ((offset + (extent - len) / 2) as nat, len)
}

/// Centre a span of `size` cells in the span `[offset, offset + extent)`,
/// shrinking it to fit; used on both axes to place popups.
pub fn centered(offset: u16, extent: u16, size: u16) -> (r: (u16, u16))
    requires
        offset + extent <= u16::MAX,
    ensures
        (r.0 as nat, r.1 as nat) == centered_spec(offset as nat, extent as nat, size as nat),
{
    let len = if size <= extent {
        size
    } else {
        extent
    };
    (offset + (extent - len) / 2, len)
}

} // verus!
