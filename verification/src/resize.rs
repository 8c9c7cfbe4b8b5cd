//! The wire grammar of a terminal-resize request.
//!
//! The payload of a resize frame is a JSON object holding the four fields of
//! a [`PtySize`], for example `{"rows":40,"cols":120,"pixel_width":0,
//! "pixel_height":0}`. The grammar accepted here: optional ASCII whitespace
//! around every token, the four keys in any order, each exactly once, each
//! value an unsigned decimal integer that fits in sixteen bits, and nothing
//! but whitespace after the closing brace. Anything else is a protocol
//! violation and parses to `None`.

use vstd::prelude::*;
use crate::pty_size::PtySize;

verus! {

/// ASCII whitespace as JSON allows it between tokens.
pub open spec fn is_json_ws(b: u8) -> bool {
    b == 32 || b == 9 || b == 10 || b == 13
}

/// ASCII decimal digit.
pub open spec fn is_digit(b: u8) -> bool {
    48 <= b <= 57
}

/// The first position at or after `i` that does not hold whitespace.
pub open spec fn spec_skip_ws(s: Seq<u8>, i: int) -> int
    decreases s.len() - i,
{
    if 0 <= i < s.len() && is_json_ws(s[i]) {
        spec_skip_ws(s, i + 1)
    } else {
        i
    }
}

/// Consumes decimal digits starting at `i` with accumulator `acc`; yields the
/// value and the position after the last digit, or nothing once the value
/// leaves the sixteen-bit range.
pub open spec fn spec_digits(s: Seq<u8>, i: int, acc: int) -> Option<(int, int)>
    decreases s.len() - i,
{
    if 0 <= i < s.len() && is_digit(s[i]) {
        let v = acc * 10 + (s[i] - 48);
        if v > 65535 {
            None
        } else {
            spec_digits(s, i + 1, v)
        }
    } else {
        Some((acc, i))
    }
}

/// A decimal number at `i`: at least one digit, value at most 65535.
pub open spec fn spec_parse_u16(s: Seq<u8>, i: int) -> Option<(u16, int)> {
    if 0 <= i < s.len() && is_digit(s[i]) {
        match spec_digits(s, i, 0) {
            Some((v, j)) => Some((v as u16, j)),
            None => None,
        }
    } else {
        None
    }
}

/// The position of the first double quote at or after `i`.
pub open spec fn spec_scan_quote(s: Seq<u8>, i: int) -> Option<int>
    decreases s.len() - i,
{
    if !(0 <= i < s.len()) {
        None
    } else if s[i] == 34 {
        Some(i)
    } else {
        spec_scan_quote(s, i + 1)
    }
}

/// One of the four field names of a `PtySize`.
#[derive(Clone, Copy, PartialEq, Eq, Structural, Debug)]
pub enum FieldKey {
    Rows,
    Cols,
    PixelWidth,
    PixelHeight,
}

/// Which field a key names: the byte strings `rows`, `cols`, `pixel_width`
/// and `pixel_height`, spelled out by their ASCII codes.
pub open spec fn spec_key_id(k: Seq<u8>) -> Option<FieldKey> {
    if k.len() == 4 && k[0] == 114 && k[1] == 111 && k[2] == 119 && k[3] == 115 {
        // "rows"
        Some(FieldKey::Rows)
    } else if k.len() == 4 && k[0] == 99 && k[1] == 111 && k[2] == 108 && k[3] == 115 {
        // "cols"
        Some(FieldKey::Cols)
    } else if k.len() == 11 && k[0] == 112 && k[1] == 105 && k[2] == 120 && k[3] == 101
        && k[4] == 108 && k[5] == 95 && k[6] == 119 && k[7] == 105 && k[8] == 100 && k[9] == 116
        && k[10] == 104 {
        // "pixel_width"
        Some(FieldKey::PixelWidth)
    } else if k.len() == 12 && k[0] == 112 && k[1] == 105 && k[2] == 120 && k[3] == 101
        && k[4] == 108 && k[5] == 95 && k[6] == 104 && k[7] == 101 && k[8] == 105 && k[9] == 103
        && k[10] == 104 && k[11] == 116 {
        // "pixel_height"
        Some(FieldKey::PixelHeight)
    } else {
        None
    }
}

/// The fields gathered so far while reading an object's members.
#[derive(Clone, Copy)]
pub struct PartialSize {
    pub rows: Option<u16>,
    pub cols: Option<u16>,
    pub pixel_width: Option<u16>,
    pub pixel_height: Option<u16>,
}

/// No field seen yet.
pub open spec fn empty_partial() -> PartialSize {
    PartialSize { rows: None, cols: None, pixel_width: None, pixel_height: None }
}

/// Records one field; a key seen twice is a violation.
pub open spec fn spec_set_field(p: PartialSize, k: FieldKey, v: u16) -> Option<PartialSize> {
    match k {
        FieldKey::Rows => if p.rows is Some {
            None
        } else {
            Some(PartialSize { rows: Some(v), ..p })
        },
        FieldKey::Cols => if p.cols is Some {
            None
        } else {
            Some(PartialSize { cols: Some(v), ..p })
        },
        FieldKey::PixelWidth => if p.pixel_width is Some {
            None
        } else {
            Some(PartialSize { pixel_width: Some(v), ..p })
        },
        FieldKey::PixelHeight => if p.pixel_height is Some {
            None
        } else {
            Some(PartialSize { pixel_height: Some(v), ..p })
        },
    }
}

/// A size is complete only when all four fields were seen.
pub open spec fn spec_complete(p: PartialSize) -> Option<PtySize> {
    match (p.rows, p.cols, p.pixel_width, p.pixel_height) {
        (Some(r), Some(c), Some(w), Some(h)) => Some(
            PtySize { rows: r, cols: c, pixel_width: w, pixel_height: h },
        ),
        _ => None,
    }
}

/// One `"key" : value` pair starting at `i`; yields the field, its value and
/// the position after the last digit.
pub open spec fn spec_parse_pair(s: Seq<u8>, i: int) -> Option<(FieldKey, u16, int)> {
    let j = spec_skip_ws(s, i);
    if 0 <= j < s.len() && s[j] == 34 {
        match spec_scan_quote(s, j + 1) {
            Some(q) => match spec_key_id(s.subrange(j + 1, q)) {
                Some(k) => {
                    let c = spec_skip_ws(s, q + 1);
                    if 0 <= c < s.len() && s[c] == 58 {
                        let m = spec_skip_ws(s, c + 1);
                        match spec_parse_u16(s, m) {
                            Some((v, e)) => Some((k, v, e)),
                            None => None,
                        }
                    } else {
                        None
                    }
                },
                None => None,
            },
            None => None,
        }
    } else {
        None
    }
}

/// The members of the object, comma separated, starting at `i`. At most
/// `fuel` pairs can still be read; four suffice, since a fifth pair would
/// repeat a key. Yields the gathered fields and the position of the first
/// non-whitespace byte after the last pair.
pub open spec fn spec_parse_members(s: Seq<u8>, i: int, acc: PartialSize, fuel: nat) -> Option<
    (PartialSize, int),
>
    decreases fuel,
{
    if fuel == 0 {
        None
    } else {
        match spec_parse_pair(s, i) {
            Some((k, v, j)) => match spec_set_field(acc, k, v) {
                Some(acc2) => {
                    let w = spec_skip_ws(s, j);
                    if 0 <= w < s.len() && s[w] == 44 {
                        spec_parse_members(s, w + 1, acc2, (fuel - 1) as nat)
                    } else {
                        Some((acc2, w))
                    }
                },
                None => None,
            },
            None => None,
        }
    }
}

/// The whole resize payload: one object holding exactly the four fields,
/// nothing but whitespace before or after it.
pub open spec fn spec_parse_pty_size(s: Seq<u8>) -> Option<PtySize> {
    let i = spec_skip_ws(s, 0);
    if 0 <= i < s.len() && s[i] == 123 {
        match spec_parse_members(s, i + 1, empty_partial(), 4) {
            Some((acc, j)) => if 0 <= j < s.len() && s[j] == 125 && spec_skip_ws(s, j + 1)
                == s.len() {
                spec_complete(acc)
            } else {
                None
            },
            None => None,
        }
    } else {
        None
    }
}

fn skip_ws(s: &[u8], i: usize) -> (r: usize)
    requires
        i <= s@.len(),
    ensures
        r == spec_skip_ws(s@, i as int),
        i <= r <= s@.len(),
{
    let mut j: usize = i;
    while j < s.len() && (s[j] == 32 || s[j] == 9 || s[j] == 10 || s[j] == 13)
        invariant
            i <= j <= s@.len(),
            spec_skip_ws(s@, i as int) == spec_skip_ws(s@, j as int),
        decreases s@.len() - j,
    {
        j += 1;
    }
    j
}

fn scan_quote(s: &[u8], i: usize) -> (r: Option<usize>)
    requires
        i <= s@.len(),
    ensures
        r matches Some(q) ==> spec_scan_quote(s@, i as int) == Some(q as int) && i <= q
            < s@.len(),
        r is None ==> spec_scan_quote(s@, i as int) is None,
{
    let mut j: usize = i;
    while j < s.len() && s[j] != 34
        invariant
            i <= j <= s@.len(),
            spec_scan_quote(s@, i as int) == spec_scan_quote(s@, j as int),
        decreases s@.len() - j,
    {
        j += 1;
    }
    if j < s.len() {
        Some(j)
    } else {
        None
    }
}

fn parse_u16_at(s: &[u8], i: usize) -> (r: Option<(u16, usize)>)
    requires
        i <= s@.len(),
    ensures
        r matches Some((v, j)) ==> spec_parse_u16(s@, i as int) == Some((v, j as int)) && i < j
            <= s@.len(),
        r is None ==> spec_parse_u16(s@, i as int) is None,
{
    if i >= s.len() || !(48 <= s[i] && s[i] <= 57) {
        return None;
    }
    let mut acc: u32 = 0;
    let mut j: usize = i;
    loop
        invariant
            i <= j <= s@.len(),
            acc <= 65535,
            spec_digits(s@, i as int, 0) == spec_digits(s@, j as int, acc as int),
            i < s@.len() && is_digit(s@[i as int]),
        decreases s@.len() - j,
    {
        if j < s.len() && 48 <= s[j] && s[j] <= 57 {
            let v: u32 = acc * 10 + (s[j] - 48) as u32;
            if v > 65535 {
                return None;
            }
            acc = v;
            j += 1;
        } else {
            assert(spec_digits(s@, j as int, acc as int) == Some((acc as int, j as int)));
            return Some((acc as u16, j));
        }
    }
}

fn key_id_at(s: &[u8], lo: usize, hi: usize) -> (r: Option<FieldKey>)
    requires
        lo <= hi <= s@.len(),
    ensures
        r == spec_key_id(s@.subrange(lo as int, hi as int)),
{
    proof {
        let k = s@.subrange(lo as int, hi as int);
        assert(k.len() == hi - lo);
        assert forall|t: int| 0 <= t < k.len() implies k[t] == s@[lo + t] by {}
    }
    let n = hi - lo;
    if n == 4 && s[lo] == 114 && s[lo + 1] == 111 && s[lo + 2] == 119 && s[lo + 3] == 115 {
        Some(FieldKey::Rows)
    } else if n == 4 && s[lo] == 99 && s[lo + 1] == 111 && s[lo + 2] == 108 && s[lo + 3] == 115 {
        Some(FieldKey::Cols)
    } else if n == 11 && s[lo] == 112 && s[lo + 1] == 105 && s[lo + 2] == 120 && s[lo + 3] == 101
        && s[lo + 4] == 108 && s[lo + 5] == 95 && s[lo + 6] == 119 && s[lo + 7] == 105
        && s[lo + 8] == 100 && s[lo + 9] == 116 && s[lo + 10] == 104 {
        Some(FieldKey::PixelWidth)
    } else if n == 12 && s[lo] == 112 && s[lo + 1] == 105 && s[lo + 2] == 120 && s[lo + 3] == 101
        && s[lo + 4] == 108 && s[lo + 5] == 95 && s[lo + 6] == 104 && s[lo + 7] == 101
        && s[lo + 8] == 105 && s[lo + 9] == 103 && s[lo + 10] == 104 && s[lo + 11] == 116 {
        Some(FieldKey::PixelHeight)
    } else {
        None
    }
}

fn set_field(p: PartialSize, k: FieldKey, v: u16) -> (r: Option<PartialSize>)
    ensures
        r == spec_set_field(p, k, v),
{
    match k {
        FieldKey::Rows => if p.rows.is_some() {
            None
        } else {
            Some(PartialSize { rows: Some(v), ..p })
        },
        FieldKey::Cols => if p.cols.is_some() {
            None
        } else {
            Some(PartialSize { cols: Some(v), ..p })
        },
        FieldKey::PixelWidth => if p.pixel_width.is_some() {
            None
        } else {
            Some(PartialSize { pixel_width: Some(v), ..p })
        },
        FieldKey::PixelHeight => if p.pixel_height.is_some() {
            None
        } else {
            Some(PartialSize { pixel_height: Some(v), ..p })
        },
    }
}

fn complete_size(p: PartialSize) -> (r: Option<PtySize>)
    ensures
        r == spec_complete(p),
{
    match (p.rows, p.cols, p.pixel_width, p.pixel_height) {
        (Some(r), Some(c), Some(w), Some(h)) => Some(
            PtySize { rows: r, cols: c, pixel_width: w, pixel_height: h },
        ),
        _ => None,
    }
}

fn parse_pair(s: &[u8], i: usize) -> (r: Option<(FieldKey, u16, usize)>)
    requires
        i <= s@.len(),
    ensures
        r matches Some((k, v, j)) ==> spec_parse_pair(s@, i as int) == Some((k, v, j as int))
            && j <= s@.len(),
        r is None ==> spec_parse_pair(s@, i as int) is None,
{
    let j = skip_ws(s, i);
    if !(j < s.len() && s[j] == 34) {
        return None;
    }
    match scan_quote(s, j + 1) {
        None => None,
        Some(q) => match key_id_at(s, j + 1, q) {
            None => None,
            Some(k) => {
                let c = skip_ws(s, q + 1);
                if !(c < s.len() && s[c] == 58) {
                    return None;
                }
                let m = skip_ws(s, c + 1);
                match parse_u16_at(s, m) {
                    None => None,
                    Some((v, e)) => Some((k, v, e)),
                }
            },
        },
    }
}

fn parse_members(s: &[u8], i: usize) -> (r: Option<(PartialSize, usize)>)
    requires
        i <= s@.len(),
    ensures
        r matches Some((p, j)) ==> spec_parse_members(s@, i as int, empty_partial(), 4) == Some(
            (p, j as int),
        ) && j <= s@.len(),
        r is None ==> spec_parse_members(s@, i as int, empty_partial(), 4) is None,
{
    let mut acc = PartialSize { rows: None, cols: None, pixel_width: None, pixel_height: None };
    let mut pos: usize = i;
    let mut fuel: u8 = 4;
    proof {
        assert(acc == empty_partial());
    }
    loop
        invariant
            pos <= s@.len(),
            fuel <= 4,
            spec_parse_members(s@, i as int, empty_partial(), 4) == spec_parse_members(
                s@,
                pos as int,
                acc,
                fuel as nat,
            ),
        decreases fuel,
    {
        if fuel == 0 {
            return None;
        }
        match parse_pair(s, pos) {
            None => {
                return None;
            },
            Some((k, v, j)) => {
                match set_field(acc, k, v) {
                    None => {
                        return None;
                    },
                    Some(acc2) => {
                        let w = skip_ws(s, j);
                        if w < s.len() && s[w] == 44 {
                            acc = acc2;
                            pos = w + 1;
                            fuel -= 1;
                        } else {
                            return Some((acc2, w));
                        }
                    },
                }
            },
        }
    }
}

/// Parses a resize payload; yields the requested size exactly when the bytes
/// follow the grammar above, and nothing otherwise.
pub fn parse_pty_size(payload: &[u8]) -> (r: Option<PtySize>)
    ensures
        r == spec_parse_pty_size(payload@),
{
    let i = skip_ws(payload, 0);
    if !(i < payload.len() && payload[i] == 123) {
        return None;
    }
    match parse_members(payload, i + 1) {
        None => None,
        Some((acc, j)) => {
            if j < payload.len() && payload[j] == 125 {
                let e = skip_ws(payload, j + 1);
                if e == payload.len() {
                    complete_size(acc)
                } else {
                    None
                }
            } else {
                None
            }
        },
    }
}

} // verus!
