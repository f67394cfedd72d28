//! Byte-scan primitives shared by the response decoder and the block parser:
//! whitespace-delimited fields within a line, line boundaries with their
//! terminator length, and the small search routines the parsers need.
//!
//! All routines walk a byte buffer with explicit cursors and never copy.
//! Whitespace is classified with full-codepoint semantics: a whitespace
//! character is a UTF-8 encoding of a codepoint with the White_Space
//! property, matched as a byte pattern, so multi-byte spaces are skipped
//! whole and bytes inside other characters are never mistaken for spaces.

use vstd::prelude::*;

verus! {

/// Single-byte whitespace characters (HT, LF, VT, FF, CR, space).
pub open spec fn is_ws1(b: u8) -> bool {
    b == 9 || b == 10 || b == 11 || b == 12 || b == 13 || b == 32
}

/// Third byte patterns of the three-byte whitespace encodings:
/// U+1680, U+2000..U+200A, U+2028, U+2029, U+202F, U+205F, U+3000.
pub open spec fn is_ws3(b0: u8, b1: u8, b2: u8) -> bool {
    ||| (b0 == 0xE1 && b1 == 0x9A && b2 == 0x80)
    ||| (b0 == 0xE2 && b1 == 0x80 && (0x80 <= b2 && b2 <= 0x8A || b2 == 0xA8 || b2 == 0xA9
        || b2 == 0xAF))
    ||| (b0 == 0xE2 && b1 == 0x81 && b2 == 0x9F)
    ||| (b0 == 0xE3 && b1 == 0x80 && b2 == 0x80)
}

/// Width in bytes of the whitespace character starting at `i`, restricted to
/// the window `[i, to)`; 0 when none starts there. The two-byte encodings are
/// U+0085 and U+00A0.
pub open spec fn ws_width(s: Seq<u8>, i: int, to: int) -> int {
    if !(0 <= i && i < to && to <= s.len()) {
        0
    } else if is_ws1(s[i]) {
        1
    } else if i + 2 <= to && s[i] == 0xC2 && (s[i + 1] == 0x85 || s[i + 1] == 0xA0) {
        2
    } else if i + 3 <= to && is_ws3(s[i], s[i + 1], s[i + 2]) {
        3
    } else {
        0
    }
}

/// The cursor after skipping the run of whitespace characters starting at `i`
/// within `[i, to)`.
pub open spec fn spec_skip_ws(s: Seq<u8>, i: int, to: int) -> int
    decreases to - i,
{
    let w = ws_width(s, i, to);
    if w > 0 {
        spec_skip_ws(s, i + w, to)
    } else {
        i
    }
}

/// The end of the field starting at `i`: the first position in `[i, to)`
/// where a whitespace character starts, or `to`.
pub open spec fn spec_field_end(s: Seq<u8>, i: int, to: int) -> int
    decreases to - i,
{
    if !(0 <= i && i < to) {
        to
    } else if ws_width(s, i, to) > 0 {
        i
    } else {
        spec_field_end(s, i + 1, to)
    }
}

/// Walks `[i, to)` and returns one past the last byte that does not begin a
/// whitespace character, carrying `last` as the value so far.
pub open spec fn spec_trim_end(s: Seq<u8>, i: int, to: int, last: int) -> int
    decreases to - i,
{
    if !(0 <= i && i < to) {
        last
    } else {
        let w = ws_width(s, i, to);
        if w > 0 {
            spec_trim_end(s, i + w, to, last)
        } else {
            spec_trim_end(s, i + 1, to, i + 1)
        }
    }
}

/// The sub-range of `[i, to)` with leading and trailing whitespace removed;
/// the empty range `(to, to)` when the window holds only whitespace.
pub open spec fn spec_trim(s: Seq<u8>, i: int, to: int) -> (int, int) {
    let a = spec_skip_ws(s, i, to);
    if a >= to {
        (a, a)
    } else {
        (a, spec_trim_end(s, a, to, a))
    }
}

/// Width of the whitespace character starting at `i` within `[i, to)`, or 0.
pub fn ws_width_at(s: &[u8], i: usize, to: usize) -> (r: usize)
    requires
        i <= to,
        to <= s@.len(),
    ensures
        r == ws_width(s@, i as int, to as int),
        i + r <= to,
{
    if i >= to {
        return 0;
    }
    let b0 = s[i];
    if b0 == 9 || b0 == 10 || b0 == 11 || b0 == 12 || b0 == 13 || b0 == 32 {
        return 1;
    }
    if to - i >= 2 && b0 == 0xC2 {
        let b1 = s[i + 1];
        if b1 == 0x85 || b1 == 0xA0 {
            return 2;
        }
    }
    if to - i >= 3 && (b0 == 0xE1 || b0 == 0xE2 || b0 == 0xE3) {
        let b1 = s[i + 1];
        let b2 = s[i + 2];
        if (b0 == 0xE1 && b1 == 0x9A && b2 == 0x80) || (b0 == 0xE2 && b1 == 0x80 && (0x80 <= b2
            && b2 <= 0x8A || b2 == 0xA8 || b2 == 0xA9 || b2 == 0xAF)) || (b0 == 0xE2 && b1 == 0x81
            && b2 == 0x9F) || (b0 == 0xE3 && b1 == 0x80 && b2 == 0x80) {
            return 3;
        }
    }
    0
}

/// Advances `from` past the run of whitespace characters within `[from, to)`.
pub fn skip_ws(s: &[u8], from: usize, to: usize) -> (r: usize)
    requires
        from <= to,
        to <= s@.len(),
    ensures
        r == spec_skip_ws(s@, from as int, to as int),
        from <= r <= to,
        ws_width(s@, r as int, to as int) == 0,
{
    let mut i = from;
    loop
        invariant
            from <= i <= to,
            to <= s@.len(),
            spec_skip_ws(s@, from as int, to as int) == spec_skip_ws(s@, i as int, to as int),
        decreases to - i,
    {
        let w = ws_width_at(s, i, to);
        if w == 0 {
            return i;
        }
        i = i + w;
    }
}

/// The next whitespace-delimited field within `[from, to)`: the offsets of a
/// maximal run of non-whitespace characters, any leading whitespace skipped;
/// `None` when only whitespace remains.
pub fn next_field(s: &[u8], from: usize, to: usize) -> (r: Option<(usize, usize)>)
    requires
        from <= to,
        to <= s@.len(),
    ensures
        ({
            let a = spec_skip_ws(s@, from as int, to as int);
            match r {
                None => a == to,
                Some((st, en)) => {
                    &&& a < to
                    &&& st == a
                    &&& en == spec_field_end(s@, a, to as int)
                    &&& from <= st < en <= to
                },
            }
        }),
{
    let start = skip_ws(s, from, to);
    if start >= to {
        return None;
    }
    let mut i = start + 1;
    loop
        invariant
            from <= start < to,
            start == spec_skip_ws(s@, from as int, to as int),
            start < i <= to,
            to <= s@.len(),
            spec_field_end(s@, start as int, to as int) == spec_field_end(
                s@,
                i as int,
                to as int,
            ),
        decreases to - i,
    {
        if i >= to {
            return Some((start, i));
        }
        if ws_width_at(s, i, to) > 0 {
            return Some((start, i));
        }
        i = i + 1;
    }
}

/// Trims leading and trailing whitespace off `[from, to)`, returning the
/// remaining sub-range; `(to, to)` when the window is whitespace only.
pub fn trim_in(s: &[u8], from: usize, to: usize) -> (r: (usize, usize))
    requires
        from <= to,
        to <= s@.len(),
    ensures
        (r.0 as int, r.1 as int) == spec_trim(s@, from as int, to as int),
        from <= r.0 <= r.1 <= to,
{
    let a = skip_ws(s, from, to);
    if a >= to {
        return (a, a);
    }
    let mut i = a;
    let mut last = a;
    loop
        invariant
            from <= a < to,
            a == spec_skip_ws(s@, from as int, to as int),
            a <= last <= i <= to,
            to <= s@.len(),
            spec_trim_end(s@, a as int, to as int, a as int) == spec_trim_end(
                s@,
                i as int,
                to as int,
                last as int,
            ),
        decreases to - i,
    {
        if i >= to {
            return (a, last);
        }
        let w = ws_width_at(s, i, to);
        if w > 0 {
            i = i + w;
        } else {
            i = i + 1;
            last = i;
        }
    }
}

/// The position of the first line feed at or after `i`, or the buffer length
/// when none remains.
pub open spec fn spec_find_nl(s: Seq<u8>, i: int) -> int
    decreases s.len() - i,
{
    if !(0 <= i && i < s.len()) {
        s.len() as int
    } else if s[i] == 10 {
        i
    } else {
        spec_find_nl(s, i + 1)
    }
}

pub proof fn lemma_find_nl_bounds(s: Seq<u8>, i: int)
    requires
        0 <= i <= s.len(),
    ensures
        i <= spec_find_nl(s, i) <= s.len(),
    decreases s.len() - i,
{
    if i < s.len() && s[i] != 10 {
        lemma_find_nl_bounds(s, i + 1);
    }
}

/// Where the content of the line starting at `i` ends: at the buffer end when
/// no line feed remains, else before the line feed, or before a tab-extended
/// two-byte terminator.
pub open spec fn spec_line_content_end(s: Seq<u8>, i: int) -> int {
    let nl = spec_find_nl(s, i);
    if nl == s.len() {
        s.len() as int
    } else if nl > i && s[nl - 1] == 9 {
        nl - 1
    } else {
        nl
    }
}

/// Byte length of the terminator of the line starting at `i`: 0 at the buffer
/// end, 2 for a tab-extended terminator, 1 for a bare line feed.
pub open spec fn spec_line_term_len(s: Seq<u8>, i: int) -> int {
    let nl = spec_find_nl(s, i);
    if nl == s.len() {
        0
    } else if nl > i && s[nl - 1] == 9 {
        2
    } else {
        1
    }
}

/// Total byte length of the line starting at `i`, content and terminator.
pub open spec fn spec_line_total(s: Seq<u8>, i: int) -> int {
    let nl = spec_find_nl(s, i);
    if nl == s.len() {
        s.len() - i
    } else {
        nl + 1 - i
    }
}

/// Content end and terminator length of the line starting at `from`. The next
/// line starts at `r.0 + r.1`, which also equals `from` plus the line's total
/// length.
pub fn line_bounds(s: &[u8], from: usize) -> (r: (usize, usize))
    requires
        from <= s@.len(),
    ensures
        r.0 == spec_line_content_end(s@, from as int),
        r.1 == spec_line_term_len(s@, from as int),
        r.0 + r.1 == from + spec_line_total(s@, from as int),
        from <= r.0,
        r.0 + r.1 <= s@.len(),
        r.1 <= 2,
{
    let len = s.len();
    let mut i = from;
    loop
        invariant
            from <= i <= len,
            len == s@.len(),
            spec_find_nl(s@, from as int) == spec_find_nl(s@, i as int),
        decreases len - i,
    {
        if i >= len {
            return (len, 0);
        }
        if s[i] == 10 {
            if i > from && s[i - 1] == 9 {
                return (i - 1, 2);
            }
            return (i, 1);
        }
        i = i + 1;
    }
}

/// The index of the line feed of the first CR-LF pair whose line feed lies in
/// `[i, bound)`, or `None` when there is none. A bare line feed without a
/// preceding carriage return does not count.
pub open spec fn spec_find_crlf(s: Seq<u8>, i: int, bound: int) -> Option<int>
    decreases bound - i,
{
    if !(0 <= i && i < bound && bound <= s.len()) {
        None
    } else if i >= 1 && s[i] == 10 && s[i - 1] == 13 {
        Some(i)
    } else {
        spec_find_crlf(s, i + 1, bound)
    }
}

/// Finds the first CR-LF pair whose line feed lies in `[from, bound)`,
/// returning the index of its line feed.
pub fn find_crlf(s: &[u8], from: usize, bound: usize) -> (r: Option<usize>)
    requires
        bound <= s@.len(),
    ensures
        match r {
            Some(j) => spec_find_crlf(s@, from as int, bound as int) == Some(j as int) && 1 <= j
                < bound && from <= j && s@[j as int] == 10 && s@[j - 1] == 13,
            None => spec_find_crlf(s@, from as int, bound as int) is None,
        },
{
    let mut i = from;
    loop
        invariant
            from <= i,
            bound <= s@.len(),
            spec_find_crlf(s@, from as int, bound as int) == spec_find_crlf(
                s@,
                i as int,
                bound as int,
            ),
        decreases bound - i,
    {
        if i >= bound {
            return None;
        }
        if i >= 1 && s[i] == 10 && s[i - 1] == 13 {
            return Some(i);
        }
        i = i + 1;
    }
}

/// The index of the first three-byte fence marker (three backquotes) at or
/// after `i`, or `None` when none remains.
pub open spec fn spec_find_fence(s: Seq<u8>, i: int) -> Option<int>
    decreases s.len() - i,
{
    if !(0 <= i && i + 3 <= s.len()) {
        None
    } else if s[i] == 96 && s[i + 1] == 96 && s[i + 2] == 96 {
        Some(i)
    } else {
        spec_find_fence(s, i + 1)
    }
}

pub proof fn lemma_find_fence_bounds(s: Seq<u8>, i: int)
    requires
        0 <= i,
    ensures
        match spec_find_fence(s, i) {
            Some(j) => i <= j && j + 3 <= s.len(),
            None => true,
        },
    decreases s.len() - i,
{
    if 0 <= i && i + 3 <= s.len() && !(s[i] == 96 && s[i + 1] == 96 && s[i + 2] == 96) {
        lemma_find_fence_bounds(s, i + 1);
    }
}

/// Finds the first three-byte fence marker at or after `from`, at any
/// alignment, even in the middle of a line.
pub fn find_fence(s: &[u8], from: usize) -> (r: Option<usize>)
    requires
        from <= s@.len(),
    ensures
        match r {
            Some(j) => spec_find_fence(s@, from as int) == Some(j as int) && from <= j && j + 3
                <= s@.len(),
            None => spec_find_fence(s@, from as int) is None,
        },
{
    let len = s.len();
    let mut i = from;
    loop
        invariant
            from <= i <= len,
            len == s@.len(),
            spec_find_fence(s@, from as int) == spec_find_fence(s@, i as int),
        decreases len - i,
    {
        if len - i < 3 {
            return None;
        }
        if s[i] == 96 && s[i + 1] == 96 && s[i + 2] == 96 {
            return Some(i);
        }
        i = i + 1;
    }
}

/// Length of the run of number-sign bytes starting at `i` within `[i, to)`.
pub open spec fn spec_hash_run(s: Seq<u8>, i: int, to: int) -> int
    decreases to - i,
{
    if 0 <= i && i < to && to <= s.len() && s[i] == 35 {
        1 + spec_hash_run(s, i + 1, to)
    } else {
        0
    }
}

/// Counts the run of number-sign bytes starting at `from` within `[from, to)`.
pub fn hash_run(s: &[u8], from: usize, to: usize) -> (r: usize)
    requires
        from <= to,
        to <= s@.len(),
    ensures
        r == spec_hash_run(s@, from as int, to as int),
        from + r <= to,
{
    let mut i = from;
    loop
        invariant
            from <= i <= to,
            to <= s@.len(),
            spec_hash_run(s@, from as int, to as int) == i - from + spec_hash_run(
                s@,
                i as int,
                to as int,
            ),
        decreases to - i,
    {
        if i >= to || s[i] != 35 {
            return i - from;
        }
        i = i + 1;
    }
}

} // verus!
