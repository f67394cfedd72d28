//! The document block parser: classifies a byte buffer into typed content
//! blocks (text, links, preformatted regions, headings, lists, quotes) by
//! line-prefix rules, one block at a time, without copying.
//!
//! Every block's payload is a [`Span`]: a pair of byte offsets into the
//! buffer being parsed, so the caller resolves payloads against the buffer it
//! retains. Parsing is forward-only: each extracted block advances the
//! parser's cursor past the bytes it covered, and the extents of the yielded
//! blocks tile the buffer exactly (see [`lemma_blocks_reconstruct`]).

use vstd::prelude::*;

use crate::scan::{
    find_fence, hash_run, line_bounds, next_field, skip_ws, spec_field_end, spec_find_fence,
    spec_find_nl, spec_hash_run, spec_line_content_end, spec_line_total, spec_skip_ws, spec_trim,
    trim_in, lemma_find_nl_bounds, lemma_find_fence_bounds,
};

verus! {

/// A sub-range of the parsed buffer: the bytes at offsets `start..end`.
#[derive(Debug, Clone, Copy, PartialEq, Eq, Structural)]
pub struct Span {
    pub start: usize,
    pub end: usize,
}

/// A plain text line, taken verbatim (terminator excluded).
#[derive(Debug, Clone)]
pub struct TextBlock {
    pub content: Span,
}

/// A hyperlink line: the URL token and, when further content follows it on
/// the same line, the display name (terminator included).
#[derive(Debug, Clone)]
pub struct LinkBlock {
    pub url: Span,
    pub name: Option<Span>,
}

/// A fenced preformatted region: everything between the opening line's
/// terminator and the closing fence, with the opening line's remainder as an
/// optional alt-label.
#[derive(Debug, Clone)]
pub struct PreformattedBlock {
    pub content: Span,
    pub alt_content: Option<Span>,
}

/// A heading line: the trimmed name and the marker's repetition count (1-3).
#[derive(Debug, Clone)]
pub struct HeaderBlock {
    pub name: Span,
    pub level: i32,
}

/// A run of consecutive list-item lines, one trimmed item per line.
#[derive(Debug, Clone)]
pub struct ListBlock {
    pub items: Vec<Span>,
}

/// A quote line: the trimmed remainder after the quote marker.
#[derive(Debug, Clone)]
pub struct QuoteBlock {
    pub content: Span,
}

/// One classified unit of the document format.
#[derive(Debug, Clone)]
pub enum Block {
    Empty,
    Text(TextBlock),
    Link(LinkBlock),
    Preformatted(PreformattedBlock),
    Header(HeaderBlock),
    List(ListBlock),
    Quote(QuoteBlock),
}

/// The outcome of classifying the unconsumed prefix of the buffer.
#[derive(Debug, Clone, Copy, PartialEq, Eq, Structural)]
pub enum BlockKind {
    Link,
    Preformatted,
    Heading,
    List,
    Quote,
    Empty,
    Text,
}

/// The buffer at `i` begins with the two-byte link marker `=>`.
pub open spec fn starts_link(s: Seq<u8>, i: int) -> bool {
    0 <= i && i + 2 <= s.len() && s[i] == 61 && s[i + 1] == 62
}

/// The buffer at `i` begins with the three-byte fence marker.
pub open spec fn starts_fence(s: Seq<u8>, i: int) -> bool {
    0 <= i && i + 3 <= s.len() && s[i] == 96 && s[i + 1] == 96 && s[i + 2] == 96
}

/// The line at `i` begins with one to three number signs (more make it an
/// ordinary text line).
pub open spec fn starts_heading(s: Seq<u8>, i: int) -> bool {
    1 <= spec_hash_run(s, i, spec_line_content_end(s, i)) <= 3
}

/// The buffer at `i` begins with the two-byte list marker: a star and a
/// space.
pub open spec fn starts_list(s: Seq<u8>, i: int) -> bool {
    0 <= i && i + 2 <= s.len() && s[i] == 42 && s[i + 1] == 32
}

/// The buffer at `i` begins with the quote marker.
pub open spec fn starts_quote(s: Seq<u8>, i: int) -> bool {
    0 <= i && i < s.len() && s[i] == 62
}

/// The line at `i` has no non-whitespace content.
pub open spec fn blank_line(s: Seq<u8>, i: int) -> bool {
    spec_skip_ws(s, i, spec_line_content_end(s, i)) == spec_line_content_end(s, i)
}

/// Classification of the unconsumed prefix at `i`, in precedence order:
/// link, fence, heading, list, quote; otherwise the line stands alone, empty
/// when whitespace-only and text when not.
pub open spec fn spec_classify(s: Seq<u8>, i: int) -> BlockKind {
    if starts_link(s, i) {
        BlockKind::Link
    } else if starts_fence(s, i) {
        BlockKind::Preformatted
    } else if starts_heading(s, i) {
        BlockKind::Heading
    } else if starts_list(s, i) {
        BlockKind::List
    } else if starts_quote(s, i) {
        BlockKind::Quote
    } else if blank_line(s, i) {
        BlockKind::Empty
    } else {
        BlockKind::Text
    }
}

/// Where a run of consecutive list-item lines starting at `i` ends.
pub open spec fn spec_list_end(s: Seq<u8>, i: int) -> int
    decreases s.len() - i,
{
    if 0 <= i && i < s.len() && starts_list(s, i) {
        let t = spec_line_total(s, i);
        if 1 <= t && i + t <= s.len() {
            spec_list_end(s, i + t)
        } else {
            i
        }
    } else {
        i
    }
}

/// The trimmed item ranges of the consecutive list-item lines starting at
/// `i`, one per line.
pub open spec fn spec_list_items(s: Seq<u8>, i: int) -> Seq<(int, int)>
    decreases s.len() - i,
{
    if 0 <= i && i < s.len() && starts_list(s, i) {
        let t = spec_line_total(s, i);
        let item = spec_trim(s, i + 2, spec_line_content_end(s, i));
        if 1 <= t && i + t <= s.len() {
            seq![item] + spec_list_items(s, i + t)
        } else {
            seq![item]
        }
    } else {
        Seq::empty()
    }
}

/// Where the preformatted block whose opening fence stands at `i` ends: past
/// the line that holds the closing fence, or at the buffer end when no
/// closing fence remains.
pub open spec fn spec_pre_end(s: Seq<u8>, i: int) -> int {
    let cs = i + 3 + spec_line_total(s, i + 3);
    match spec_find_fence(s, cs) {
        None => s.len() as int,
        Some(f) => {
            let nl = spec_find_nl(s, f);
            if nl == s.len() {
                s.len() as int
            } else {
                nl + 1
            }
        },
    }
}

/// How many bytes the block starting at `i` consumes: its whole extent,
/// terminators included.
pub open spec fn spec_consumed(s: Seq<u8>, i: int) -> int {
    match spec_classify(s, i) {
        BlockKind::Preformatted => spec_pre_end(s, i) - i,
        BlockKind::List => spec_list_end(s, i) - i,
        _ => spec_line_total(s, i),
    }
}

/// The spans of a vector of [`Span`]s, as ghost offset pairs.
pub open spec fn spans_of(v: Seq<Span>) -> Seq<(int, int)> {
    v.map_values(|sp: Span| (sp.start as int, sp.end as int))
}

/// Full statement of what block stands at `i`: the variant follows the
/// classification and every payload field holds exactly the offsets the
/// format prescribes.
pub open spec fn spec_block_at(s: Seq<u8>, i: int, b: Block) -> bool {
    let ce = spec_line_content_end(s, i);
    match spec_classify(s, i) {
        BlockKind::Empty => b is Empty,
        BlockKind::Text => b matches Block::Text(t) && t.content.start == i && t.content.end
            == ce,
        BlockKind::Quote => b matches Block::Quote(q) && (
        q.content.start as int,
        q.content.end as int,
        ) == spec_trim(s, i + 1, ce),
        BlockKind::Heading => b matches Block::Header(h) && ({
            let k = spec_hash_run(s, i, ce);
            h.level == k && (h.name.start as int, h.name.end as int) == spec_trim(s, i + k, ce)
        }),
        BlockKind::List => b matches Block::List(l) && spans_of(l.items@) == spec_list_items(
            s,
            i,
        ),
        BlockKind::Link => b matches Block::Link(l) && ({
            let a = spec_skip_ws(s, i + 2, ce);
            let le = i + spec_line_total(s, i);
            if a >= ce {
                l.url.start == i + 2 && l.url.end == ce && l.name is None
            } else {
                let ue = spec_field_end(s, a, ce);
                &&& l.url.start == a
                &&& l.url.end == ue
                &&& ({
                    let c = spec_skip_ws(s, ue, ce);
                    if c < ce {
                        l.name matches Some(n) && n.start == c && n.end == le
                    } else {
                        l.name is None
                    }
                })
            }
        }),
        BlockKind::Preformatted => b matches Block::Preformatted(p) && ({
            let cea = spec_line_content_end(s, i + 3);
            let cs = i + 3 + spec_line_total(s, i + 3);
            &&& match p.alt_content {
                Some(sp) => cea > i + 3 && sp.start == i + 3 && sp.end == cea,
                None => cea == i + 3,
            }
            &&& p.content.start == cs
            &&& p.content.end == (match spec_find_fence(s, cs) {
                Some(f) => f,
                None => s.len() as int,
            })
        }),
    }
}

pub proof fn lemma_list_end_bounds(s: Seq<u8>, i: int)
    requires
        0 <= i <= s.len(),
    ensures
        i <= spec_list_end(s, i) <= s.len(),
    decreases s.len() - i,
{
    if i < s.len() && starts_list(s, i) {
        lemma_find_nl_bounds(s, i);
        let t = spec_line_total(s, i);
        if 1 <= t && i + t <= s.len() {
            lemma_list_end_bounds(s, i + t);
        }
    }
}

/// Every block consumes at least one byte and stays inside the buffer.
pub proof fn lemma_consumed_bounds(s: Seq<u8>, i: int)
    requires
        0 <= i < s.len(),
    ensures
        1 <= spec_consumed(s, i),
        i + spec_consumed(s, i) <= s.len(),
{
    lemma_find_nl_bounds(s, i);
    match spec_classify(s, i) {
        BlockKind::Preformatted => {
            lemma_find_nl_bounds(s, i + 3);
            let cs = i + 3 + spec_line_total(s, i + 3);
            lemma_find_fence_bounds(s, cs);
            match spec_find_fence(s, cs) {
                Some(f) => {
                    lemma_find_nl_bounds(s, f);
                },
                None => {},
            }
        },
        BlockKind::List => {
            let t = spec_line_total(s, i);
            lemma_list_end_bounds(s, i + t);
        },
        _ => {},
    }
}

impl TextBlock {
    /// Pure prefix test: any unconsumed byte makes a (default) text line.
    pub fn matches(s: &[u8], pos: usize) -> (r: bool)
        requires
            pos <= s@.len(),
        ensures
            r == (pos < s@.len()),
    {
        pos < s.len()
    }
}

impl LinkBlock {
    /// Pure prefix test for the two-byte link marker.
    pub fn matches(s: &[u8], pos: usize) -> (r: bool)
        requires
            pos <= s@.len(),
        ensures
            r == starts_link(s@, pos as int),
    {
        s.len() - pos >= 2 && s[pos] == 61 && s[pos + 1] == 62
    }
}

impl PreformattedBlock {
    /// Pure prefix test for the three-byte fence marker.
    pub fn matches(s: &[u8], pos: usize) -> (r: bool)
        requires
            pos <= s@.len(),
        ensures
            r == starts_fence(s@, pos as int),
    {
        s.len() - pos >= 3 && s[pos] == 96 && s[pos + 1] == 96 && s[pos + 2] == 96
    }
}

impl HeaderBlock {
    /// Pure prefix test: one to three leading number signs on the line.
    pub fn matches(s: &[u8], pos: usize) -> (r: bool)
        requires
            pos <= s@.len(),
        ensures
            r == starts_heading(s@, pos as int),
    {
        let (ce, _tl) = line_bounds(s, pos);
        let k = hash_run(s, pos, ce);
        1 <= k && k <= 3
    }
}

impl ListBlock {
    /// Pure prefix test for the two-byte list marker: a star and a space.
    pub fn matches(s: &[u8], pos: usize) -> (r: bool)
        requires
            pos <= s@.len(),
        ensures
            r == starts_list(s@, pos as int),
    {
        s.len() - pos >= 2 && s[pos] == 42 && s[pos + 1] == 32
    }
}

impl QuoteBlock {
    /// Pure prefix test for the quote marker.
    pub fn matches(s: &[u8], pos: usize) -> (r: bool)
        requires
            pos <= s@.len(),
        ensures
            r == starts_quote(s@, pos as int),
    {
        pos < s.len() && s[pos] == 62
    }
}

/// Extracts the default single-line block at `i`: empty when the line holds
/// only whitespace, text otherwise.
fn take_line_block(s: &[u8], i: usize) -> (r: (Block, usize))
    requires
        i < s@.len(),
        spec_classify(s@, i as int) == BlockKind::Text || spec_classify(s@, i as int)
            == BlockKind::Empty,
    ensures
        spec_block_at(s@, i as int, r.0),
        r.1 == i + spec_consumed(s@, i as int),
{
    let _n = s.len();
    let (ce, tl) = line_bounds(s, i);
    let a = skip_ws(s, i, ce);
    if a >= ce {
        (Block::Empty, ce + tl)
    } else {
        (Block::Text(TextBlock { content: Span { start: i, end: ce } }), ce + tl)
    }
}

/// Extracts the quote block at `i`: its single line, the remainder after the
/// marker trimmed.
fn take_quote(s: &[u8], i: usize) -> (r: (Block, usize))
    requires
        i < s@.len(),
        spec_classify(s@, i as int) == BlockKind::Quote,
    ensures
        spec_block_at(s@, i as int, r.0),
        r.1 == i + spec_consumed(s@, i as int),
{
    let _n = s.len();
    let (ce, tl) = line_bounds(s, i);
    proof {
        assert(spec_find_nl(s@, i as int) == spec_find_nl(s@, i + 1));
        lemma_find_nl_bounds(s@, i + 1);
    }
    let (a, b) = trim_in(s, i + 1, ce);
    (Block::Quote(QuoteBlock { content: Span { start: a, end: b } }), ce + tl)
}

/// Extracts the heading block at `i`: its single line, the marker's
/// repetition count as the level and the trimmed remainder as the name.
fn take_heading(s: &[u8], i: usize) -> (r: (Block, usize))
    requires
        i < s@.len(),
        spec_classify(s@, i as int) == BlockKind::Heading,
    ensures
        spec_block_at(s@, i as int, r.0),
        r.1 == i + spec_consumed(s@, i as int),
{
    let _n = s.len();
    let (ce, tl) = line_bounds(s, i);
    let k = hash_run(s, i, ce);
    let (a, b) = trim_in(s, i + k, ce);
    (Block::Header(HeaderBlock { name: Span { start: a, end: b }, level: k as i32 }), ce + tl)
}

/// Extracts the link block at `i`: the first whitespace-delimited field after
/// the marker is the URL; when a second field follows, the remainder of the
/// line from it on, terminator included, is the display name.
fn take_link(s: &[u8], i: usize) -> (r: (Block, usize))
    requires
        i < s@.len(),
        spec_classify(s@, i as int) == BlockKind::Link,
    ensures
        spec_block_at(s@, i as int, r.0),
        r.1 == i + spec_consumed(s@, i as int),
{
    let _n = s.len();
    let (ce, tl) = line_bounds(s, i);
    proof {
        assert(spec_find_nl(s@, i as int) == spec_find_nl(s@, i + 1));
        assert(spec_find_nl(s@, i + 1) == spec_find_nl(s@, i + 2));
        lemma_find_nl_bounds(s@, i + 2);
    }
    let le = ce + tl;
    match next_field(s, i + 2, ce) {
        None => (
            Block::Link(LinkBlock { url: Span { start: i + 2, end: ce }, name: None }),
            le,
        ),
        Some((a, b)) => {
            let c = skip_ws(s, b, ce);
            let name = if c < ce {
                Some(Span { start: c, end: le })
            } else {
                None
            };
            (Block::Link(LinkBlock { url: Span { start: a, end: b }, name }), le)
        },
    }
}

/// Extracts the preformatted block whose opening fence stands at `i`. The
/// rest of the opening line is the alt-label when non-empty; the content runs
/// from past the opening line's terminator to the closing fence, wherever it
/// appears; the closing line is consumed whole.
fn take_preformatted(s: &[u8], i: usize) -> (r: (Block, usize))
    requires
        i < s@.len(),
        spec_classify(s@, i as int) == BlockKind::Preformatted,
    ensures
        spec_block_at(s@, i as int, r.0),
        r.1 == i + spec_consumed(s@, i as int),
{
    let _n = s.len();
    let (cea, tla) = line_bounds(s, i + 3);
    let cs = cea + tla;
    let alt = if cea > i + 3 {
        Some(Span { start: i + 3, end: cea })
    } else {
        None
    };
    match find_fence(s, cs) {
        None => (
            Block::Preformatted(
                PreformattedBlock { content: Span { start: cs, end: s.len() }, alt_content: alt },
            ),
            s.len(),
        ),
        Some(f) => {
            let (cef, tlf) = line_bounds(s, f);
            (
                Block::Preformatted(
                    PreformattedBlock { content: Span { start: cs, end: f }, alt_content: alt },
                ),
                cef + tlf,
            )
        },
    }
}

/// Extracts the list block at `i`: consecutive list-marker lines accumulate
/// into one block, one trimmed item per line, stopping at the first line of
/// any other shape.
fn take_list(s: &[u8], i: usize) -> (r: (Block, usize))
    requires
        i < s@.len(),
        spec_classify(s@, i as int) == BlockKind::List,
    ensures
        spec_block_at(s@, i as int, r.0),
        r.1 == i + spec_consumed(s@, i as int),
{
    let len = s.len();
    let mut items: Vec<Span> = Vec::new();
    let mut cur = i;
    loop
        invariant
            i <= cur <= len,
            len == s@.len(),
            spec_classify(s@, i as int) == BlockKind::List,
            spec_list_end(s@, i as int) == spec_list_end(s@, cur as int),
            spec_list_items(s@, i as int) =~= spans_of(items@) + spec_list_items(s@, cur as int),
        decreases len - cur,
    {
        if len - cur < 2 || !(s[cur] == 42 && s[cur + 1] == 32) {
            proof {
                assert(!starts_list(s@, cur as int));
                assert(spec_list_items(s@, cur as int) =~= Seq::<(int, int)>::empty());
                assert(spec_list_items(s@, i as int) =~= spans_of(items@));
            }
            return (Block::List(ListBlock { items }), cur);
        }
        let (ce, tl) = line_bounds(s, cur);
        proof {
            assert(spec_find_nl(s@, cur as int) == spec_find_nl(s@, cur + 1));
            assert(spec_find_nl(s@, cur + 1) == spec_find_nl(s@, cur + 2));
            lemma_find_nl_bounds(s@, cur + 2);
        }
        let (a, b) = trim_in(s, cur + 2, ce);
        let ghost items_pre = items@;
        items.push(Span { start: a, end: b });
        proof {
            assert(spans_of(items@) =~= spans_of(items_pre) + seq![(a as int, b as int)]);
        }
        cur = ce + tl;
    }
}

/// The forward-only block parser: owns the buffer and a cursor, and hands
/// out one classified block per call, advancing past its extent.
pub struct BlockParser {
    data: Vec<u8>,
    pos: usize,
}

impl BlockParser {
    /// The bytes being parsed.
    pub closed spec fn buf(&self) -> Seq<u8> {
        self.data@
    }

    /// The cursor: everything before it has already been handed out.
    pub closed spec fn cursor(&self) -> int {
        self.pos as int
    }

    /// Well-formed: the cursor lies within the buffer.
    pub open spec fn wf(&self) -> bool {
        self.cursor() <= self.buf().len()
    }

    /// Starts a parser over `body`, positioned at its beginning.
    pub fn new(body: Vec<u8>) -> (r: BlockParser)
        ensures
            r.buf() == body@,
            r.cursor() == 0,
            r.wf(),
    {
        BlockParser { data: body, pos: 0 }
    }

    /// The current cursor: the offset at which the next block's extent
    /// starts. The bytes between the cursors before and after a
    /// [`BlockParser::next_block`] call are that block's extent.
    pub fn position(&self) -> (r: usize)
        ensures
            r == self.cursor(),
    {
        self.pos
    }

    /// Extracts the next block, advancing the cursor past its extent; `None`
    /// exactly when the buffer is exhausted, so an empty buffer yields no
    /// blocks at all. Malformed lines never fail: they degrade to text or
    /// empty blocks.
    pub fn next_block(&mut self) -> (r: Option<Block>)
        requires
            old(self).wf(),
        ensures
            final(self).wf(),
            final(self).buf() == old(self).buf(),
            r is None <==> old(self).cursor() == old(self).buf().len(),
            r is None ==> final(self).cursor() == old(self).cursor(),
            r matches Some(b) ==> final(self).cursor() == old(self).cursor() + spec_consumed(
                old(self).buf(),
                old(self).cursor(),
            ) && spec_block_at(old(self).buf(), old(self).cursor(), b),
    {
        let i = self.pos;
        if i >= self.data.len() {
            return None;
        }
        proof {
            lemma_consumed_bounds(self.data@, i as int);
        }
        let s = self.data.as_slice();
        let (b, np) = if LinkBlock::matches(s, i) {
            take_link(s, i)
        } else if PreformattedBlock::matches(s, i) {
            take_preformatted(s, i)
        } else if HeaderBlock::matches(s, i) {
            take_heading(s, i)
        } else if ListBlock::matches(s, i) {
            take_list(s, i)
        } else if QuoteBlock::matches(s, i) {
            take_quote(s, i)
        } else {
            take_line_block(s, i)
        };
        self.pos = np;
        Some(b)
    }
}


/// Concatenation of the original byte extents of the successive blocks from
/// `i` on, each extent covering the block's consumed bytes, terminators
/// included.
pub open spec fn spec_extents_concat(s: Seq<u8>, i: int) -> Seq<u8>
    decreases s.len() - i,
{
    if 0 <= i && i < s.len() {
        let c = spec_consumed(s, i);
        if 1 <= c && i + c <= s.len() {
            s.subrange(i, i + c) + spec_extents_concat(s, i + c)
        } else {
            Seq::empty()
        }
    } else {
        Seq::empty()
    }
}

pub proof fn lemma_extents_reconstruct_from(s: Seq<u8>, i: int)
    requires
        0 <= i <= s.len(),
    ensures
        spec_extents_concat(s, i) == s.subrange(i, s.len() as int),
    decreases s.len() - i,
{
    if i < s.len() {
        lemma_consumed_bounds(s, i);
        let c = spec_consumed(s, i);
        lemma_extents_reconstruct_from(s, i + c);
        assert(s.subrange(i, i + c) + s.subrange(i + c, s.len() as int) =~= s.subrange(
            i,
            s.len() as int,
        ));
    } else {
        assert(s.subrange(i, s.len() as int) =~= Seq::<u8>::empty());
    }
}

/// Round-trip law: for any buffer, concatenating each yielded block's
/// original byte extent — the bytes between the cursor positions before and
/// after its extraction, consumed terminators included — reconstructs the
/// buffer exactly. `next_block`'s contract places each extent at
/// `spec_consumed` bytes from the previous cursor, and those extents tile
/// the buffer.
pub proof fn lemma_blocks_reconstruct(s: Seq<u8>)
    ensures
        spec_extents_concat(s, 0) == s,
{
    lemma_extents_reconstruct_from(s, 0);
    assert(s.subrange(0, s.len() as int) =~= s);
}

} // verus!
