//! The template parser.  A template's text is scanned for one optional
//! inheritance declaration `{% extends "parent" %}` and for block
//! declarations `{% block name | filter | ... %}inner{% endblock name %}`.
//! The grammar is fixed here as spec functions over character
//! sequences; the executable scanner is proved to return exactly what
//! they describe.
//!
//! Whitespace inside markers is tolerated.  A parent name runs to the
//! next quote and may not span lines.  A marker's name-and-filters
//! segment runs to the next `%}` and may not span lines once trimmed.
use crate::error::{ErrSpec, TplError};
use crate::filters::{filter_of_name, parse_filter, Filter};
use crate::template::{Block, BlockV, Template};
use crate::text::{
    copy_range, has_char,
    chars_of, find_from, is_ws, lit_at, string_of, trim_seq, ws_run_len,
};
use vstd::prelude::*;

verus! {

pub open spec fn marker_open() -> Seq<char> {
    seq!['{', '%']
}

pub open spec fn marker_close() -> Seq<char> {
    seq!['%', '}']
}

pub open spec fn kw_extends() -> Seq<char> {
    seq!['e', 'x', 't', 'e', 'n', 'd', 's']
}

pub open spec fn kw_block() -> Seq<char> {
    seq!['b', 'l', 'o', 'c', 'k']
}

pub open spec fn kw_endblock() -> Seq<char> {
    seq!['e', 'n', 'd', 'b', 'l', 'o', 'c', 'k']
}

/// Facts about `find_from`: a hit is the first occurrence at or after
/// `i` and lies inside `s`; a miss means there is none.
pub proof fn lemma_find_from(s: Seq<char>, pat: Seq<char>, i: int)
    requires
        0 <= i,
    ensures
        match find_from(s, pat, i) {
            Some(j) => {
                &&& i <= j
                &&& j + pat.len() <= s.len()
                &&& (pat.len() > 0 ==> lit_at(s, j, pat))
                &&& forall|k: int| i <= k < j ==> !lit_at(s, k, pat)
            },
            None => forall|k: int| i <= k ==> !lit_at(s, k, pat),
        },
    decreases s.len() - i,
{
    if i + pat.len() > s.len() {
        assert forall|k: int| i <= k implies !lit_at(s, k, pat) by {}
    } else if pat.len() == 0 || lit_at(s, i, pat) {
    } else {
        lemma_find_from(s, pat, i + 1);
    }
}

/// The inheritance declaration beginning exactly at `i`: its parent
/// name and the index just past the closing marker.  `None` when no
/// such declaration starts at `i`.
pub open spec fn try_extends(s: Seq<char>, i: int) -> Option<(Seq<char>, int)> {
    if !lit_at(s, i, marker_open()) {
        None
    } else {
        let j = i + 2 + ws_run_len(s, i + 2);
        if !lit_at(s, j, kw_extends()) {
            None
        } else {
            let k = j + 7 + ws_run_len(s, j + 7);
            if !(k < s.len() && s[k] == '"') {
                None
            } else {
                match find_from(s, seq!['"'], k + 1) {
                    None => None,
                    Some(q) => {
                        let name = s.subrange(k + 1, q);
                        if name.contains('\n') {
                            None
                        } else {
                            let m = q + 1 + ws_run_len(s, q + 1);
                            if lit_at(s, m, marker_close()) {
                                Some((name, m + 2))
                            } else {
                                None
                            }
                        }
                    },
                }
            }
        }
    }
}

/// An inheritance declaration spans at least one character and ends
/// inside the text.
pub proof fn lemma_try_extends_bounds(s: Seq<char>, i: int)
    ensures
        match try_extends(s, i) {
            Some((name, end)) => 0 <= i < end <= s.len(),
            None => true,
        },
{
    if lit_at(s, i, marker_open()) {
        let j = i + 2 + ws_run_len(s, i + 2);
        if lit_at(s, j, kw_extends()) {
            let k = j + 7 + ws_run_len(s, j + 7);
            if k < s.len() && s[k] == '"' {
                lemma_find_from(s, seq!['"'], k + 1);
            }
        }
    }
}

/// All parent names declared in `s` at or after `i`, in order.
pub open spec fn extends_names(s: Seq<char>, i: int) -> Seq<Seq<char>>
    decreases s.len() - i,
    via extends_names_decreases
{
    if i < 0 {
        extends_names(s, 0)
    } else if i >= s.len() {
        seq![]
    } else {
        match try_extends(s, i) {
            Some((name, end)) => seq![name] + extends_names(s, end),
            None => extends_names(s, i + 1),
        }
    }
}

#[via_fn]
proof fn extends_names_decreases(s: Seq<char>, i: int) {
    lemma_try_extends_bounds(s, i);
}

/// An opening block marker beginning exactly at `i`: its trimmed
/// name-and-filters segment and the index just past the marker.
pub open spec fn try_block_open(s: Seq<char>, i: int) -> Option<(Seq<char>, int)> {
    if !lit_at(s, i, marker_open()) {
        None
    } else {
        let j = i + 2 + ws_run_len(s, i + 2);
        if !lit_at(s, j, kw_block()) {
            None
        } else {
            let h = j + 5;
            if !(h < s.len() && is_ws(s[h])) {
                None
            } else {
                match find_from(s, marker_close(), h) {
                    None => None,
                    Some(e) => {
                        let header = trim_seq(s.subrange(h, e));
                        if header.contains('\n') {
                            None
                        } else {
                            Some((header, e + 2))
                        }
                    },
                }
            }
        }
    }
}

/// An opening block marker spans at least one character and ends
/// inside the text.
pub proof fn lemma_try_block_open_bounds(s: Seq<char>, i: int)
    ensures
        match try_block_open(s, i) {
            Some((header, end)) => 0 <= i < end <= s.len(),
            None => true,
        },
{
    if lit_at(s, i, marker_open()) {
        let j = i + 2 + ws_run_len(s, i + 2);
        if lit_at(s, j, kw_block()) {
            let h = j + 5;
            if h < s.len() && is_ws(s[h]) {
                lemma_find_from(s, marker_close(), h);
            }
        }
    }
}

/// A closing block marker beginning exactly at `i`: its trimmed name
/// and the index just past the marker.
pub open spec fn try_endblock(s: Seq<char>, i: int) -> Option<(Seq<char>, int)> {
    if !lit_at(s, i, marker_open()) {
        None
    } else {
        let j = i + 2 + ws_run_len(s, i + 2);
        if !lit_at(s, j, kw_endblock()) {
            None
        } else {
            let h = j + 8;
            if !(h < s.len() && is_ws(s[h])) {
                None
            } else {
                match find_from(s, marker_close(), h) {
                    None => None,
                    Some(e) => {
                        let name = trim_seq(s.subrange(h, e));
                        if name.contains('\n') {
                            None
                        } else {
                            Some((name, e + 2))
                        }
                    },
                }
            }
        }
    }
}

/// A closing block marker spans at least one character and ends inside
/// the text.
pub proof fn lemma_try_endblock_bounds(s: Seq<char>, i: int)
    ensures
        match try_endblock(s, i) {
            Some((name, end)) => 0 <= i < end <= s.len(),
            None => true,
        },
{
    if lit_at(s, i, marker_open()) {
        let j = i + 2 + ws_run_len(s, i + 2);
        if lit_at(s, j, kw_endblock()) {
            let h = j + 8;
            if h < s.len() && is_ws(s[h]) {
                lemma_find_from(s, marker_close(), h);
            }
        }
    }
}

/// The first closing block marker at or after `i`: its start, its
/// trimmed name and the index just past it.
pub open spec fn find_endblock(s: Seq<char>, i: int) -> Option<(int, Seq<char>, int)>
    decreases s.len() - i,
{
    if i < 0 {
        find_endblock(s, 0)
    } else if i >= s.len() {
        None
    } else {
        match try_endblock(s, i) {
            Some((name, end)) => Some((i, name, end)),
            None => find_endblock(s, i + 1),
        }
    }
}

/// A found closing marker lies between `i` and the end of the text.
pub proof fn lemma_find_endblock_bounds(s: Seq<char>, i: int)
    requires
        0 <= i,
    ensures
        match find_endblock(s, i) {
            Some((c, name, end)) => i <= c < end <= s.len(),
            None => true,
        },
    decreases s.len() - i,
{
    if i < s.len() {
        lemma_try_endblock_bounds(s, i);
        if try_endblock(s, i) is None {
            lemma_find_endblock_bounds(s, i + 1);
        }
    }
}

/// Spec-level image of one raw block declaration as matched in the
/// text, before validation.
pub struct RawBlockV {
    /// The trimmed name-and-filters segment of the opening marker.
    pub header: Seq<char>,
    /// The text strictly between opening and closing markers.
    pub inner: Seq<char>,
    /// The whole span, opening marker through closing marker.
    pub outer: Seq<char>,
    /// The closing marker's own text.
    pub closer: Seq<char>,
    /// The trimmed name carried by the closing marker.
    pub end_name: Seq<char>,
}

/// The block declaration beginning exactly at `i`, raw, with the index
/// just past it: an opening marker followed by the first closing
/// marker anywhere after it.
pub open spec fn try_block(s: Seq<char>, i: int) -> Option<(RawBlockV, int)> {
    match try_block_open(s, i) {
        None => None,
        Some((header, oend)) => match find_endblock(s, oend) {
            None => None,
            Some((c, end_name, cend)) => Some(
                (
                    RawBlockV {
                        header,
                        inner: s.subrange(oend, c),
                        outer: s.subrange(i, cend),
                        closer: s.subrange(c, cend),
                        end_name,
                    },
                    cend,
                ),
            ),
        },
    }
}

/// A block declaration spans at least one character, ends inside the
/// text, and its outer span is non-empty.
pub proof fn lemma_try_block_bounds(s: Seq<char>, i: int)
    ensures
        match try_block(s, i) {
            Some((r, end)) => 0 <= i < end <= s.len() && r.outer.len() > 0 && r.closer.len() > 0,
            None => true,
        },
{
    lemma_try_block_open_bounds(s, i);
    match try_block_open(s, i) {
        None => {},
        Some((header, oend)) => {
            lemma_find_endblock_bounds(s, oend);
        },
    }
}

/// All raw block declarations in `s` at or after `i`, in order,
/// non-overlapping: after a match the scan continues just past it.
pub open spec fn raw_blocks(s: Seq<char>, i: int) -> Seq<RawBlockV>
    decreases s.len() - i,
    via raw_blocks_decreases
{
    if i < 0 {
        raw_blocks(s, 0)
    } else if i >= s.len() {
        seq![]
    } else {
        match try_block(s, i) {
            Some((r, end)) => seq![r] + raw_blocks(s, end),
            None => raw_blocks(s, i + 1),
        }
    }
}

#[via_fn]
proof fn raw_blocks_decreases(s: Seq<char>, i: int) {
    lemma_try_block_bounds(s, i);
}

/// Number of non-overlapping occurrences of `pat` in `s` at or after
/// `i`, scanning left to right.
pub open spec fn count_from(s: Seq<char>, pat: Seq<char>, i: int) -> nat
    decreases s.len() - i,
{
    if i < 0 {
        count_from(s, pat, 0)
    } else if pat.len() == 0 || i + pat.len() > s.len() {
        0
    } else if lit_at(s, i, pat) {
        1 + count_from(s, pat, i + pat.len())
    } else {
        count_from(s, pat, i + 1)
    }
}

/// The segments of `s` between `|` separators, in order.
pub open spec fn split_pipe(s: Seq<char>) -> Seq<Seq<char>>
    decreases s.len(),
    via split_pipe_decreases
{
    match find_from(s, seq!['|'], 0) {
        None => seq![s],
        Some(o) => seq![s.subrange(0, o)] + split_pipe(s.subrange(o + 1, s.len() as int)),
    }
}

#[via_fn]
proof fn split_pipe_decreases(s: Seq<char>) {
    lemma_find_from(s, seq!['|'], 0);
}

/// The block name a raw declaration carries: the first `|`-segment of
/// its header, trimmed.
pub open spec fn raw_name(r: RawBlockV) -> Seq<char> {
    trim_seq(split_pipe(r.header)[0])
}

/// The filter tokens a raw declaration carries: the remaining
/// `|`-segments of its header, each trimmed.
pub open spec fn raw_filter_tokens(r: RawBlockV) -> Seq<Seq<char>> {
    split_pipe(r.header).skip(1).map_values(|t: Seq<char>| trim_seq(t))
}

/// The first token that names no valid filter, if any.
pub open spec fn first_invalid(toks: Seq<Seq<char>>) -> Option<Seq<char>>
    decreases toks.len(),
{
    if toks.len() == 0 {
        None
    } else if filter_of_name(toks[0]) is None {
        Some(toks[0])
    } else {
        first_invalid(toks.skip(1))
    }
}

/// The filters the tokens name, in order; meaningful when all tokens
/// are valid.
pub open spec fn tokens_filters(toks: Seq<Seq<char>>) -> Seq<Filter>
    decreases toks.len(),
{
    if toks.len() == 0 {
        seq![]
    } else {
        match filter_of_name(toks[0]) {
            Some(f) => seq![f] + tokens_filters(toks.skip(1)),
            None => tokens_filters(toks.skip(1)),
        }
    }
}

/// Validate and assemble the raw declarations of the template named
/// `ident` from index `k` on, with the blocks accepted so far.  For
/// each declaration, in this order: an unknown filter token is fatal;
/// the closing name must equal the opening name; a name already
/// accepted is a duplicate; a closing marker that occurs more than
/// once in the document is a duplicate.
pub open spec fn assemble(
    ident: Seq<char>,
    s: Seq<char>,
    raws: Seq<RawBlockV>,
    k: int,
    acc: Seq<BlockV>,
) -> Result<Seq<BlockV>, ErrSpec>
    decreases raws.len() - k,
{
    if !(0 <= k < raws.len()) {
        Ok(acc)
    } else {
        let r = raws[k];
        let toks = raw_filter_tokens(r);
        match first_invalid(toks) {
            Some(t) => Err(ErrSpec::UnknownFilter { filter: t, template: ident }),
            None => {
                let name = raw_name(r);
                if name != r.end_name {
                    Err(
                        ErrSpec::MismatchedBlockName {
                            open: name,
                            close: r.end_name,
                            template: ident,
                        },
                    )
                } else if exists|j: int| 0 <= j < acc.len() && acc[j].name == name {
                    Err(ErrSpec::DuplicateBlock { block: name, template: ident })
                } else if count_from(s, r.closer, 0) > 1 {
                    Err(ErrSpec::DuplicateBlock { block: name, template: ident })
                } else {
                    assemble(
                        ident,
                        s,
                        raws,
                        k + 1,
                        acc + seq![
                            BlockV {
                                name,
                                filters: tokens_filters(toks),
                                outer: r.outer,
                                inner: r.inner,
                            },
                        ],
                    )
                }
            },
        }
    }
}

/// The validated blocks of the template named `ident` with text `s`,
/// or its first block error.
pub open spec fn parse_blocks_spec(ident: Seq<char>, s: Seq<char>) -> Result<Seq<BlockV>, ErrSpec> {
    assemble(ident, s, raw_blocks(s, 0), 0, seq![])
}

/// The full parse of a template text: its declared parent (none or
/// one; more is fatal) and its validated blocks.
pub open spec fn parse_spec(ident: Seq<char>, s: Seq<char>) -> Result<
    (Option<Seq<char>>, Seq<BlockV>),
    ErrSpec,
> {
    let exts = extends_names(s, 0);
    if exts.len() > 1 {
        Err(ErrSpec::MultipleExtends { template: ident })
    } else {
        match parse_blocks_spec(ident, s) {
            Err(e) => Err(e),
            Ok(bs) => Ok(
                (
                    if exts.len() == 1 {
                        Some(exts[0])
                    } else {
                        None
                    },
                    bs,
                ),
            ),
        }
    }
}

/// The parse of a page (child) template.  The inheritance declaration
/// is checked first, as the structure of a page demands: none at all
/// is fatal, more than one is fatal; only then are the blocks
/// validated.
pub open spec fn parse_page_spec(ident: Seq<char>, s: Seq<char>) -> Result<
    (Seq<char>, Seq<BlockV>),
    ErrSpec,
> {
    let exts = extends_names(s, 0);
    if exts.len() == 0 {
        Err(ErrSpec::MissingExtends { template: ident })
    } else if exts.len() > 1 {
        Err(ErrSpec::MultipleExtends { template: ident })
    } else {
        match parse_blocks_spec(ident, s) {
            Err(e) => Err(e),
            Ok(bs) => Ok((exts[0], bs)),
        }
    }
}

/// Every raw block declaration found in a text has a non-empty outer
/// span and a non-empty closing marker.
pub proof fn lemma_raw_blocks_wf(s: Seq<char>, i: int)
    ensures
        forall|k: int|
            0 <= k < raw_blocks(s, i).len() ==> (#[trigger] raw_blocks(s, i)[k]).outer.len() > 0
                && raw_blocks(s, i)[k].closer.len() > 0,
    decreases s.len() - i,
{
    if i < 0 {
        lemma_raw_blocks_wf(s, 0);
        assert forall|k: int| 0 <= k < raw_blocks(s, i).len() implies (#[trigger] raw_blocks(
            s,
            i,
        )[k]).outer.len() > 0 && raw_blocks(s, i)[k].closer.len() > 0 by {
            assert(raw_blocks(s, i)[k] == raw_blocks(s, 0)[k]);
        }
    } else if i >= s.len() {
    } else {
        lemma_try_block_bounds(s, i);
        match try_block(s, i) {
            Some((r, end)) => {
                lemma_raw_blocks_wf(s, end);
                assert forall|k: int| 0 <= k < raw_blocks(s, i).len() implies (#[trigger] raw_blocks(
                    s,
                    i,
                )[k]).outer.len() > 0 && raw_blocks(s, i)[k].closer.len() > 0 by {
                    if k > 0 {
                        assert(raw_blocks(s, i)[k] == raw_blocks(s, end)[k - 1]);
                    }
                }
            },
            None => {
                lemma_raw_blocks_wf(s, i + 1);
                assert forall|k: int| 0 <= k < raw_blocks(s, i).len() implies (#[trigger] raw_blocks(
                    s,
                    i,
                )[k]).outer.len() > 0 && raw_blocks(s, i)[k].closer.len() > 0 by {
                    assert(raw_blocks(s, i)[k] == raw_blocks(s, i + 1)[k]);
                }
            },
        }
    }
}

/// Advance past the run of whitespace that starts at `i`.
fn skip_ws(s: &Vec<char>, i: usize) -> (r: usize)
    requires
        i <= s@.len(),
    ensures
        r as int == i + ws_run_len(s@, i as int),
        i <= r <= s@.len(),
{
    let mut j: usize = i;
    while j < s.len() && crate::text::is_ws_exec(s[j])
        invariant
            i <= j <= s@.len(),
            ws_run_len(s@, i as int) == (j - i) + ws_run_len(s@, j as int),
        decreases s@.len() - j,
    {
        j = j + 1;
    }
    j
}

/// Match an inheritance declaration starting at `i`.
fn try_extends_exec(s: &Vec<char>, i: usize) -> (r: Option<(Vec<char>, usize)>)
    ensures
        match r {
            Some((name, end)) => try_extends(s@, i as int) == Some((name@, end as int)),
            None => try_extends(s@, i as int) is None,
        },
{
    let n = s.len();
    let mo: Vec<char> = vec!['{', '%'];
    if !crate::text::lit_at_exec(s, i, &mo) {
        return None;
    }
    let j = skip_ws(s, i + 2);
    let kwe: Vec<char> = vec!['e', 'x', 't', 'e', 'n', 'd', 's'];
    if !crate::text::lit_at_exec(s, j, &kwe) {
        return None;
    }
    let k = skip_ws(s, j + 7);
    if !(k < n && s[k] == '"') {
        return None;
    }
    let quote: Vec<char> = vec!['"'];
    proof {
        assert(quote@ =~= seq!['"']);
    }
    match crate::text::find_from_exec(s, &quote, k + 1) {
        None => None,
        Some(q) => {
            proof {
                lemma_find_from(s@, quote@, k + 1);
            }
            let name = copy_range(s, k + 1, q);
            if has_char(&name, '\n') {
                return None;
            }
            let m = skip_ws(s, q + 1);
            let mc: Vec<char> = vec!['%', '}'];
            if crate::text::lit_at_exec(s, m, &mc) {
                Some((name, m + 2))
            } else {
                None
            }
        },
    }
}

/// Match an opening block marker starting at `i`.
fn try_block_open_exec(s: &Vec<char>, i: usize) -> (r: Option<(Vec<char>, usize)>)
    ensures
        match r {
            Some((header, end)) => try_block_open(s@, i as int) == Some((header@, end as int)),
            None => try_block_open(s@, i as int) is None,
        },
{
    let n = s.len();
    let mo: Vec<char> = vec!['{', '%'];
    if !crate::text::lit_at_exec(s, i, &mo) {
        return None;
    }
    let j = skip_ws(s, i + 2);
    let kwb: Vec<char> = vec!['b', 'l', 'o', 'c', 'k'];
    if !crate::text::lit_at_exec(s, j, &kwb) {
        return None;
    }
    let h = j + 5;
    if !(h < n && crate::text::is_ws_exec(s[h])) {
        return None;
    }
    let mc: Vec<char> = vec!['%', '}'];
    match crate::text::find_from_exec(s, &mc, h) {
        None => None,
        Some(e) => {
            proof {
                lemma_find_from(s@, mc@, h as int);
            }
            let raw = copy_range(s, h, e);
            let header = crate::text::trim_exec(&raw);
            if has_char(&header, '\n') {
                None
            } else {
                Some((header, e + 2))
            }
        },
    }
}

/// Match a closing block marker starting at `i`.
fn try_endblock_exec(s: &Vec<char>, i: usize) -> (r: Option<(Vec<char>, usize)>)
    ensures
        match r {
            Some((name, end)) => try_endblock(s@, i as int) == Some((name@, end as int)),
            None => try_endblock(s@, i as int) is None,
        },
{
    let n = s.len();
    let mo: Vec<char> = vec!['{', '%'];
    if !crate::text::lit_at_exec(s, i, &mo) {
        return None;
    }
    let j = skip_ws(s, i + 2);
    let kwe: Vec<char> = vec!['e', 'n', 'd', 'b', 'l', 'o', 'c', 'k'];
    if !crate::text::lit_at_exec(s, j, &kwe) {
        return None;
    }
    let h = j + 8;
    if !(h < n && crate::text::is_ws_exec(s[h])) {
        return None;
    }
    let mc: Vec<char> = vec!['%', '}'];
    match crate::text::find_from_exec(s, &mc, h) {
        None => None,
        Some(e) => {
            proof {
                lemma_find_from(s@, mc@, h as int);
            }
            let raw = copy_range(s, h, e);
            let name = crate::text::trim_exec(&raw);
            if has_char(&name, '\n') {
                None
            } else {
                Some((name, e + 2))
            }
        },
    }
}

/// Find the first closing block marker at or after `i`.
fn find_endblock_exec(s: &Vec<char>, i: usize) -> (r: Option<(usize, Vec<char>, usize)>)
    ensures
        match r {
            Some((c, name, end)) => find_endblock(s@, i as int) == Some(
                (c as int, name@, end as int),
            ),
            None => find_endblock(s@, i as int) is None,
        },
{
    let mut j: usize = i;
    loop
        invariant
            i <= j,
            find_endblock(s@, i as int) == find_endblock(s@, j as int),
        decreases s@.len() + 1 - j,
    {
        if j >= s.len() {
            return None;
        }
        match try_endblock_exec(s, j) {
            Some((name, end)) => {
                return Some((j, name, end));
            },
            None => {
                j = j + 1;
            },
        }
    }
}

/// One raw block declaration as matched in the text, before
/// validation.
struct RawBlock {
    header: Vec<char>,
    inner: Vec<char>,
    outer: Vec<char>,
    closer: Vec<char>,
    end_name: Vec<char>,
}

impl View for RawBlock {
    type V = RawBlockV;

    closed spec fn view(&self) -> RawBlockV {
        RawBlockV {
            header: self.header@,
            inner: self.inner@,
            outer: self.outer@,
            closer: self.closer@,
            end_name: self.end_name@,
        }
    }
}

/// The views of a sequence of raw declarations.
spec fn raws_view(v: Seq<RawBlock>) -> Seq<RawBlockV> {
    Seq::new(v.len(), |k: int| v[k]@)
}

/// Match a whole block declaration starting at `i`.
fn try_block_exec(s: &Vec<char>, i: usize) -> (r: Option<(RawBlock, usize)>)
    ensures
        match r {
            Some((raw, end)) => try_block(s@, i as int) == Some((raw@, end as int)),
            None => try_block(s@, i as int) is None,
        },
{
    match try_block_open_exec(s, i) {
        None => None,
        Some((header, oend)) => {
            proof {
                lemma_try_block_open_bounds(s@, i as int);
            }
            match find_endblock_exec(s, oend) {
                None => None,
                Some((c, end_name, cend)) => {
                    proof {
                        lemma_find_endblock_bounds(s@, oend as int);
                    }
                    let inner = copy_range(s, oend, c);
                    let outer = copy_range(s, i, cend);
                    let closer = copy_range(s, c, cend);
                    Some((RawBlock { header, inner, outer, closer, end_name }, cend))
                },
            }
        },
    }
}

/// Collect every raw block declaration in the text, in order.
fn scan_blocks(s: &Vec<char>) -> (r: Vec<RawBlock>)
    ensures
        raws_view(r@) == raw_blocks(s@, 0),
{
    let mut out: Vec<RawBlock> = Vec::new();
    let mut i: usize = 0;
    while i < s.len()
        invariant
            i <= s@.len(),
            raws_view(out@) + raw_blocks(s@, i as int) == raw_blocks(s@, 0),
        decreases s@.len() - i,
    {
        match try_block_exec(s, i) {
            Some((raw, end)) => {
                proof {
                    lemma_try_block_bounds(s@, i as int);
                }
                let ghost rv = raw@;
                out.push(raw);
                proof {
                    assert(raws_view(out@) =~= raws_view(out@.drop_last()) + seq![rv]);
                    assert(raws_view(out@) + raw_blocks(s@, end as int) =~= raw_blocks(s@, 0));
                }
                i = end;
            },
            None => {
                i = i + 1;
            },
        }
    }
    proof {
        assert(raw_blocks(s@, i as int) =~= Seq::<RawBlockV>::empty());
        assert(raws_view(out@) =~= raw_blocks(s@, 0));
    }
    out
}

/// Scan the text for inheritance declarations: how many there are
/// (capped at two) and the first parent name.
fn scan_extends(s: &Vec<char>) -> (r: (usize, Option<Vec<char>>))
    ensures
        ({
            let names = extends_names(s@, 0);
            &&& r.0 as int == if names.len() < 2 {
                names.len() as int
            } else {
                2
            }
            &&& (match r.1 {
                Some(n) => names.len() > 0 && n@ == names[0],
                None => names.len() == 0,
            })
        }),
{
    let mut cnt: usize = 0;
    let mut first: Option<Vec<char>> = None;
    let ghost mut found: Seq<Seq<char>> = seq![];
    let mut i: usize = 0;
    while i < s.len()
        invariant
            i <= s@.len(),
            found + extends_names(s@, i as int) == extends_names(s@, 0),
            cnt as int == if found.len() < 2 {
                found.len() as int
            } else {
                2
            },
            match first {
                Some(n) => found.len() > 0 && n@ == found[0],
                None => found.len() == 0,
            },
        decreases s@.len() - i,
    {
        match try_extends_exec(s, i) {
            Some((n, end)) => {
                proof {
                    lemma_try_extends_bounds(s@, i as int);
                }
                let ghost nv = n@;
                if cnt < 2 {
                    cnt = cnt + 1;
                }
                if first.is_none() {
                    first = Some(n);
                }
                proof {
                    found = found + seq![nv];
                    assert(found + extends_names(s@, end as int) =~= extends_names(s@, 0));
                }
                i = end;
            },
            None => {
                i = i + 1;
            },
        }
    }
    proof {
        assert(extends_names(s@, i as int) =~= Seq::<Seq<char>>::empty());
        assert(found =~= extends_names(s@, 0));
    }
    (cnt, first)
}

/// The views of a sequence of character vectors.
spec fn segs_view(v: Seq<Vec<char>>) -> Seq<Seq<char>> {
    Seq::new(v.len(), |k: int| v[k]@)
}

/// Split a header on `|` into its segments.
fn split_pipe_exec(v: &Vec<char>) -> (r: Vec<Vec<char>>)
    ensures
        segs_view(r@) == split_pipe(v@),
        r@.len() >= 1,
    decreases v@.len(),
{
    let n = v.len();
    let pipe: Vec<char> = vec!['|'];
    proof {
        assert(pipe@ =~= seq!['|']);
    }
    match crate::text::find_from_exec(v, &pipe, 0) {
        None => {
            let whole = copy_range(v, 0, v.len());
            proof {
                assert(whole@ =~= v@);
            }
            let mut out: Vec<Vec<char>> = Vec::new();
            out.push(whole);
            proof {
                assert(segs_view(out@) =~= seq![v@]);
            }
            out
        },
        Some(o) => {
            proof {
                lemma_find_from(v@, pipe@, 0);
            }
            let head = copy_range(v, 0, o);
            let tail = copy_range(v, o + 1, n);
            let mut rest = split_pipe_exec(&tail);
            rest.insert(0, head);
            proof {
                assert(segs_view(rest@) =~= seq![v@.subrange(0, o as int)] + split_pipe(tail@));
            }
            rest
        },
    }
}

/// The trimmed filter tokens of a header's segments: every segment but
/// the first, trimmed.
fn trimmed_tokens(segs: &Vec<Vec<char>>) -> (r: Vec<Vec<char>>)
    requires
        segs@.len() >= 1,
    ensures
        segs_view(r@) == segs_view(segs@).skip(1).map_values(|t: Seq<char>| trim_seq(t)),
{
    let mut out: Vec<Vec<char>> = Vec::new();
    let mut k: usize = 1;
    while k < segs.len()
        invariant
            1 <= k <= segs@.len(),
            out@.len() == k - 1,
            forall|m: int| 0 <= m < k - 1 ==> (#[trigger] out@[m])@ == trim_seq(segs@[m + 1]@),
        decreases segs@.len() - k,
    {
        out.push(crate::text::trim_exec(&segs[k]));
        k = k + 1;
    }
    proof {
        assert(segs_view(out@) =~= segs_view(segs@).skip(1).map_values(
            |t: Seq<char>| trim_seq(t),
        ));
    }
    out
}

/// Recognise the filter tokens from index `k` on: the named filters in
/// order, or the first token that names none.
fn filters_from(toks: &Vec<Vec<char>>, k: usize) -> (r: Result<Vec<Filter>, Vec<char>>)
    requires
        k <= toks@.len(),
    ensures
        match r {
            Ok(fs) => first_invalid(segs_view(toks@).skip(k as int)) is None && fs@
                == tokens_filters(segs_view(toks@).skip(k as int)),
            Err(t) => first_invalid(segs_view(toks@).skip(k as int)) == Some(t@),
        },
    decreases toks@.len() - k,
{
    if k == toks.len() {
        proof {
            assert(segs_view(toks@).skip(k as int) =~= Seq::<Seq<char>>::empty());
        }
        Ok(Vec::new())
    } else {
        proof {
            assert(segs_view(toks@).skip(k as int)[0] == toks@[k as int]@);
            assert(segs_view(toks@).skip(k as int).skip(1) =~= segs_view(toks@).skip(
                k as int + 1,
            ));
        }
        let tok = &toks[k];
        match parse_filter(tok) {
            None => Err(copy_range(tok, 0, tok.len())),
            Some(f) => match filters_from(toks, k + 1) {
                Err(t) => Err(t),
                Ok(mut fs) => {
                    fs.insert(0, f);
                    proof {
                        assert(fs@ =~= seq![f] + fs@.skip(1));
                    }
                    Ok(fs)
                },
            },
        }
    }
}

/// The closing-marker text occurs more than once in the document.
fn count_occ_gt1(s: &Vec<char>, pat: &Vec<char>) -> (r: bool)
    ensures
        r == (count_from(s@, pat@, 0) > 1),
{
    if pat.len() == 0 || pat.len() > s.len() {
        return false;
    }
    let mut i: usize = 0;
    let mut cnt: usize = 0;
    while i <= s.len() - pat.len()
        invariant
            1 <= pat@.len() <= s@.len(),
            i <= s@.len(),
            cnt <= i,
            cnt + count_from(s@, pat@, i as int) == count_from(s@, pat@, 0),
        decreases s@.len() - i,
    {
        if crate::text::lit_at_exec(s, i, pat) {
            cnt = cnt + 1;
            i = i + pat.len();
        } else {
            i = i + 1;
        }
    }
    cnt > 1
}

/// Validate the raw declarations in order and assemble the blocks, as
/// `assemble` describes for the template named `path`.
fn assemble_exec(path: &str, s: &Vec<char>, raws: &Vec<RawBlock>) -> (r: Result<
    Vec<Block>,
    TplError,
>)
    requires
        forall|k: int| 0 <= k < raws@.len() ==> (#[trigger] raws_view(raws@)[k]).outer.len() > 0,
    ensures
        match r {
            Ok(blocks) => {
                &&& assemble(path@, s@, raws_view(raws@), 0, seq![]) == Ok::<Seq<BlockV>, ErrSpec>(
                    crate::template::blocks_view(blocks@),
                )
                &&& forall|i: int|
                    0 <= i < blocks@.len() ==> crate::template::block_wf(
                        #[trigger] crate::template::blocks_view(blocks@)[i],
                    )
                &&& forall|i: int, j: int|
                    0 <= i < j < blocks@.len()
                        ==> (#[trigger] crate::template::blocks_view(blocks@)[i]).name != (
                    #[trigger] crate::template::blocks_view(blocks@)[j]).name
            },
            Err(e) => assemble(path@, s@, raws_view(raws@), 0, seq![]) == Err::<
                Seq<BlockV>,
                ErrSpec,
            >(e@),
        },
{
    let ghost rv = raws_view(raws@);
    let mut built: Vec<Block> = Vec::new();
    proof {
        assert(crate::template::blocks_view(built@) =~= Seq::<BlockV>::empty());
    }
    let mut k: usize = 0;
    while k < raws.len()
        invariant
            k <= raws@.len(),
            rv == raws_view(raws@),
            forall|m: int| 0 <= m < raws@.len() ==> (#[trigger] raws_view(raws@)[m]).outer.len()
                > 0,
            assemble(path@, s@, rv, k as int, crate::template::blocks_view(built@)) == assemble(
                path@,
                s@,
                rv,
                0,
                seq![],
            ),
            forall|i: int|
                0 <= i < built@.len() ==> crate::template::block_wf(
                    #[trigger] crate::template::blocks_view(built@)[i],
                ),
            forall|i: int, j: int|
                0 <= i < j < built@.len() ==> (#[trigger] crate::template::blocks_view(
                    built@,
                )[i]).name != (#[trigger] crate::template::blocks_view(built@)[j]).name,
        decreases raws@.len() - k,
    {
        let raw = &raws[k];
        proof {
            assert(rv[k as int] == raws@[k as int]@);
        }
        let segs = split_pipe_exec(&raw.header);
        let ttoks = trimmed_tokens(&segs);
        proof {
            assert(segs_view(ttoks@) == raw_filter_tokens(rv[k as int]));
            assert(segs_view(ttoks@).skip(0) =~= segs_view(ttoks@));
        }
        match filters_from(&ttoks, 0) {
            Err(t) => {
                return Err(
                    TplError::UnknownFilter {
                        filter: string_of(&t),
                        template: String::from_str(path),
                    },
                );
            },
            Ok(filters) => {
                let name = crate::text::trim_exec(&segs[0]);
                proof {
                    assert(segs_view(segs@)[0] == segs@[0]@);
                    assert(name@ == raw_name(rv[k as int]));
                }
                if !crate::text::seq_eq(&name, &raw.end_name) {
                    return Err(
                        TplError::MismatchedBlockName {
                            open: string_of(&name),
                            close: string_of(&raw.end_name),
                            template: String::from_str(path),
                        },
                    );
                }
                let name_str = string_of(&name);
                let ghost acc0 = crate::template::blocks_view(built@);
                match crate::template::find_block(&built, &name_str) {
                    Some(d) => {
                        proof {
                            assert(acc0[d as int].name == name@);
                        }
                        return Err(
                            TplError::DuplicateBlock {
                                block: name_str,
                                template: String::from_str(path),
                            },
                        );
                    },
                    None => {},
                }
                proof {
                    crate::template::lemma_block_index_from(acc0, name@, 0);
                }
                if count_occ_gt1(s, &raw.closer) {
                    return Err(
                        TplError::DuplicateBlock {
                            block: name_str,
                            template: String::from_str(path),
                        },
                    );
                }
                let b = Block {
                    name: name_str,
                    filters,
                    content_outer: string_of(&raw.outer),
                    content: string_of(&raw.inner),
                };
                let ghost bv = b@;
                built.push(b);
                proof {
                    assert(crate::template::blocks_view(built@) =~= acc0 + seq![bv]);
                    assert(bv.name == raw_name(rv[k as int]));
                    assert(bv.filters == tokens_filters(raw_filter_tokens(rv[k as int])));
                    assert(bv.outer == rv[k as int].outer);
                    assert(bv.inner == rv[k as int].inner);
                    assert(assemble(path@, s@, rv, k as int, acc0) == assemble(
                        path@,
                        s@,
                        rv,
                        k + 1,
                        acc0 + seq![bv],
                    ));
                    assert forall|i: int|
                        0 <= i < built@.len() implies crate::template::block_wf(
                        #[trigger] crate::template::blocks_view(built@)[i],
                    ) by {
                        if i < acc0.len() {
                            assert(crate::template::blocks_view(built@)[i] == acc0[i]);
                        } else {
                            assert(crate::template::blocks_view(built@)[i] == bv);
                        }
                    }
                    assert forall|i: int, j: int|
                        0 <= i < j < built@.len() implies (
                    #[trigger] crate::template::blocks_view(built@)[i]).name != (
                    #[trigger] crate::template::blocks_view(built@)[j]).name by {
                        if j < acc0.len() {
                            assert(crate::template::blocks_view(built@)[i] == acc0[i]);
                            assert(crate::template::blocks_view(built@)[j] == acc0[j]);
                        } else {
                            assert(crate::template::blocks_view(built@)[i] == acc0[i]);
                            assert(crate::template::blocks_view(built@)[j] == bv);
                        }
                    }
                }
                k = k + 1;
            },
        }
    }
    Ok(built)
}

/// Parse one template text under its identity `path`: the declared
/// parent (if any) and the validated blocks, exactly as `parse_spec`
/// describes; or the first error found.  The output path is left empty
/// here and is filled in by the build.  A base template may carry an
/// inheritance declaration; it is recorded but never resolved, since
/// inheritance is one level deep.
pub fn parse_template(path: &str, content: &str) -> (r: Result<Template, TplError>)
    ensures
        match r {
            Ok(t) => {
                &&& parse_spec(path@, content@) == Ok::<(Option<Seq<char>>, Seq<BlockV>), ErrSpec>(
                    (t@.extends, t@.blocks),
                )
                &&& t@.path == path@
                &&& t@.content == content@
                &&& t@.output == Seq::<char>::empty()
                &&& crate::template::template_wf(t@)
            },
            Err(e) => parse_spec(path@, content@) == Err::<
                (Option<Seq<char>>, Seq<BlockV>),
                ErrSpec,
            >(e@),
        },
{
    let cs = chars_of(content);
    let (cnt, first) = scan_extends(&cs);
    if cnt > 1 {
        return Err(TplError::MultipleExtends { template: String::from_str(path) });
    }
    let raws = scan_blocks(&cs);
    proof {
        lemma_raw_blocks_wf(cs@, 0);
    }
    match assemble_exec(path, &cs, &raws) {
        Err(e) => Err(e),
        Ok(blocks) => {
            let extends: Option<String> = match first {
                Some(n) => Some(string_of(&n)),
                None => None,
            };
            Ok(
                Template {
                    path: String::from_str(path),
                    extends,
                    output: String::new(),
                    content: String::from_str(content),
                    blocks,
                },
            )
        },
    }
}

/// Parse a page (child) template: the inheritance declaration is
/// checked first — the page must declare exactly one parent — and the
/// blocks are validated after, exactly as `parse_page_spec` describes.
pub fn parse_page(path: &str, content: &str) -> (r: Result<Template, TplError>)
    ensures
        match r {
            Ok(t) => {
                &&& t@.extends is Some
                &&& parse_page_spec(path@, content@) == Ok::<(Seq<char>, Seq<BlockV>), ErrSpec>(
                    (t@.extends->Some_0, t@.blocks),
                )
                &&& t@.path == path@
                &&& t@.content == content@
                &&& t@.output == Seq::<char>::empty()
                &&& crate::template::template_wf(t@)
            },
            Err(e) => parse_page_spec(path@, content@) == Err::<
                (Seq<char>, Seq<BlockV>),
                ErrSpec,
            >(e@),
        },
{
    let cs = chars_of(content);
    let (cnt, first) = scan_extends(&cs);
    if cnt == 0 {
        return Err(TplError::MissingExtends { template: String::from_str(path) });
    }
    if cnt > 1 {
        return Err(TplError::MultipleExtends { template: String::from_str(path) });
    }
    let raws = scan_blocks(&cs);
    proof {
        lemma_raw_blocks_wf(cs@, 0);
    }
    match assemble_exec(path, &cs, &raws) {
        Err(e) => Err(e),
        Ok(blocks) => {
            let name = match first {
                Some(n) => n,
                None => {
                    proof {
                        assert(false);
                    }
                    Vec::new()
                },
            };
            Ok(
                Template {
                    path: String::from_str(path),
                    extends: Some(string_of(&name)),
                    output: String::new(),
                    content: String::from_str(content),
                    blocks,
                },
            )
        },
    }
}

/// A raw block declaration is clean: every filter token it carries is
/// valid and its closing name matches its opening name.
pub open spec fn raw_clean(r: RawBlockV) -> bool {
    &&& first_invalid(raw_filter_tokens(r)) is None
    &&& raw_name(r) == r.end_name
}

/// When assembly succeeds, the raw declarations still to come carry
/// pairwise distinct names, none of which is already accepted.
proof fn lemma_assemble_ok_distinct(
    ident: Seq<char>,
    s: Seq<char>,
    raws: Seq<RawBlockV>,
    k: int,
    acc: Seq<BlockV>,
)
    requires
        0 <= k,
        assemble(ident, s, raws, k, acc) is Ok,
    ensures
        forall|a: int, b: int|
            k <= a < b < raws.len() ==> raw_name(#[trigger] raws[a]) != raw_name(
                #[trigger] raws[b],
            ),
        forall|a: int|
            k <= a < raws.len() ==> !(exists|j: int|
                0 <= j < acc.len() && acc[j].name == raw_name(#[trigger] raws[a])),
    decreases raws.len() - k,
{
    if 0 <= k < raws.len() {
        let r = raws[k];
        let toks = raw_filter_tokens(r);
        let name = raw_name(r);
        let bv = BlockV { name, filters: tokens_filters(toks), outer: r.outer, inner: r.inner };
        let acc2 = acc + seq![bv];
        lemma_assemble_ok_distinct(ident, s, raws, k + 1, acc2);
        assert forall|a: int|
            k <= a < raws.len() implies !(exists|j: int|
            0 <= j < acc.len() && acc[j].name == raw_name(#[trigger] raws[a])) by {
            if a == k {
            } else {
                assert(!(exists|j: int|
                    0 <= j < acc2.len() && acc2[j].name == raw_name(raws[a])));
                if exists|j: int| 0 <= j < acc.len() && acc[j].name == raw_name(raws[a]) {
                    let j = choose|j: int| 0 <= j < acc.len() && acc[j].name == raw_name(
                        raws[a],
                    );
                    assert(acc2[j] == acc[j]);
                    assert(false);
                }
            }
        }
        assert forall|a: int, b: int|
            k <= a < b < raws.len() implies raw_name(#[trigger] raws[a]) != raw_name(
            #[trigger] raws[b],
        ) by {
            if a == k {
                assert(!(exists|j: int|
                    0 <= j < acc2.len() && acc2[j].name == raw_name(raws[b])));
                assert(acc2[acc.len() as int].name == name);
            }
        }
    }
}

/// When every raw declaration still to come is clean, a failing
/// assembly fails with a duplicate-block error for this template.
proof fn lemma_assemble_err_kind(
    ident: Seq<char>,
    s: Seq<char>,
    raws: Seq<RawBlockV>,
    k: int,
    acc: Seq<BlockV>,
)
    requires
        0 <= k,
        assemble(ident, s, raws, k, acc) is Err,
        forall|a: int| k <= a < raws.len() ==> raw_clean(#[trigger] raws[a]),
    ensures
        exists|name: Seq<char>|
            assemble(ident, s, raws, k, acc) == Err::<Seq<BlockV>, ErrSpec>(
                ErrSpec::DuplicateBlock { block: name, template: ident },
            ),
    decreases raws.len() - k,
{
    assert(0 <= k < raws.len());
    let r = raws[k];
    let toks = raw_filter_tokens(r);
    let name = raw_name(r);
    assert(raw_clean(r));
    if (exists|j: int| 0 <= j < acc.len() && acc[j].name == name) || count_from(s, r.closer, 0)
        > 1 {
        assert(assemble(ident, s, raws, k, acc) == Err::<Seq<BlockV>, ErrSpec>(
            ErrSpec::DuplicateBlock { block: name, template: ident },
        ));
    } else {
        let bv = BlockV { name, filters: tokens_filters(toks), outer: r.outer, inner: r.inner };
        lemma_assemble_err_kind(ident, s, raws, k + 1, acc + seq![bv]);
    }
}

/// Law (uniqueness invariant): a template that declares two blocks
/// with the same trimmed name fails to parse with a duplicate-block
/// error naming this template, whatever the two inner contents.  The
/// other error classes must not preempt it: the text holds at most one
/// inheritance declaration, and every declaration is clean — an
/// unknown filter or a mismatched closing name is reported first, as
/// validation runs in declaration order.
pub proof fn lemma_duplicate_block_fails(ident: Seq<char>, s: Seq<char>, a: int, b: int)
    requires
        extends_names(s, 0).len() <= 1,
        forall|j: int|
            0 <= j < raw_blocks(s, 0).len() ==> raw_clean(#[trigger] raw_blocks(s, 0)[j]),
        0 <= a < b < raw_blocks(s, 0).len(),
        raw_name(raw_blocks(s, 0)[a]) == raw_name(raw_blocks(s, 0)[b]),
    ensures
        exists|name: Seq<char>|
            parse_spec(ident, s) == Err::<(Option<Seq<char>>, Seq<BlockV>), ErrSpec>(
                ErrSpec::DuplicateBlock { block: name, template: ident },
            ),
{
    let raws = raw_blocks(s, 0);
    if assemble(ident, s, raws, 0, seq![]) is Ok {
        lemma_assemble_ok_distinct(ident, s, raws, 0, seq![]);
        assert(false);
    }
    lemma_assemble_err_kind(ident, s, raws, 0, seq![]);
    let name = choose|name: Seq<char>|
        assemble(ident, s, raws, 0, seq![]) == Err::<Seq<BlockV>, ErrSpec>(
            ErrSpec::DuplicateBlock { block: name, template: ident },
        );
    assert(parse_spec(ident, s) == Err::<(Option<Seq<char>>, Seq<BlockV>), ErrSpec>(
        ErrSpec::DuplicateBlock { block: name, template: ident },
    ));
}

} // verus!
