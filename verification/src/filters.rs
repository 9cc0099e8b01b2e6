//! The closed set of output filters a block declaration may name, and
//! the rule for applying a filter list to a block's inner text.  The
//! MarkDown filter goes through the outside renderer, so application
//! is stated as a relation: an output is valid when each filter step
//! relates its input to its output, the renderer's steps by
//! `md_renders` and the others exactly.
use crate::markdown::md_renders;
use crate::text::{chars_of, string_of, trim_exec, trim_seq};
use vstd::prelude::*;

verus! {

/// A named output transform for a block's inner text.  The set is
/// closed by design: `text` returns the text unchanged, `html` runs the
/// MarkDown renderer, `trim` removes leading and trailing whitespace.
#[derive(Clone, Copy, Debug, PartialEq, Eq, Structural)]
pub enum Filter {
    Text,
    Html,
    Trim,
}

/// One filter step relates its input to its output: `text` keeps the
/// text, `trim` trims it, `html` is whatever the renderer returned.
pub open spec fn apply_filter_rel(f: Filter, s: Seq<char>, r: Seq<char>) -> bool {
    match f {
        Filter::Text => r == s,
        Filter::Html => md_renders(s, r),
        Filter::Trim => r == trim_seq(s),
    }
}

/// The filters of a list applied in declared order, first to last,
/// step by related step.
pub open spec fn chain_rel(fs: Seq<Filter>, s: Seq<char>, r: Seq<char>) -> bool
    decreases fs.len(),
{
    if fs.len() == 0 {
        r == s
    } else {
        exists|m: Seq<char>|
            #[trigger] apply_filter_rel(fs[0], s, m) && chain_rel(fs.skip(1), m, r)
    }
}

/// The output rule for a block: an empty filter list means the default
/// MarkDown rendering; a non-empty list is applied in declared order.
pub open spec fn filtered_rel(fs: Seq<Filter>, s: Seq<char>, r: Seq<char>) -> bool {
    if fs.len() == 0 {
        md_renders(s, r)
    } else {
        chain_rel(fs, s, r)
    }
}

/// The filter a token names, if the token is one of the valid three.
pub open spec fn filter_of_name(n: Seq<char>) -> Option<Filter> {
    if n == seq!['t', 'e', 'x', 't'] {
        Some(Filter::Text)
    } else if n == seq!['h', 't', 'm', 'l'] {
        Some(Filter::Html)
    } else if n == seq!['t', 'r', 'i', 'm'] {
        Some(Filter::Trim)
    } else {
        None
    }
}

/// Recognise a filter token.
pub fn parse_filter(n: &Vec<char>) -> (r: Option<Filter>)
    ensures
        r == filter_of_name(n@),
{
    let text_l: Vec<char> = vec!['t', 'e', 'x', 't'];
    let html_l: Vec<char> = vec!['h', 't', 'm', 'l'];
    let trim_l: Vec<char> = vec!['t', 'r', 'i', 'm'];
    if crate::text::seq_eq(n, &text_l) {
        Some(Filter::Text)
    } else if crate::text::seq_eq(n, &html_l) {
        Some(Filter::Html)
    } else if crate::text::seq_eq(n, &trim_l) {
        Some(Filter::Trim)
    } else {
        None
    }
}

/// Apply one filter to a text.
pub(crate) fn apply_filter_chars(f: Filter, v: &Vec<char>) -> (r: Vec<char>)
    ensures
        apply_filter_rel(f, v@, r@),
{
    match f {
        Filter::Text => {
            let r = crate::text::copy_range(v, 0, v.len());
            proof {
                assert(r@ =~= v@);
            }
            r
        },
        Filter::Html => crate::markdown::md_chars(v),
        Filter::Trim => trim_exec(v),
    }
}

/// Apply a filter list to a text as `filtered_rel` describes: the
/// MarkDown rendering when the list is empty, else each filter in
/// order.
pub(crate) fn filtered_chars(fs: &Vec<Filter>, v: &Vec<char>) -> (r: Vec<char>)
    ensures
        filtered_rel(fs@, v@, r@),
{
    if fs.len() == 0 {
        crate::markdown::md_chars(v)
    } else {
        let mut cur = apply_filter_chars(fs[0], v);
        proof {
            assert forall|out: Seq<char>| chain_rel(fs@.skip(1), cur@, out) implies chain_rel(
                fs@,
                v@,
                out,
            ) by {
                assert(apply_filter_rel(fs@[0], v@, cur@));
            }
        }
        let mut k: usize = 1;
        while k < fs.len()
            invariant
                1 <= k <= fs@.len(),
                forall|out: Seq<char>|
                    chain_rel(fs@.skip(k as int), cur@, out) ==> chain_rel(fs@, v@, out),
            decreases fs@.len() - k,
        {
            let next = apply_filter_chars(fs[k], &cur);
            proof {
                assert(fs@.skip(k as int).skip(1) =~= fs@.skip(k as int + 1));
                assert(fs@.skip(k as int)[0] == fs@[k as int]);
                assert forall|out: Seq<char>|
                    chain_rel(fs@.skip(k as int + 1), next@, out) implies chain_rel(
                    fs@,
                    v@,
                    out,
                ) by {
                    assert(apply_filter_rel(fs@.skip(k as int)[0], cur@, next@));
                    assert(chain_rel(fs@.skip(k as int), cur@, out));
                }
            }
            cur = next;
            k = k + 1;
        }
        proof {
            assert(fs@.skip(k as int).len() == 0);
            assert(chain_rel(fs@.skip(k as int), cur@, cur@));
        }
        cur
    }
}

/// Apply a filter list to a block's inner text and return the output.
pub fn output(filters: &Vec<Filter>, text: &String) -> (r: String)
    ensures
        filtered_rel(filters@, text@, r@),
{
    let v = chars_of(text.as_str());
    let out = filtered_chars(filters, &v);
    string_of(&out)
}

/// Law: a block with no filters renders exactly as a block with the
/// single `html` filter; the default output path is the MarkDown
/// rendering.
pub proof fn lemma_default_is_html(s: Seq<char>, r: Seq<char>)
    ensures
        filtered_rel(seq![], s, r) <==> filtered_rel(seq![Filter::Html], s, r),
{
    let one: Seq<Filter> = seq![Filter::Html];
    assert(one.skip(1) =~= Seq::<Filter>::empty());
    if filtered_rel(seq![], s, r) {
        assert(apply_filter_rel(one[0], s, r));
        assert(chain_rel(one.skip(1), r, r));
        assert(chain_rel(one, s, r));
    }
    if filtered_rel(one, s, r) {
        let m = choose|m: Seq<char>|
            #[trigger] apply_filter_rel(one[0], s, m) && chain_rel(one.skip(1), m, r);
        assert(m == r);
        assert(md_renders(s, r));
    }
}

/// Law: the `text` filter never changes the text it is applied to.
pub proof fn lemma_text_is_identity(s: Seq<char>, r: Seq<char>)
    ensures
        apply_filter_rel(Filter::Text, s, r) <==> r == s,
{
}

/// Law: applying the `text` filter twice is the same as applying it
/// once; the filter is idempotent.
pub proof fn lemma_text_idempotent(s: Seq<char>, r: Seq<char>)
    ensures
        filtered_rel(seq![Filter::Text, Filter::Text], s, r) <==> filtered_rel(
            seq![Filter::Text],
            s,
            r,
        ),
{
    let one: Seq<Filter> = seq![Filter::Text];
    let two: Seq<Filter> = seq![Filter::Text, Filter::Text];
    assert(one.skip(1) =~= Seq::<Filter>::empty());
    assert(two.skip(1) =~= one);
    if filtered_rel(one, s, r) {
        let m = choose|m: Seq<char>|
            #[trigger] apply_filter_rel(one[0], s, m) && chain_rel(one.skip(1), m, r);
        assert(r == s);
    }
    if filtered_rel(two, s, r) {
        let m = choose|m: Seq<char>|
            #[trigger] apply_filter_rel(two[0], s, m) && chain_rel(two.skip(1), m, r);
        let m2 = choose|m2: Seq<char>|
            #[trigger] apply_filter_rel(one[0], m, m2) && chain_rel(one.skip(1), m2, r);
        assert(r == s);
    }
    if r == s {
        assert(apply_filter_rel(one[0], s, s));
        assert(chain_rel(one.skip(1), s, r));
        assert(chain_rel(one, s, r));
        assert(chain_rel(two.skip(1), s, r));
        assert(apply_filter_rel(two[0], s, s));
        assert(chain_rel(two, s, r));
    }
}

/// The renderer is functional: any one text has at most one rendering.
/// This holds of the outside renderer but for its randomized
/// placeholder scheme, so it stands as a hypothesis, never as an
/// axiom.
pub open spec fn renderer_functional() -> bool {
    forall|s: Seq<char>, r1: Seq<char>, r2: Seq<char>|
        #![trigger md_renders(s, r1), md_renders(s, r2)]
        md_renders(s, r1) && md_renders(s, r2) ==> r1 == r2
}

/// Law: filter application adds no nondeterminism of its own: when
/// the renderer is functional, a filter list relates each input to at
/// most one output.
pub proof fn lemma_filtered_functional(fs: Seq<Filter>, s: Seq<char>, r1: Seq<char>, r2: Seq<char>)
    requires
        renderer_functional(),
        filtered_rel(fs, s, r1),
        filtered_rel(fs, s, r2),
    ensures
        r1 == r2,
    decreases fs.len(),
{
    if fs.len() == 0 {
        assert(md_renders(s, r1) && md_renders(s, r2));
    } else {
        let m1 = choose|m: Seq<char>|
            #[trigger] apply_filter_rel(fs[0], s, m) && chain_rel(fs.skip(1), m, r1);
        let m2 = choose|m: Seq<char>|
            #[trigger] apply_filter_rel(fs[0], s, m) && chain_rel(fs.skip(1), m, r2);
        assert(m1 == m2);
        if fs.skip(1).len() == 0 {
            assert(r1 == m1 && r2 == m2);
        } else {
            assert(filtered_rel(fs.skip(1), m1, r1));
            assert(filtered_rel(fs.skip(1), m2, r2));
            lemma_filtered_functional(fs.skip(1), m1, r1, r2);
        }
    }
}

} // verus!
