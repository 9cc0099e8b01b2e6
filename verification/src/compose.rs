//! The inheritance resolver and block compositor.  A page's declared
//! parent is resolved among the base templates by exact name; the
//! page's blocks replace the parent's block spans in a copy of the
//! parent's text; parent blocks the page leaves out fall back to their
//! own default content.  Filters follow the page's declaration, or the
//! parent's for that block when the page declares none.
//!
//! Whether composition fails, and with which error, depends on the
//! templates alone and is characterised exactly.  The output text is
//! stated as a relation — the substitution of whatever the MarkDown
//! renderer returned for each block — since the renderer is not a
//! function of its input; the substitution itself adds no
//! nondeterminism, which `lemma_compose_deterministic` states.
use crate::error::{ErrSpec, TplError};
use crate::filters::{
    filtered_rel, lemma_filtered_functional, renderer_functional, Filter,
};
use crate::template::{
    block_index, block_wf, find_block, template_wf, BlockV, Template, TemplateV,
};
use crate::text::{chars_of, contains_exec, contains_seq, replace_all, replace_seq, string_of};
use vstd::prelude::*;

verus! {

/// The views of a vector of templates.
pub open spec fn tvs(ts: Seq<Template>) -> Seq<TemplateV> {
    Seq::new(ts.len(), |i: int| ts[i]@)
}

/// Index of the first template at or after `i` whose identity is
/// `name`.
pub open spec fn template_index_from(ts: Seq<TemplateV>, name: Seq<char>, i: int) -> Option<int>
    decreases ts.len() - i,
{
    if !(0 <= i < ts.len()) {
        None
    } else if ts[i].path == name {
        Some(i)
    } else {
        template_index_from(ts, name, i + 1)
    }
}

/// Index of the first template whose identity is `name`, if any.
pub open spec fn template_index(ts: Seq<TemplateV>, name: Seq<char>) -> Option<int> {
    template_index_from(ts, name, 0)
}

/// The filters that govern a page block: its own, or the parent
/// block's when the page declares none.
pub open spec fn effective_filters(child: BlockV, parent: BlockV) -> Seq<Filter> {
    if child.filters.len() > 0 {
        child.filters
    } else {
        parent.filters
    }
}

/// The name of the first page block, from index `k` on, that the
/// parent does not declare.
pub open spec fn first_missing_block(cblocks: Seq<BlockV>, pblocks: Seq<BlockV>, k: int) -> Option<
    Seq<char>,
>
    decreases cblocks.len() - k,
{
    if !(0 <= k < cblocks.len()) {
        None
    } else if block_index(pblocks, cblocks[k].name) is None {
        Some(cblocks[k].name)
    } else {
        first_missing_block(cblocks, pblocks, k + 1)
    }
}

/// The error composition fails with, if any: a page without a parent
/// declaration, an unknown parent, or a page block the parent does
/// not declare.  This depends on the templates alone.
pub open spec fn compose_err_spec(parents: Seq<TemplateV>, child: TemplateV) -> Option<ErrSpec> {
    match child.extends {
        None => Some(ErrSpec::MissingExtends { template: child.path }),
        Some(pname) => match template_index(parents, pname) {
            None => Some(ErrSpec::UnresolvedParent { parent: pname, template: child.path }),
            Some(pi) => match first_missing_block(child.blocks, parents[pi].blocks, 0) {
                Some(b) => Some(
                    ErrSpec::UnknownBlockInChild {
                        block: b,
                        child: child.path,
                        parent: parents[pi].path,
                    },
                ),
                None => None,
            },
        },
    }
}

/// The page pass relates a working text to an outcome: from block `k`
/// on, each page block's filtered inner text — whatever the filter
/// steps returned — replaces every occurrence of the parent block's
/// outer span.
pub open spec fn child_pass_rel(
    html: Seq<char>,
    cblocks: Seq<BlockV>,
    pblocks: Seq<BlockV>,
    k: int,
    out: Seq<char>,
) -> bool
    decreases cblocks.len() - k,
{
    if !(0 <= k < cblocks.len()) {
        out == html
    } else {
        let cb = cblocks[k];
        match block_index(pblocks, cb.name) {
            None => false,
            Some(pi) => {
                let pb = pblocks[pi];
                exists|rend: Seq<char>|
                    #[trigger] filtered_rel(effective_filters(cb, pb), cb.inner, rend)
                        && child_pass_rel(
                        replace_seq(html, pb.outer, rend),
                        cblocks,
                        pblocks,
                        k + 1,
                        out,
                    )
            },
        }
    }
}

/// The default pass relates a working text to an outcome: from block
/// `k` on, every parent block whose outer span still stands is
/// replaced by its own filtered default content, whatever the filter
/// steps returned.
pub open spec fn default_pass_rel(
    html: Seq<char>,
    pblocks: Seq<BlockV>,
    k: int,
    out: Seq<char>,
) -> bool
    decreases pblocks.len() - k,
{
    if !(0 <= k < pblocks.len()) {
        out == html
    } else {
        let pb = pblocks[k];
        if contains_seq(html, pb.outer) {
            exists|rend: Seq<char>|
                #[trigger] filtered_rel(pb.filters, pb.inner, rend) && default_pass_rel(
                    replace_seq(html, pb.outer, rend),
                    pblocks,
                    k + 1,
                    out,
                )
        } else {
            default_pass_rel(html, pblocks, k + 1, out)
        }
    }
}

/// The composed output for a page against a set of base templates:
/// the parent resolved, the page pass run over the parent's text,
/// then the default pass.
pub open spec fn compose_rel(parents: Seq<TemplateV>, child: TemplateV, out: Seq<char>) -> bool {
    match child.extends {
        None => false,
        Some(pname) => match template_index(parents, pname) {
            None => false,
            Some(pi) => exists|mid: Seq<char>|
                #[trigger] child_pass_rel(
                    parents[pi].content,
                    child.blocks,
                    parents[pi].blocks,
                    0,
                    mid,
                ) && default_pass_rel(mid, parents[pi].blocks, 0, out),
        },
    }
}

/// Find the first base template whose identity equals `name`,
/// returning its index, exactly as `template_index` describes.
fn find_template(parents: &Vec<Template>, name: &String) -> (r: Option<usize>)
    ensures
        match r {
            Some(i) => template_index(tvs(parents@), name@) == Some(i as int) && i
                < parents@.len(),
            None => template_index(tvs(parents@), name@) is None,
        },
{
    let ghost ts = tvs(parents@);
    let mut i: usize = 0;
    while i < parents.len()
        invariant
            i <= parents@.len(),
            ts == tvs(parents@),
            template_index_from(ts, name@, 0) == template_index_from(ts, name@, i as int),
        decreases parents@.len() - i,
    {
        proof {
            assert(ts[i as int] == parents@[i as int]@);
        }
        if parents[i].path == *name {
            return Some(i);
        }
        i = i + 1;
    }
    None
}

/// Compose one page against the base templates: it fails exactly as
/// `compose_err_spec` says, and a successful output stands in
/// `compose_rel` to the inputs.  The templates must be well-formed,
/// as the parser produces them.
#[verifier::loop_isolation(false)]
pub fn compose(parents: &Vec<Template>, child: &Template) -> (r: Result<String, TplError>)
    requires
        forall|i: int| 0 <= i < parents@.len() ==> template_wf(#[trigger] tvs(parents@)[i]),
        template_wf(child@),
    ensures
        match r {
            Ok(html) => compose_err_spec(tvs(parents@), child@) is None && compose_rel(
                tvs(parents@),
                child@,
                html@,
            ),
            Err(e) => compose_err_spec(tvs(parents@), child@) == Some(e@),
        },
{
    let pname: &String = match &child.extends {
        None => {
            return Err(TplError::MissingExtends { template: child.path.clone() });
        },
        Some(p) => p,
    };
    let pidx: usize = match find_template(parents, pname) {
        None => {
            return Err(
                TplError::UnresolvedParent {
                    parent: pname.clone(),
                    template: child.path.clone(),
                },
            );
        },
        Some(i) => i,
    };
    let parent: &Template = &parents[pidx];
    let ghost parentv = tvs(parents@)[pidx as int];
    proof {
        assert(parentv == parent@);
        assert(template_wf(parentv));
    }
    let mut html = chars_of(parent.content.as_str());
    let ghost cblocks = child@.blocks;
    let ghost pblocks = parentv.blocks;
    let mut k: usize = 0;
    while k < child.blocks.len()
        invariant
            k <= cblocks.len(),
            first_missing_block(cblocks, pblocks, 0) == first_missing_block(
                cblocks,
                pblocks,
                k as int,
            ),
            forall|out: Seq<char>|
                child_pass_rel(html@, cblocks, pblocks, k as int, out) ==> child_pass_rel(
                    parentv.content,
                    cblocks,
                    pblocks,
                    0,
                    out,
                ),
        decreases cblocks.len() - k,
    {
        let cb = &child.blocks[k];
        proof {
            assert(cblocks[k as int] == cb@);
        }
        match find_block(&parent.blocks, &cb.name) {
            None => {
                proof {
                    assert(first_missing_block(cblocks, pblocks, k as int) == Some(cb@.name));
                }
                return Err(
                    TplError::UnknownBlockInChild {
                        block: cb.name.clone(),
                        child: child.path.clone(),
                        parent: parent.path.clone(),
                    },
                );
            },
            Some(pi) => {
                let pb = &parent.blocks[pi];
                proof {
                    assert(pblocks[pi as int] == pb@);
                    assert(block_wf(pb@));
                }
                let eff: &Vec<Filter> = if cb.filters.len() > 0 {
                    &cb.filters
                } else {
                    &pb.filters
                };
                let inner = chars_of(cb.content.as_str());
                let replacement = crate::filters::filtered_chars(eff, &inner);
                let outer = chars_of(pb.content_outer.as_str());
                let next = replace_all(&html, &outer, &replacement);
                proof {
                    assert(filtered_rel(
                        effective_filters(cb@, pb@),
                        cb@.inner,
                        replacement@,
                    ));
                    assert forall|out: Seq<char>|
                        child_pass_rel(next@, cblocks, pblocks, k as int + 1, out) implies
                        child_pass_rel(parentv.content, cblocks, pblocks, 0, out) by {
                        let cbs = cblocks[k as int];
                        let pis = block_index(pblocks, cbs.name)->Some_0;
                        assert(pis == pi as int);
                        assert(filtered_rel(
                            effective_filters(cbs, pblocks[pis]),
                            cbs.inner,
                            replacement@,
                        ));
                        assert(next@ == replace_seq(html@, pblocks[pis].outer, replacement@));
                        assert(child_pass_rel(
                            replace_seq(html@, pblocks[pis].outer, replacement@),
                            cblocks,
                            pblocks,
                            k as int + 1,
                            out,
                        ));
                        assert(child_pass_rel(html@, cblocks, pblocks, k as int, out));
                    }
                }
                html = next;
                k = k + 1;
            },
        }
    }
    let ghost mid = html@;
    proof {
        assert(child_pass_rel(mid, cblocks, pblocks, cblocks.len() as int, mid));
        assert(child_pass_rel(parentv.content, cblocks, pblocks, 0, mid));
    }
    let mut d: usize = 0;
    while d < parent.blocks.len()
        invariant
            d <= pblocks.len(),
            forall|out: Seq<char>|
                default_pass_rel(html@, pblocks, d as int, out) ==> default_pass_rel(
                    mid,
                    pblocks,
                    0,
                    out,
                ),
        decreases pblocks.len() - d,
    {
        let pb = &parent.blocks[d];
        proof {
            assert(pblocks[d as int] == pb@);
            assert(block_wf(pb@));
        }
        let outer = chars_of(pb.content_outer.as_str());
        if contains_exec(&html, &outer) {
            let inner = chars_of(pb.content.as_str());
            let replacement = crate::filters::filtered_chars(&pb.filters, &inner);
            let next = replace_all(&html, &outer, &replacement);
            proof {
                assert(filtered_rel(pb@.filters, pb@.inner, replacement@));
                assert forall|out: Seq<char>|
                    default_pass_rel(next@, pblocks, d as int + 1, out) implies default_pass_rel(
                    mid,
                    pblocks,
                    0,
                    out,
                ) by {
                    let pbs = pblocks[d as int];
                    assert(filtered_rel(pbs.filters, pbs.inner, replacement@));
                    assert(next@ == replace_seq(html@, pbs.outer, replacement@));
                    assert(default_pass_rel(
                        replace_seq(html@, pbs.outer, replacement@),
                        pblocks,
                        d as int + 1,
                        out,
                    ));
                    assert(contains_seq(html@, pbs.outer));
                    assert(default_pass_rel(html@, pblocks, d as int, out));
                }
            }
            html = next;
        }
        d = d + 1;
    }
    proof {
        assert(default_pass_rel(html@, pblocks, pblocks.len() as int, html@));
        assert(default_pass_rel(mid, pblocks, 0, html@));
        assert(compose_rel(tvs(parents@), child@, html@));
    }
    Ok(string_of(&html))
}

/// Law: a page block with no declared filters, over a parent block
/// that declares none either, renders through composition exactly as
/// if it had declared the single `html` filter: the default output
/// path is the MarkDown rendering.
pub proof fn lemma_compose_default_is_html(cb: BlockV, pb: BlockV, r: Seq<char>)
    requires
        cb.filters.len() == 0,
        pb.filters.len() == 0,
    ensures
        filtered_rel(effective_filters(cb, pb), cb.inner, r) <==> filtered_rel(
            seq![Filter::Html],
            cb.inner,
            r,
        ),
{
    crate::filters::lemma_default_is_html(cb.inner, r);
}

/// The page pass adds no nondeterminism of its own: when the renderer
/// is functional, one start relates to at most one outcome.
proof fn lemma_child_pass_functional(
    html: Seq<char>,
    cblocks: Seq<BlockV>,
    pblocks: Seq<BlockV>,
    k: int,
    o1: Seq<char>,
    o2: Seq<char>,
)
    requires
        renderer_functional(),
        child_pass_rel(html, cblocks, pblocks, k, o1),
        child_pass_rel(html, cblocks, pblocks, k, o2),
    ensures
        o1 == o2,
    decreases cblocks.len() - k,
{
    if 0 <= k < cblocks.len() {
        let cb = cblocks[k];
        match block_index(pblocks, cb.name) {
            None => {},
            Some(pi) => {
                let pb = pblocks[pi];
                let r1 = choose|rend: Seq<char>|
                    #[trigger] filtered_rel(effective_filters(cb, pb), cb.inner, rend)
                        && child_pass_rel(
                        replace_seq(html, pb.outer, rend),
                        cblocks,
                        pblocks,
                        k + 1,
                        o1,
                    );
                let r2 = choose|rend: Seq<char>|
                    #[trigger] filtered_rel(effective_filters(cb, pb), cb.inner, rend)
                        && child_pass_rel(
                        replace_seq(html, pb.outer, rend),
                        cblocks,
                        pblocks,
                        k + 1,
                        o2,
                    );
                lemma_filtered_functional(effective_filters(cb, pb), cb.inner, r1, r2);
                lemma_child_pass_functional(
                    replace_seq(html, pb.outer, r1),
                    cblocks,
                    pblocks,
                    k + 1,
                    o1,
                    o2,
                );
            },
        }
    }
}

/// The default pass adds no nondeterminism of its own either.
proof fn lemma_default_pass_functional(
    html: Seq<char>,
    pblocks: Seq<BlockV>,
    k: int,
    o1: Seq<char>,
    o2: Seq<char>,
)
    requires
        renderer_functional(),
        default_pass_rel(html, pblocks, k, o1),
        default_pass_rel(html, pblocks, k, o2),
    ensures
        o1 == o2,
    decreases pblocks.len() - k,
{
    if 0 <= k < pblocks.len() {
        let pb = pblocks[k];
        if contains_seq(html, pb.outer) {
            let r1 = choose|rend: Seq<char>|
                #[trigger] filtered_rel(pb.filters, pb.inner, rend) && default_pass_rel(
                    replace_seq(html, pb.outer, rend),
                    pblocks,
                    k + 1,
                    o1,
                );
            let r2 = choose|rend: Seq<char>|
                #[trigger] filtered_rel(pb.filters, pb.inner, rend) && default_pass_rel(
                    replace_seq(html, pb.outer, rend),
                    pblocks,
                    k + 1,
                    o2,
                );
            lemma_filtered_functional(pb.filters, pb.inner, r1, r2);
            lemma_default_pass_functional(
                replace_seq(html, pb.outer, r1),
                pblocks,
                k + 1,
                o1,
                o2,
            );
        } else {
            lemma_default_pass_functional(html, pblocks, k + 1, o1, o2);
        }
    }
}

/// Law: with the same base set and the same page, composition gives
/// the same output whenever the outside renderer returns one
/// rendering per text; the substitution engine itself adds no
/// nondeterminism.  Composing twice then yields byte-identical output.
pub proof fn lemma_compose_deterministic(
    parents: Seq<TemplateV>,
    child: TemplateV,
    o1: Seq<char>,
    o2: Seq<char>,
)
    requires
        renderer_functional(),
        compose_rel(parents, child, o1),
        compose_rel(parents, child, o2),
    ensures
        o1 == o2,
{
    match child.extends {
        None => {},
        Some(pname) => match template_index(parents, pname) {
            None => {},
            Some(pi) => {
                let m1 = choose|mid: Seq<char>|
                    #[trigger] child_pass_rel(
                        parents[pi].content,
                        child.blocks,
                        parents[pi].blocks,
                        0,
                        mid,
                    ) && default_pass_rel(mid, parents[pi].blocks, 0, o1);
                let m2 = choose|mid: Seq<char>|
                    #[trigger] child_pass_rel(
                        parents[pi].content,
                        child.blocks,
                        parents[pi].blocks,
                        0,
                        mid,
                    ) && default_pass_rel(mid, parents[pi].blocks, 0, o2);
                lemma_child_pass_functional(
                    parents[pi].content,
                    child.blocks,
                    parents[pi].blocks,
                    0,
                    m1,
                    m2,
                );
                lemma_default_pass_functional(m1, parents[pi].blocks, 0, o1, o2);
            },
        },
    }
}

/// Law: the default pass fills an unconsumed parent block with its own
/// filtered default content: when the block's outer span still stands
/// in the working text, the pass continues on the text with that span
/// replaced by a rendering of the block's default.
pub proof fn lemma_default_fill(
    html: Seq<char>,
    pblocks: Seq<BlockV>,
    k: int,
    rend: Seq<char>,
    out: Seq<char>,
)
    requires
        0 <= k < pblocks.len(),
        contains_seq(html, pblocks[k].outer),
        filtered_rel(pblocks[k].filters, pblocks[k].inner, rend),
        default_pass_rel(replace_seq(html, pblocks[k].outer, rend), pblocks, k + 1, out),
    ensures
        default_pass_rel(html, pblocks, k, out),
{
}

} // verus!
