//! The whole-batch build: parse the base templates, parse the page
//! templates, composite every page against its parent and pair the
//! output text with the page's output path.  The caller supplies the
//! files as (path, content) pairs and writes the results out; no file
//! handling happens here.
use crate::compose::{compose, compose_err_spec, compose_rel, tvs};
use crate::error::{ErrSpec, TplError};
use crate::parse::{parse_page, parse_page_spec, parse_spec, parse_template};
use crate::template::{template_wf, Template, TemplateV};
use crate::text::{chars_of, lit_at, string_of};
use vstd::prelude::*;

verus! {

/// Spec-level image of a source file.
pub struct SourceFileV {
    pub path: Seq<char>,
    pub content: Seq<char>,
}

/// One template file handed to the build: its path and its full text.
#[derive(Debug, Clone, PartialEq, Eq)]
pub struct SourceFile {
    pub path: String,
    pub content: String,
}

impl View for SourceFile {
    type V = SourceFileV;

    open spec fn view(&self) -> SourceFileV {
        SourceFileV { path: self.path@, content: self.content@ }
    }
}

/// The views of a vector of source files.
pub open spec fn fvs(fs: Seq<SourceFile>) -> Seq<SourceFileV> {
    Seq::new(fs.len(), |i: int| fs[i]@)
}

/// Spec-level image of one produced page.
pub struct PageV {
    pub path: Seq<char>,
    pub html: Seq<char>,
}

/// One produced page: the output path and the composed HTML.
#[derive(Debug, Clone, PartialEq, Eq)]
pub struct Page {
    pub path: String,
    pub html: String,
}

impl View for Page {
    type V = PageV;

    open spec fn view(&self) -> PageV {
        PageV { path: self.path@, html: self.html@ }
    }
}

/// The views of a vector of pages.
pub open spec fn pvs(ps: Seq<Page>) -> Seq<PageV> {
    Seq::new(ps.len(), |i: int| ps[i]@)
}

/// The template record a parsed file yields.
pub open spec fn parsed_tv(f: SourceFileV, ext: Option<Seq<char>>, blocks: Seq<
    crate::template::BlockV,
>) -> TemplateV {
    TemplateV {
        path: f.path,
        extends: ext,
        output: Seq::empty(),
        content: f.content,
        blocks,
    }
}

/// Parse the files from index `k` on, in order; the first parse error
/// aborts the whole batch.
pub open spec fn list_from(fs: Seq<SourceFileV>, k: int) -> Result<Seq<TemplateV>, ErrSpec>
    decreases fs.len() - k,
{
    if !(0 <= k < fs.len()) {
        Ok(seq![])
    } else {
        match parse_spec(fs[k].path, fs[k].content) {
            Err(e) => Err(e),
            Ok((ext, bs)) => match list_from(fs, k + 1) {
                Err(e) => Err(e),
                Ok(rest) => Ok(seq![parsed_tv(fs[k], ext, bs)] + rest),
            },
        }
    }
}

/// The parsed records of a set of template files, or the first parse
/// error.
pub open spec fn list_spec(fs: Seq<SourceFileV>) -> Result<Seq<TemplateV>, ErrSpec> {
    list_from(fs, 0)
}

/// Parse a set of template files into template records, in order,
/// exactly as `list_spec` describes; the first error aborts.
#[verifier::loop_isolation(false)]
pub fn list(files: &Vec<SourceFile>) -> (r: Result<Vec<Template>, TplError>)
    ensures
        match r {
            Ok(ts) => {
                &&& list_spec(fvs(files@)) == Ok::<Seq<TemplateV>, ErrSpec>(tvs(ts@))
                &&& forall|i: int| 0 <= i < ts@.len() ==> template_wf(#[trigger] tvs(ts@)[i])
            },
            Err(e) => list_spec(fvs(files@)) == Err::<Seq<TemplateV>, ErrSpec>(e@),
        },
{
    let ghost fsv = fvs(files@);
    let mut out: Vec<Template> = Vec::new();
    let mut k: usize = 0;
    while k < files.len()
        invariant
            k <= files@.len(),
            list_from(fsv, k as int) is Ok ==> list_spec(fsv) == Ok::<Seq<TemplateV>, ErrSpec>(
                tvs(out@) + list_from(fsv, k as int)->Ok_0,
            ),
            list_from(fsv, k as int) is Err ==> list_spec(fsv) == list_from(fsv, k as int),
            forall|i: int| 0 <= i < out@.len() ==> template_wf(#[trigger] tvs(out@)[i]),
        decreases files@.len() - k,
    {
        let f = &files[k];
        proof {
            assert(fsv[k as int] == f@);
        }
        match parse_template(f.path.as_str(), f.content.as_str()) {
            Err(e) => {
                return Err(e);
            },
            Ok(t) => {
                let ghost tv0 = t@;
                let ghost outv0 = tvs(out@);
                out.push(t);
                proof {
                    assert(tvs(out@) =~= outv0 + seq![tv0]);
                    assert(tv0 == parsed_tv(fsv[k as int], tv0.extends, tv0.blocks));
                    if list_from(fsv, k as int + 1) is Ok {
                        assert(list_from(fsv, k as int) == Ok::<Seq<TemplateV>, ErrSpec>(
                            seq![tv0] + list_from(fsv, k as int + 1)->Ok_0,
                        ));
                        assert(tvs(out@) + list_from(fsv, k as int + 1)->Ok_0 =~= outv0 + (
                        seq![tv0] + list_from(fsv, k as int + 1)->Ok_0));
                    } else {
                        assert(list_from(fsv, k as int) == list_from(fsv, k as int + 1));
                    }
                    assert forall|i: int| 0 <= i < out@.len() implies template_wf(
                        #[trigger] tvs(out@)[i],
                    ) by {
                        if i < out@.len() - 1 {
                            assert(tvs(out@)[i] == outv0[i]);
                        } else {
                            assert(tvs(out@)[i] == tv0);
                        }
                    }
                }
                k = k + 1;
            },
        }
    }
    proof {
        assert(tvs(out@) + list_from(fsv, k as int)->Ok_0 =~= tvs(out@));
    }
    Ok(out)
}

/// The output path a page's source path yields: the source-root prefix
/// is replaced with the output root, and a trailing `.md` becomes
/// `.html`.
pub open spec fn output_path_spec(p: Seq<char>, sroot: Seq<char>, oroot: Seq<char>) -> Seq<char> {
    let q = if p.len() >= sroot.len() && p.subrange(0, sroot.len() as int) == sroot {
        oroot + p.subrange(sroot.len() as int, p.len() as int)
    } else {
        p
    };
    if q.len() >= 3 && q.subrange(q.len() - 3, q.len() as int) == seq!['.', 'm', 'd'] {
        q.subrange(0, q.len() - 3) + seq!['.', 'h', 't', 'm', 'l']
    } else {
        q
    }
}

/// Compute a page's output path, exactly as `output_path_spec`
/// describes.
pub fn output_path(p: &str, sroot: &str, oroot: &str) -> (r: String)
    ensures
        r@ == output_path_spec(p@, sroot@, oroot@),
{
    let pc = chars_of(p);
    let sc = chars_of(sroot);
    let oc = chars_of(oroot);
    let mut q: Vec<char>;
    if crate::text::lit_at_exec(&pc, 0, &sc) {
        let rest = copy_tail(&pc, sc.len());
        q = copy_all(&oc);
        crate::text::append_chars(&mut q, &rest);
    } else {
        proof {
            if pc@.len() >= sc@.len() && pc@.subrange(0, sc@.len() as int) == sc@ {
                assert(lit_at(pc@, 0, sc@));
            }
        }
        q = copy_all(&pc);
    }
    let md: Vec<char> = vec!['.', 'm', 'd'];
    proof {
        assert(md@ =~= seq!['.', 'm', 'd']);
    }
    if q.len() >= 3 && crate::text::lit_at_exec(&q, q.len() - 3, &md) {
        let mut out = copy_head(&q, q.len() - 3);
        let html_ext: Vec<char> = vec!['.', 'h', 't', 'm', 'l'];
        crate::text::append_chars(&mut out, &html_ext);
        proof {
            assert(q@.subrange(q@.len() - 3, q@.len() as int) == md@);
        }
        string_of(&out)
    } else {
        proof {
            if q@.len() >= 3 && q@.subrange(q@.len() - 3, q@.len() as int) == seq![
                '.',
                'm',
                'd',
            ] {
                assert(lit_at(q@, q@.len() - 3, md@));
            }
        }
        string_of(&q)
    }
}

/// Copy the characters of `v` from index `a` on.
fn copy_tail(v: &Vec<char>, a: usize) -> (r: Vec<char>)
    requires
        a <= v@.len(),
    ensures
        r@ == v@.subrange(a as int, v@.len() as int),
{
    let mut out: Vec<char> = Vec::new();
    let mut k: usize = a;
    while k < v.len()
        invariant
            a <= k <= v@.len(),
            out@ == v@.subrange(a as int, k as int),
        decreases v@.len() - k,
    {
        out.push(v[k]);
        k = k + 1;
        proof {
            assert(out@ =~= v@.subrange(a as int, k as int));
        }
    }
    out
}

/// Copy the first `b` characters of `v`.
fn copy_head(v: &Vec<char>, b: usize) -> (r: Vec<char>)
    requires
        b <= v@.len(),
    ensures
        r@ == v@.subrange(0, b as int),
{
    let mut out: Vec<char> = Vec::new();
    let mut k: usize = 0;
    while k < b
        invariant
            k <= b <= v@.len(),
            out@ == v@.subrange(0, k as int),
        decreases b - k,
    {
        out.push(v[k]);
        k = k + 1;
        proof {
            assert(out@ =~= v@.subrange(0, k as int));
        }
    }
    out
}

/// Copy all characters of `v`.
fn copy_all(v: &Vec<char>) -> (r: Vec<char>)
    ensures
        r@ == v@,
{
    let r = copy_head(v, v.len());
    proof {
        assert(r@ =~= v@);
    }
    r
}

/// The error the page batch fails with, if any, from page `k` on:
/// the first parse or composition error, in page order.  This
/// depends on the templates alone.
pub open spec fn pages_err(parents: Seq<TemplateV>, ps: Seq<SourceFileV>, k: int) -> Option<
    ErrSpec,
>
    decreases ps.len() - k,
{
    if !(0 <= k < ps.len()) {
        None
    } else {
        match parse_page_spec(ps[k].path, ps[k].content) {
            Err(e) => Some(e),
            Ok((pname, bs)) => match compose_err_spec(parents, parsed_tv(ps[k], Some(pname), bs)) {
                Some(e) => Some(e),
                None => pages_err(parents, ps, k + 1),
            },
        }
    }
}

/// The error the whole build fails with, if any: the first base parse
/// error, else the first page error.
pub open spec fn build_err_spec(bases: Seq<SourceFileV>, pages: Seq<SourceFileV>) -> Option<
    ErrSpec,
> {
    match list_spec(bases) {
        Err(e) => Some(e),
        Ok(parents) => pages_err(parents, pages, 0),
    }
}

/// One produced page is right for its source file: the file parses as
/// a page, the output path is derived from the source path, and the
/// text stands in the composition relation to the parsed page and the
/// bases.
pub open spec fn page_ok(
    parents: Seq<TemplateV>,
    f: SourceFileV,
    sroot: Seq<char>,
    oroot: Seq<char>,
    pv: PageV,
) -> bool {
    match parse_page_spec(f.path, f.content) {
        Err(_) => false,
        Ok((pname, bs)) => {
            &&& pv.path == output_path_spec(f.path, sroot, oroot)
            &&& compose_rel(parents, parsed_tv(f, Some(pname), bs), pv.html)
        },
    }
}

/// Run the whole build: parse the bases, then parse and composite
/// every page in order.  It fails exactly as `build_err_spec` says;
/// on success every produced page satisfies `page_ok` against the
/// parsed bases.  `sroot` and `oroot` are the source and output
/// directory prefixes used to derive each page's output path.
#[verifier::loop_isolation(false)]
pub fn build(bases: &Vec<SourceFile>, pages: &Vec<SourceFile>, sroot: &str, oroot: &str) -> (r:
    Result<Vec<Page>, TplError>)
    ensures
        match r {
            Ok(ps) => {
                &&& build_err_spec(fvs(bases@), fvs(pages@)) is None
                &&& list_spec(fvs(bases@)) is Ok
                &&& ps@.len() == pages@.len()
                &&& forall|i: int|
                    0 <= i < ps@.len() ==> page_ok(
                        list_spec(fvs(bases@))->Ok_0,
                        fvs(pages@)[i],
                        sroot@,
                        oroot@,
                        (#[trigger] ps@[i])@,
                    )
            },
            Err(e) => build_err_spec(fvs(bases@), fvs(pages@)) == Some(e@),
        },
{
    let parents: Vec<Template> = match list(bases) {
        Err(e) => {
            return Err(e);
        },
        Ok(ts) => ts,
    };
    let ghost parentsv = tvs(parents@);
    let ghost psv = fvs(pages@);
    let mut out: Vec<Page> = Vec::new();
    let mut k: usize = 0;
    while k < pages.len()
        invariant
            k <= pages@.len(),
            out@.len() == k,
            pages_err(parentsv, psv, 0) == pages_err(parentsv, psv, k as int),
            forall|i: int|
                0 <= i < k ==> page_ok(parentsv, psv[i], sroot@, oroot@, (#[trigger] out@[i])@),
        decreases pages@.len() - k,
    {
        let f = &pages[k];
        proof {
            assert(psv[k as int] == f@);
        }
        let t = match parse_page(f.path.as_str(), f.content.as_str()) {
            Err(e) => {
                return Err(e);
            },
            Ok(t) => t,
        };
        proof {
            assert(t@ == parsed_tv(psv[k as int], t@.extends, t@.blocks));
        }
        let html = match compose(&parents, &t) {
            Err(e) => {
                return Err(e);
            },
            Ok(h) => h,
        };
        let path = output_path(f.path.as_str(), sroot, oroot);
        let page = Page { path, html };
        let ghost pv0 = page@;
        out.push(page);
        proof {
            assert(page_ok(parentsv, psv[k as int], sroot@, oroot@, pv0));
            assert(pages_err(parentsv, psv, k as int) == pages_err(parentsv, psv, k as int + 1));
            assert forall|i: int|
                0 <= i < k + 1 implies page_ok(
                parentsv,
                psv[i],
                sroot@,
                oroot@,
                (#[trigger] out@[i])@,
            ) by {
                if i < k {
                    assert(out@[i] == out@.drop_last()[i]);
                } else {
                    assert(out@[i]@ == pv0);
                }
            }
        }
        k = k + 1;
    }
    Ok(out)
}

} // verus!
