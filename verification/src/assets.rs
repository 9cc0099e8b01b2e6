//! Asset handling: the declarations a build names (single files,
//! filtered folders, stylesheets) and the verified planning of folder
//! copies.  Which walked paths pass a user-supplied check pattern is
//! decided by the outside regex engine behind a trusted wrapper; the
//! selection and destination logic around it is verified.  Walking
//! directories and copying files stay outside this library.
use crate::text::{chars_of, find_from, string_of};
use vstd::prelude::*;

verus! {

/// One asset declaration of a build.
///
/// `File(source, destination, overwrite)` copies one file;
/// `Folder(source, check, overwrite)` copies the files under a glob
/// pattern whose paths match the check pattern;
/// `Scss(source, destination)` compiles one stylesheet.
#[derive(Debug, Clone, PartialEq, Eq)]
pub enum Asset {
    File(String, String, bool),
    Folder(String, String, bool),
    Scss(String, String),
}

/// The check pattern is a valid regular expression.
pub uninterp spec fn regex_valid(pat: Seq<char>) -> bool;

/// Whether the pattern matches somewhere in the text, as the outside
/// matcher decides it.  A function of the pattern and the text alone.
pub uninterp spec fn regex_match(pat: Seq<char>, text: Seq<char>) -> bool;

/// Relies on `regex::Regex::new` and `regex::Regex::is_match`:
/// whether the pattern compiles, and whether it matches the text;
/// both depend on the pattern and the text alone.
#[verifier::external_body]
fn regex_is_match(pat: &str, text: &str) -> (r: Option<bool>)
    ensures
        r is Some <==> regex_valid(pat@),
        match r {
            Some(b) => b == regex_match(pat@, text@),
            None => true,
        },
{
    match regex::Regex::new(pat) {
        Ok(re) => Some(re.is_match(text)),
        Err(_) => None,
    }
}

/// The copy destination a walked path yields: everything after its
/// first path segment, under the output root.  A path without a
/// segment separator, or one spanning lines, is kept as it is.
pub open spec fn folder_destination_spec(path: Seq<char>, root: Seq<char>) -> Seq<char> {
    if path.contains('\n') {
        path
    } else {
        match find_from(path, seq!['/'], 0) {
            None => path,
            Some(i) => root + seq!['/'] + path.subrange(i + 1, path.len() as int),
        }
    }
}

/// Compute a walked path's copy destination, exactly as
/// `folder_destination_spec` describes.
pub fn folder_destination(path: &str, root: &str) -> (r: String)
    ensures
        r@ == folder_destination_spec(path@, root@),
{
    let pc = chars_of(path);
    let n = pc.len();
    if crate::text::has_char(&pc, '\n') {
        return string_of(&pc);
    }
    let slash: Vec<char> = vec!['/'];
    proof {
        assert(slash@ =~= seq!['/']);
    }
    match crate::text::find_from_exec(&pc, &slash, 0) {
        None => string_of(&pc),
        Some(i) => {
            proof {
                crate::parse::lemma_find_from(pc@, slash@, 0);
            }
            let mut out = chars_of(root);
            out.push('/');
            let ghost head = root@ + seq!['/'];
            proof {
                assert(out@ =~= head);
            }
            let tail = crate::text::copy_range(&pc, i + 1, n);
            crate::text::append_chars(&mut out, &tail);
            string_of(&out)
        },
    }
}

/// The copy plan of a folder declaration from path `k` on: each
/// walked path the check pattern matches, paired with its
/// destination.
pub open spec fn folder_plan_spec(
    paths: Seq<Seq<char>>,
    check: Seq<char>,
    root: Seq<char>,
    k: int,
) -> Seq<(Seq<char>, Seq<char>)>
    decreases paths.len() - k,
{
    if !(0 <= k < paths.len()) {
        seq![]
    } else {
        (if regex_match(check, paths[k]) {
            seq![(paths[k], folder_destination_spec(paths[k], root))]
        } else {
            seq![]
        }) + folder_plan_spec(paths, check, root, k + 1)
    }
}

/// The views of a plan's entries.
pub open spec fn plan_view(v: Seq<(String, String)>) -> Seq<(Seq<char>, Seq<char>)> {
    Seq::new(v.len(), |i: int| (v[i].0@, v[i].1@))
}

/// The views of the walked paths.
pub open spec fn paths_view(v: Seq<String>) -> Seq<Seq<char>> {
    Seq::new(v.len(), |i: int| v[i]@)
}

/// Plan a folder copy: pair every walked path the check pattern
/// matches with its destination, exactly as `folder_plan_spec`
/// describes; an invalid check pattern yields nothing.
#[verifier::loop_isolation(false)]
pub fn folder_plan(paths: &Vec<String>, check: &str, root: &str) -> (r: Option<
    Vec<(String, String)>,
>)
    ensures
        r is Some <==> regex_valid(check@),
        match r {
            Some(plan) => plan_view(plan@) == folder_plan_spec(
                paths_view(paths@),
                check@,
                root@,
                0,
            ),
            None => true,
        },
{
    match regex_is_match(check, "") {
        None => {
            return None;
        },
        Some(_) => {},
    }
    let ghost pv = paths_view(paths@);
    let mut plan: Vec<(String, String)> = Vec::new();
    let mut k: usize = 0;
    while k < paths.len()
        invariant
            k <= paths@.len(),
            regex_valid(check@),
            plan_view(plan@) + folder_plan_spec(pv, check@, root@, k as int) == folder_plan_spec(
                pv,
                check@,
                root@,
                0,
            ),
        decreases paths@.len() - k,
    {
        let p = &paths[k];
        proof {
            assert(pv[k as int] == p@);
        }
        let matched = match regex_is_match(check, p.as_str()) {
            Some(b) => b,
            None => {
                proof {
                    assert(false);
                }
                false
            },
        };
        if matched {
            let dest = folder_destination(p.as_str(), root);
            let ghost plan0 = plan_view(plan@);
            plan.push((p.clone(), dest));
            proof {
                assert(plan_view(plan@) =~= plan0 + seq![
                    (p@, folder_destination_spec(p@, root@)),
                ]);
                assert(plan_view(plan@) + folder_plan_spec(pv, check@, root@, k + 1)
                    =~= folder_plan_spec(pv, check@, root@, 0));
            }
        } else {
            proof {
                assert(folder_plan_spec(pv, check@, root@, k as int) =~= folder_plan_spec(
                    pv,
                    check@,
                    root@,
                    k + 1,
                ));
            }
        }
        k = k + 1;
    }
    proof {
        assert(plan_view(plan@) =~= folder_plan_spec(pv, check@, root@, 0));
    }
    Some(plan)
}

} // verus!
