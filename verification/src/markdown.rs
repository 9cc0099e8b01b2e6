//! The MarkDown-to-HTML conversion, delegated to an outside renderer.
//! The renderer is not named as a function of its input: while it
//! works it hides inline scripts and styles behind randomly numbered
//! placeholders, so on a text that itself contains a placeholder-shaped
//! string two runs can return different output.  The library therefore
//! states only a relation — this output is one the renderer returned
//! for this input — and everything downstream is verified for every
//! value the renderer may hand back.
use vstd::prelude::*;

verus! {

/// The output `r` is a rendering the MarkDown renderer returned for
/// the text `s`.
pub uninterp spec fn md_renders(s: Seq<char>, r: Seq<char>) -> bool;

/// Relies on `marcus::to_string`: converts a MarkDown string to HTML.
/// Nothing more is claimed of the result than the relation above.
/// The converter aborts the process on a few malformed constructs (a
/// blockquote that opens deeper than one level, a link or image title
/// whose two quote delimiters differ); such an abort is the fail-fast
/// abort of the whole batch build, as the converter itself raises it.
/// The aborting set cannot be stated over the input here: it depends
/// on the interleaving of the converter's own rewriting passes.
#[verifier::external_body]
pub(crate) fn md_chars(v: &Vec<char>) -> (r: Vec<char>)
    ensures
        md_renders(v@, r@),
{
    let s: String = v.iter().collect();
    marcus::to_string(s).chars().collect()
}

/// Convert MarkDown text to HTML through the outside renderer.
pub fn markdown_to_html(text: &str) -> (r: String)
    ensures
        md_renders(text@, r@),
{
    let v = crate::text::chars_of(text);
    let h = md_chars(&v);
    crate::text::string_of(&h)
}

} // verus!
