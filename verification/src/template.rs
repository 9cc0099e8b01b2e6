//! The template data model: one canonical record for a parsed template
//! and one for each of its named blocks.
use crate::filters::Filter;
use vstd::prelude::*;

verus! {

/// Spec-level image of a block.
pub struct BlockV {
    pub name: Seq<char>,
    pub filters: Seq<Filter>,
    pub outer: Seq<char>,
    pub inner: Seq<char>,
}

/// One named, filterable region of a template.
///
/// For a declaration
/// `{% block title | trim %}Hello{% endblock title %}`
/// the record holds the name `title`, the filter list `[trim]`, the
/// whole declaration as `content_outer` and `Hello` as `content`.
#[derive(Debug, Clone, PartialEq, Eq)]
pub struct Block {
    /// The block's name, matched between opening and closing markers.
    pub name: String,
    /// The declared output filters, in order; empty means the default
    /// MarkDown rendering.
    pub filters: Vec<Filter>,
    /// The verbatim text from the opening marker through the closing
    /// marker inclusive: the span replaced during substitution.
    pub content_outer: String,
    /// The text strictly between the markers: the raw block content.
    pub content: String,
}

impl View for Block {
    type V = BlockV;

    open spec fn view(&self) -> BlockV {
        BlockV {
            name: self.name@,
            filters: self.filters@,
            outer: self.content_outer@,
            inner: self.content@,
        }
    }
}

/// Spec-level image of a template record.
pub struct TemplateV {
    pub path: Seq<char>,
    pub extends: Option<Seq<char>>,
    pub output: Seq<char>,
    pub content: Seq<char>,
    pub blocks: Seq<BlockV>,
}

/// A parsed template.  A record with a declared parent is a page
/// (child); one without is a base (parent) used only as a substitution
/// substrate.  Resolution is exactly one level deep.
#[derive(Debug, Clone, PartialEq, Eq)]
pub struct Template {
    /// The template's identity: its source file path.
    pub path: String,
    /// The parent named by the template's extends declaration, if any.
    pub extends: Option<String>,
    /// The output file path; meaningful only for pages.
    pub output: String,
    /// The template file's full text.
    pub content: String,
    /// The template's blocks, in order of declaration, names unique.
    pub blocks: Vec<Block>,
}

/// The views of a sequence of blocks.
pub open spec fn blocks_view(bs: Seq<Block>) -> Seq<BlockV> {
    Seq::new(bs.len(), |i: int| bs[i]@)
}

impl View for Template {
    type V = TemplateV;

    open spec fn view(&self) -> TemplateV {
        TemplateV {
            path: self.path@,
            extends: match self.extends {
                Some(ref p) => Some(p@),
                None => None,
            },
            output: self.output@,
            content: self.content@,
            blocks: blocks_view(self.blocks@),
        }
    }
}

/// Index of the first block at or after `i` with the given name.
pub open spec fn block_index_from(blocks: Seq<BlockV>, name: Seq<char>, i: int) -> Option<int>
    decreases blocks.len() - i,
{
    if !(0 <= i < blocks.len()) {
        None
    } else if blocks[i].name == name {
        Some(i)
    } else {
        block_index_from(blocks, name, i + 1)
    }
}

/// Index of the first block with the given name, if any.
pub open spec fn block_index(blocks: Seq<BlockV>, name: Seq<char>) -> Option<int> {
    block_index_from(blocks, name, 0)
}

/// A hit of the first-index search carries the name; a miss means no
/// block at or after `i` carries it.
pub proof fn lemma_block_index_from(blocks: Seq<BlockV>, name: Seq<char>, i: int)
    requires
        0 <= i,
    ensures
        match block_index_from(blocks, name, i) {
            Some(j) => i <= j < blocks.len() && blocks[j].name == name,
            None => forall|j: int| i <= j < blocks.len() ==> (#[trigger] blocks[j]).name != name,
        },
    decreases blocks.len() - i,
{
    if i < blocks.len() && blocks[i].name != name {
        lemma_block_index_from(blocks, name, i + 1);
    }
}

/// A well-formed block: its outer span is non-empty (it starts with a
/// marker), so substitution on it is meaningful.
pub open spec fn block_wf(b: BlockV) -> bool {
    b.outer.len() > 0
}

/// A well-formed template: every block is well-formed and block names
/// are unique within the template.
pub open spec fn template_wf(t: TemplateV) -> bool {
    &&& forall|i: int| 0 <= i < t.blocks.len() ==> block_wf(#[trigger] t.blocks[i])
    &&& forall|i: int, j: int|
        0 <= i < j < t.blocks.len() ==> (#[trigger] t.blocks[i]).name != (#[trigger] t.blocks[j]).name
}

impl Template {
    /// The record describes a page: it declares a parent.
    pub fn is_page(&self) -> (r: bool)
        ensures
            r == (self@.extends is Some),
    {
        self.extends.is_some()
    }
}

/// Find the first block with the given name, returning its index,
/// exactly as `block_index` describes on the blocks' views.
pub fn find_block(blocks: &Vec<Block>, name: &String) -> (r: Option<usize>)
    ensures
        match r {
            Some(i) => block_index(blocks_view(blocks@), name@) == Some(i as int) && i
                < blocks@.len() && blocks@[i as int]@.name == name@,
            None => block_index(blocks_view(blocks@), name@) is None,
        },
{
    let ghost bv = blocks_view(blocks@);
    let mut i: usize = 0;
    while i < blocks.len()
        invariant
            i <= blocks@.len(),
            bv == blocks_view(blocks@),
            block_index_from(bv, name@, 0) == block_index_from(bv, name@, i as int),
        decreases blocks@.len() - i,
    {
        proof {
            assert(bv[i as int] == blocks@[i as int]@);
        }
        if blocks[i].name == *name {
            return Some(i);
        }
        i = i + 1;
    }
    None
}

} // verus!
