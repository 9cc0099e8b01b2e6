//! The closed taxonomy of build errors.  Every error is fatal: the
//! whole build aborts at the first one encountered.  Each error
//! identifies the offending file beside the construct's name.
use vstd::prelude::*;

verus! {

/// Spec-level image of a build error, over character sequences.
pub enum ErrSpec {
    /// A page template lacks an inheritance declaration.
    MissingExtends { template: Seq<char> },
    /// A template holds more than one inheritance declaration.
    MultipleExtends { template: Seq<char> },
    /// The declared parent name was not found among the base templates.
    UnresolvedParent { parent: Seq<char>, template: Seq<char> },
    /// A page declares a block its resolved parent does not have.
    UnknownBlockInChild { block: Seq<char>, child: Seq<char>, parent: Seq<char> },
    /// Opening and closing block markers carry different names.
    MismatchedBlockName { open: Seq<char>, close: Seq<char>, template: Seq<char> },
    /// A block name is declared twice in one template, or its closing
    /// marker appears twice.
    DuplicateBlock { block: Seq<char>, template: Seq<char> },
    /// A filter token outside the valid set `text`, `html`, `trim`.
    UnknownFilter { filter: Seq<char>, template: Seq<char> },
}

/// A fatal build error.  Carries the offending construct's name and
/// the file it stands in.
#[derive(Debug, Clone, PartialEq, Eq)]
pub enum TplError {
    MissingExtends { template: String },
    MultipleExtends { template: String },
    UnresolvedParent { parent: String, template: String },
    UnknownBlockInChild { block: String, child: String, parent: String },
    MismatchedBlockName { open: String, close: String, template: String },
    DuplicateBlock { block: String, template: String },
    UnknownFilter { filter: String, template: String },
}

impl View for TplError {
    type V = ErrSpec;

    open spec fn view(&self) -> ErrSpec {
        match self {
            TplError::MissingExtends { template } => ErrSpec::MissingExtends {
                template: template@,
            },
            TplError::MultipleExtends { template } => ErrSpec::MultipleExtends {
                template: template@,
            },
            TplError::UnresolvedParent { parent, template } => ErrSpec::UnresolvedParent {
                parent: parent@,
                template: template@,
            },
            TplError::UnknownBlockInChild { block, child, parent } => ErrSpec::UnknownBlockInChild {
                block: block@,
                child: child@,
                parent: parent@,
            },
            TplError::MismatchedBlockName { open, close, template } => ErrSpec::MismatchedBlockName {
                open: open@,
                close: close@,
                template: template@,
            },
            TplError::DuplicateBlock { block, template } => ErrSpec::DuplicateBlock {
                block: block@,
                template: template@,
            },
            TplError::UnknownFilter { filter, template } => ErrSpec::UnknownFilter {
                filter: filter@,
                template: template@,
            },
        }
    }
}

/// The descriptive message that `TplError::message` builds: the error,
/// the construct's name and the offending file.
pub open spec fn message_spec(e: ErrSpec) -> Seq<char> {
    match e {
        ErrSpec::MissingExtends { template } => "TemplateError: missing extends statement in \""@
            + template + "\""@,
        ErrSpec::MultipleExtends { template } => "TemplateError: multiple extends statements in \""@
            + template + "\""@,
        ErrSpec::UnresolvedParent { parent, template } => "TemplateError: unknown template \""@
            + parent + "\" in \""@ + template + "\""@,
        ErrSpec::UnknownBlockInChild { block, child, parent } => "TemplateError: block \""@ + block
            + "\" in \""@ + child + "\" not defined in base template (\""@ + parent + "\")"@,
        ErrSpec::MismatchedBlockName { open, close, template } => "TemplateError: mismatching block names (\""@
            + open + "\" / \""@ + close + "\") in template \""@ + template + "\""@,
        ErrSpec::DuplicateBlock { block, template } => "TemplateError: duplicate block \""@ + block
            + "\" in template \""@ + template + "\""@,
        ErrSpec::UnknownFilter { filter, template } => "TemplateError: invalid filter (\""@ + filter
            + "\") in template \""@ + template + "\""@,
    }
}

impl TplError {
    /// A descriptive message naming the offending construct and file.
    pub fn message(&self) -> (r: String)
        ensures
            r@ == message_spec(self@),
    {
        match self {
            TplError::MissingExtends { template } => {
                let mut m = String::from_str("TemplateError: missing extends statement in \"");
                m.append(template.as_str());
                m.append("\"");
                m
            },
            TplError::MultipleExtends { template } => {
                let mut m = String::from_str("TemplateError: multiple extends statements in \"");
                m.append(template.as_str());
                m.append("\"");
                m
            },
            TplError::UnresolvedParent { parent, template } => {
                let mut m = String::from_str("TemplateError: unknown template \"");
                m.append(parent.as_str());
                m.append("\" in \"");
                m.append(template.as_str());
                m.append("\"");
                m
            },
            TplError::UnknownBlockInChild { block, child, parent } => {
                let mut m = String::from_str("TemplateError: block \"");
                m.append(block.as_str());
                m.append("\" in \"");
                m.append(child.as_str());
                m.append("\" not defined in base template (\"");
                m.append(parent.as_str());
                m.append("\")");
                m
            },
            TplError::MismatchedBlockName { open, close, template } => {
                let mut m = String::from_str("TemplateError: mismatching block names (\"");
                m.append(open.as_str());
                m.append("\" / \"");
                m.append(close.as_str());
                m.append("\") in template \"");
                m.append(template.as_str());
                m.append("\"");
                m
            },
            TplError::DuplicateBlock { block, template } => {
                let mut m = String::from_str("TemplateError: duplicate block \"");
                m.append(block.as_str());
                m.append("\" in template \"");
                m.append(template.as_str());
                m.append("\"");
                m
            },
            TplError::UnknownFilter { filter, template } => {
                let mut m = String::from_str("TemplateError: invalid filter (\"");
                m.append(filter.as_str());
                m.append("\") in template \"");
                m.append(template.as_str());
                m.append("\"");
                m
            },
        }
    }
}

} // verus!
