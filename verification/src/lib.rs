//! A verified core for a small static-site generator: templates written
//! in HTML or MarkDown declare a single inheritance relation
//! (`{% extends "parent" %}`) and named, filterable blocks
//! (`{% block name | filter %}...{% endblock name %}`); child templates
//! are composited into their parent's text, block by block, and the
//! result is the final page.
//!
//! The parser, the inheritance resolver and the block compositor are
//! verified; MarkDown conversion, title casing and pattern matching are
//! delegated to outside crates behind trusted wrappers, and all file
//! handling stays outside this library.
pub mod assets;
pub mod compose;
pub mod config;
pub mod error;
pub mod filters;
pub mod markdown;
pub mod parse;
pub mod posts;
pub mod site;
pub mod strings;
pub mod template;
pub mod text;
