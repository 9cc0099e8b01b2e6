use antwerp::compose::compose;
use antwerp::error::TplError;
use antwerp::filters::{output, Filter};
use antwerp::parse::{parse_page, parse_template};
use antwerp::site::{build, list, output_path, SourceFile};

fn file(path: &str, content: &str) -> SourceFile {
    SourceFile { path: path.to_string(), content: content.to_string() }
}

/// The whole build over an in-memory base and page, end to end.
#[test]
fn antwerp() {
    let bases = vec![file(
        "base.html",
        "<h1>{% block title %}Default{% endblock title %}</h1>",
    )];
    let pages = vec![file(
        "public/page.md",
        "{% extends \"base.html\" %}{% block title %}Hello{% endblock title %}",
    )];
    let out = build(&bases, &pages, "public", "dist").unwrap();
    assert_eq!(out.len(), 1);
    assert_eq!(out[0].path, "dist/page.html");
    assert_eq!(out[0].html, "<h1><p>Hello</p></h1>");
}

#[test]
fn e2e_markdown_default() {
    let bases = vec![file(
        "base.html",
        "<h1>{% block title %}Default{% endblock title %}</h1>",
    )];
    let pages = vec![file(
        "page.md",
        "{% extends \"base.html\" %}{% block title %}Hello{% endblock title %}",
    )];
    let out = build(&bases, &pages, "", "").unwrap();
    assert_eq!(out[0].html, "<h1><p>Hello</p></h1>");
}

#[test]
fn e2e_text_filter_raw() {
    let bases = vec![file(
        "base.html",
        "<h1>{% block title %}Default{% endblock title %}</h1>",
    )];
    let pages = vec![file(
        "page.md",
        "{% extends \"base.html\" %}{% block title | text %}Raw & Unescaped{% endblock title %}",
    )];
    let out = build(&bases, &pages, "", "").unwrap();
    assert_eq!(out[0].html, "<h1>Raw & Unescaped</h1>");
}

#[test]
fn e2e_unresolved_parent() {
    let bases = vec![file(
        "base.html",
        "<h1>{% block title %}Default{% endblock title %}</h1>",
    )];
    let pages = vec![file(
        "page.md",
        "{% extends \"missing.html\" %}{% block title %}Hello{% endblock title %}",
    )];
    let err = build(&bases, &pages, "", "").unwrap_err();
    match &err {
        TplError::UnresolvedParent { parent, template } => {
            assert_eq!(parent, "missing.html");
            assert_eq!(template, "page.md");
        },
        other => panic!("unexpected error: {:?}", other),
    }
    assert_eq!(
        err.message(),
        "TemplateError: unknown template \"missing.html\" in \"page.md\""
    );
}

#[test]
fn e2e_unknown_block_in_child() {
    let bases = vec![file(
        "base.html",
        "<h1>{% block title %}Default{% endblock title %}</h1>",
    )];
    let pages = vec![file(
        "page.md",
        "{% extends \"base.html\" %}{% block unknown %}x{% endblock unknown %}",
    )];
    let err = build(&bases, &pages, "", "").unwrap_err();
    match &err {
        TplError::UnknownBlockInChild { block, child, parent } => {
            assert_eq!(block, "unknown");
            assert_eq!(child, "page.md");
            assert_eq!(parent, "base.html");
        },
        other => panic!("unexpected error: {:?}", other),
    }
    assert_eq!(
        err.message(),
        "TemplateError: block \"unknown\" in \"page.md\" not defined in base template (\"base.html\")"
    );
}

/// Parsing a template with two blocks of the same name fails with a
/// duplicate-block error, whatever their contents.
#[test]
fn duplicate_block_name_rejected() {
    let err = parse_template(
        "t.md",
        "{% block greeting %}A{% endblock greeting %}{% block greeting %}B{% endblock greeting %}",
    )
    .unwrap_err();
    match &err {
        TplError::DuplicateBlock { block, template } => {
            assert_eq!(block, "greeting");
            assert_eq!(template, "t.md");
        },
        other => panic!("unexpected error: {:?}", other),
    }
}

/// A duplicated closing marker is a duplicate block too.
#[test]
fn duplicate_endblock_rejected() {
    let err = parse_template(
        "t.md",
        "{% block a %}x{% endblock a %} stray {% endblock a %}",
    )
    .unwrap_err();
    assert!(matches!(err, TplError::DuplicateBlock { .. }));
}

/// Mismatched opening and closing names fail.
#[test]
fn mismatched_block_name_rejected() {
    let err = parse_template("t.md", "{% block a %}...{% endblock b %}").unwrap_err();
    match &err {
        TplError::MismatchedBlockName { open, close, template } => {
            assert_eq!(open, "a");
            assert_eq!(close, "b");
            assert_eq!(template, "t.md");
        },
        other => panic!("unexpected error: {:?}", other),
    }
}

#[test]
fn unknown_filter_rejected() {
    let err = parse_template("t.md", "{% block a | bogus %}x{% endblock a %}").unwrap_err();
    match &err {
        TplError::UnknownFilter { filter, template } => {
            assert_eq!(filter, "bogus");
            assert_eq!(template, "t.md");
        },
        other => panic!("unexpected error: {:?}", other),
    }
}

#[test]
fn missing_extends_rejected_for_pages() {
    let err = parse_page("p.md", "{% block a %}x{% endblock a %}").unwrap_err();
    assert!(matches!(err, TplError::MissingExtends { .. }));
}

/// A page's inheritance declaration is checked before its blocks: a
/// page that lacks one and also carries a bad filter reports the
/// missing declaration.
#[test]
fn missing_extends_takes_precedence() {
    let err = parse_page("p.md", "{% block a | bogus %}x{% endblock a %}").unwrap_err();
    assert!(matches!(err, TplError::MissingExtends { .. }));
}

#[test]
fn multiple_extends_rejected() {
    let err = parse_template(
        "p.md",
        "{% extends \"a.html\" %}{% extends \"b.html\" %}",
    )
    .unwrap_err();
    assert!(matches!(err, TplError::MultipleExtends { .. }));
}

#[test]
fn parse_records_blocks_and_parent() {
    let t = parse_page(
        "p.md",
        "{% extends \"base.html\" %}{% block title | trim | text %} Hi {% endblock title %}",
    )
    .unwrap();
    assert_eq!(t.extends.as_deref(), Some("base.html"));
    assert_eq!(t.blocks.len(), 1);
    assert_eq!(t.blocks[0].name, "title");
    assert_eq!(t.blocks[0].filters, vec![Filter::Trim, Filter::Text]);
    assert_eq!(t.blocks[0].content, " Hi ");
    assert_eq!(
        t.blocks[0].content_outer,
        "{% block title | trim | text %} Hi {% endblock title %}"
    );
}

#[test]
fn markers_tolerate_whitespace() {
    let t = parse_page(
        "p.md",
        "{%  extends  \"base.html\"  %}{%  block  title  %}x{%  endblock  title  %}",
    )
    .unwrap();
    assert_eq!(t.extends.as_deref(), Some("base.html"));
    assert_eq!(t.blocks[0].name, "title");
}

/// A page block with no filters adopts the parent block's declared
/// filters for that slot.
#[test]
fn filters_inherited_from_parent_block() {
    let bases = vec![file(
        "base.html",
        "[{% block t | text %}D{% endblock t %}]",
    )];
    let pages = vec![file(
        "p.md",
        "{% extends \"base.html\" %}{% block t %} X {% endblock t %}",
    )];
    let out = build(&bases, &pages, "", "").unwrap();
    assert_eq!(out[0].html, "[ X ]");
}

#[test]
fn trim_filter_strips_whitespace() {
    let bases = vec![file("base.html", "[{% block t %}D{% endblock t %}]")];
    let pages = vec![file(
        "p.md",
        "{% extends \"base.html\" %}{% block t | trim %}  X  {% endblock t %}",
    )];
    let out = build(&bases, &pages, "", "").unwrap();
    assert_eq!(out[0].html, "[X]");
}

/// A parent block the page leaves out keeps its own filtered default.
#[test]
fn default_fill_for_unspecified_blocks() {
    let bases = vec![file(
        "base.html",
        "<main>{% block title | text %}DT{% endblock title %}|{% block body | text %}DB{% endblock body %}</main>",
    )];
    let pages = vec![file(
        "p.md",
        "{% extends \"base.html\" %}{% block title | text %}CT{% endblock title %}",
    )];
    let out = build(&bases, &pages, "", "").unwrap();
    assert_eq!(out[0].html, "<main>CT|DB</main>");
}

/// No filters and a single `html` filter render identically.
#[test]
fn default_equals_html_filter() {
    let text = "**bold** text".to_string();
    assert_eq!(output(&vec![], &text), output(&vec![Filter::Html], &text));
}

/// The `text` filter never changes the text.
#[test]
fn text_filter_is_identity() {
    let text = "  anything at *all*  ".to_string();
    assert_eq!(output(&vec![Filter::Text], &text), text);
    assert_eq!(
        output(&vec![Filter::Text, Filter::Text], &text),
        output(&vec![Filter::Text], &text)
    );
}

/// Composing twice with the same inputs is byte-identical.
#[test]
fn compose_is_deterministic() {
    let parents = vec![parse_template(
        "base.html",
        "<h1>{% block title %}Default{% endblock title %}</h1>",
    )
    .unwrap()];
    let child = parse_page(
        "p.md",
        "{% extends \"base.html\" %}{% block title %}Hello{% endblock title %}",
    )
    .unwrap();
    let a = compose(&parents, &child).unwrap();
    let b = compose(&parents, &child).unwrap();
    assert_eq!(a, b);
}

/// The MarkDown rendering is the outside renderer's, not a pass-through.
#[test]
fn markdown_matches_renderer() {
    let text = "**bold** text".to_string();
    let rendered = output(&vec![], &text);
    assert_eq!(rendered, marcus::to_string(text.clone()));
    assert_ne!(rendered, text);
}

#[test]
fn output_path_swaps_root_and_extension() {
    assert_eq!(output_path("public/a/b.md", "public", "dist"), "dist/a/b.html");
    assert_eq!(output_path("other/a.md", "public", "dist"), "other/a.html");
    assert_eq!(output_path("public/x.html", "public", "dist"), "dist/x.html");
}

#[test]
fn list_parses_each_file() {
    let files = vec![
        file("a.html", "A {% block x %}1{% endblock x %}"),
        file("b.html", "B"),
    ];
    let ts = list(&files).unwrap();
    assert_eq!(ts.len(), 2);
    assert_eq!(ts[0].path, "a.html");
    assert_eq!(ts[0].blocks.len(), 1);
    assert_eq!(ts[1].path, "b.html");
    assert_eq!(ts[1].blocks.len(), 0);
}

/// A base may carry an inheritance declaration; it is recorded but
/// never resolved, and the base still serves as a substrate.
#[test]
fn base_extends_recorded_not_resolved() {
    let t = parse_template("b.html", "{% extends \"x.html\" %}body").unwrap();
    assert_eq!(t.extends.as_deref(), Some("x.html"));
}

#[test]
fn error_messages_name_the_construct() {
    let dup = parse_template(
        "t.md",
        "{% block g %}a{% endblock g %}{% block g %}b{% endblock g %}",
    )
    .unwrap_err();
    assert_eq!(dup.message(), "TemplateError: duplicate block \"g\" in template \"t.md\"");
    let bad = parse_template("t.md", "{% block a | bogus %}x{% endblock a %}").unwrap_err();
    assert_eq!(bad.message(), "TemplateError: invalid filter (\"bogus\") in template \"t.md\"");
    let mm = parse_template("t.md", "{% block a %}x{% endblock b %}").unwrap_err();
    assert_eq!(
        mm.message(),
        "TemplateError: mismatching block names (\"a\" / \"b\") in template \"t.md\""
    );
}
