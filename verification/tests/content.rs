use antwerp::config::{Config, ConfigAuthor, ConfigHeader, ConfigPosts, unwrap_string};
use antwerp::posts::{estimated_read_time, header_data, metadata, path_render, post_url, table_of_contents, Post};
use antwerp::site::SourceFile;
use antwerp::strings::{escape_html, string_to_slug};

fn sample_config() -> Config {
    let mut c = Config::new();
    c.url_root = Some("https://example.org".to_string());
    c.path_render = Some("articles/%category/%slug.html".to_string());
    c.header = ConfigHeader { image: None, credits: None };
    c.author = ConfigAuthor {
        name: Some("Ada".to_string()),
        image: Some("ada.png".to_string()),
        github_url: Some("https://github.com/ada".to_string()),
        github_username: Some("ada".to_string()),
    };
    c
}

#[test]
fn escape_html_cascades() {
    assert_eq!(escape_html(&"a&b".to_string()), "a&#38&#59;b");
    assert_eq!(escape_html(&"plain words".to_string()), "plain words");
}

#[test]
fn slug_joins_alphanumeric_runs() {
    assert_eq!(string_to_slug(&"Hello, World!".to_string()), "hello-world");
    assert_eq!(string_to_slug(&"  A  B  ".to_string()), "a-b");
    assert_eq!(string_to_slug(&"HeLLo".to_string()), "hello");
    assert_eq!(string_to_slug(&"---".to_string()), "");
}

#[test]
fn read_time_rounds_up() {
    assert_eq!(estimated_read_time(&"short text".to_string()), "1 minute read");
    let long = vec!["word"; 200].join(" ");
    assert_eq!(estimated_read_time(&long), "2 minute read");
}

#[test]
fn metadata_plugs_escaped_fields() {
    let mut p = Post::new();
    p.title = "Hi".to_string();
    let m = metadata(&p);
    let expected = format!(
        "<meta name=\"keywords\" content=\"{keywords}\" /><meta name=\"category\" content=\"{category}\" />
     <meta name=\"topic\" content=\"{subcategory}\" /><meta name=\"revised\" content=\"{published}\" />
     <meta name=\"date\" content=\"{published}\" /><meta name=\"pagename\" content=\"{title}\" />
     <meta name=\"title\" content=\"{title}\" /><meta name=\"description\" content=\"{description}\" />
     <meta name=\"abstract\" content=\"{description}\" /><meta name=\"summary\" content=\"{description}\" />
     <meta name=\"subtitle\" content=\"{description}\" /><meta name=\"syndication-source\" content=\"{url}\" />
     <meta name=\"original-source\" content=\"{url}\" /><meta name=\"og:type\" content=\"{genre}\" />
     <meta name=\"og:title\" content=\"{title}\" /><meta name=\"og:description\" content=\"{description}\" />
     <meta name=\"og:url\" content=\"{url}\" /><meta name=\"og:image\" content=\"/images/{image}\" />
     <link rel=\"bookmark\" title=\"{title}\" href=\"{url}\" /><link rel=\"canonical\" href=\"{url}\" />
     <link rel=\"self\" type=\"application/atom+xml\" href=\"{url}\" />",
        keywords = "",
        category = "",
        subcategory = "",
        published = "",
        title = "Hi",
        description = "",
        url = "",
        genre = "",
        image = ""
    );
    assert_eq!(m, expected);
}

#[test]
fn url_patterns_substituted() {
    assert_eq!(
        post_url("%url_root/a/%category/%slug.html", "https://x.y", "rust", "hi"),
        "https://x.y/a/rust/hi.html"
    );
    assert_eq!(
        path_render("articles/%category/%slug.html", "rust", "hi"),
        "articles/rust/hi.html"
    );
}

#[test]
fn properties_extracts_defines() {
    let config = sample_config();
    let content = "<!-- define title: My Post -->\n<!-- define category: Rust -->\nBody text";
    let p = Post::properties(&config, "posts/one.md", content);
    assert_eq!(p.title, "My Post");
    assert_eq!(p.category, "Rust");
    assert_eq!(p.template, "Body text");
    assert_eq!(p.slug, "my-post");
    assert_eq!(p.url, "articles/Rust/my-post.html");
    assert_eq!(p.path_render, "articles/Rust/my-post.html");
    assert_eq!(p.path_template, "posts/one.md");
    assert_eq!(p.estimated_read_time, "1 minute read");
    assert_eq!(p.author.name, "Ada");
}

/// Credits fall back to the title-cased image prefix before the
/// colon, with hyphens read as spaces.
#[test]
fn credits_titlecased_from_image() {
    let config = sample_config();
    let content = "<!-- define header.image: manuel-cosentino:n-photo.jpg -->\nx";
    let p = Post::properties(&config, "p.md", content);
    assert_eq!(p.header.credits, titlecase::titlecase("manuel cosentino"));
    assert_eq!(p.header.credits, "Manuel Cosentino");
}

#[test]
fn post_list_maps_files() {
    let config = sample_config();
    let files = vec![
        SourceFile {
            path: "a.md".to_string(),
            content: "<!-- define title: A -->\nx".to_string(),
        },
        SourceFile {
            path: "b.md".to_string(),
            content: "<!-- define title: B -->\ny".to_string(),
        },
    ];
    let posts = Post::list(&config, &files);
    assert_eq!(posts.len(), 2);
    assert_eq!(posts[0].title, "A");
    assert_eq!(posts[1].title, "B");
}

#[test]
fn post_list_sort_applies_sorter() {
    let config = sample_config();
    let files = vec![
        SourceFile {
            path: "a.md".to_string(),
            content: "<!-- define title: A -->\nx".to_string(),
        },
        SourceFile {
            path: "b.md".to_string(),
            content: "<!-- define title: B -->\ny".to_string(),
        },
    ];
    let posts = Post::list_sort(&config, &files, |mut v: Vec<Post>| {
        v.reverse();
        v
    });
    assert_eq!(posts[0].title, "B");
    assert_eq!(posts[1].title, "A");
}

#[test]
fn config_getters_default() {
    let c = Config::new();
    assert_eq!(c.url_root(), "");
    assert_eq!(c.url_post(), "");
    assert_eq!(c.path_tera(), "");
    assert_eq!(c.path_render(), "");
    assert_eq!(c.dir_resources(), "");
    assert_eq!(c.dir_output(), "");
    assert_eq!(c.dir_templates(), "");
    assert_eq!(c.dir_posts(), "");
    assert!(c.verbose());
    assert!(c.clean());
    assert!(c.preserve());
}

#[test]
fn config_getters_set() {
    let mut c = Config::new();
    c.url_root = Some("https://x".to_string());
    c.verbose = Some(false);
    assert_eq!(c.url_root(), "https://x");
    assert!(!c.verbose());
}

#[test]
fn unwrap_string_defaults_empty() {
    assert_eq!(unwrap_string(None), "");
    let s = "v".to_string();
    assert_eq!(unwrap_string(Some(&s)), "v");
}

#[test]
fn config_posts_getters() {
    let cp = ConfigPosts {
        image: Some("i.png".to_string()),
        author: Some("Ada".to_string()),
        author_github: Some("ada".to_string()),
    };
    assert_eq!(cp.image(), "i.png");
    assert_eq!(cp.author(), "Ada");
    assert_eq!(cp.author_github(), "ada");
}

/// Titled headings receive anchor ids and one link each.
#[test]
fn toc_anchors_titled_headings() {
    let mut text = "<h3 class=\"text-title\">My Header!</h3>".to_string();
    let toc = table_of_contents(&mut text);
    assert_eq!(text, "<h3 id=\"my-header\" class=\"text-title\">My Header!</h3>");
    assert_eq!(
        toc,
        "<section class=\"table-of-contents\"><a href=\"#my-header\" data-level=\"3\">My Header</a></section>"
    );
}

#[test]
fn toc_ignores_plain_headings() {
    let mut text = "<h2>Plain</h2>".to_string();
    let toc = table_of_contents(&mut text);
    assert_eq!(text, "<h2>Plain</h2>");
    assert_eq!(toc, "<section class=\"table-of-contents\"></section>");
}

/// Define comments with keys the model does not know leave the post
/// unchanged and are reported back, lowered, in order.
#[test]
fn header_data_reports_unknown_keys() {
    let mut post = Post::new();
    let mut text = "<!-- define title: T -->\n<!-- define Colour: blue -->\nrest".to_string();
    let unknown = header_data(&mut post, &mut text);
    assert_eq!(post.title, "T");
    assert_eq!(unknown, vec!["colour".to_string()]);
    assert_eq!(text, "rest");
}
