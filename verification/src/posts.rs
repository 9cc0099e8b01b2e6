//! Post records: per-article data embedded in a template as HTML
//! comments of the form `<!-- define key: value -->`, extracted and
//! completed with configuration defaults, plus the generated fields
//! (read time, metadata, slug, urls).
use crate::config::{opt_view, unwrap_string_spec, Config};
use crate::strings::{escape_html, escape_html_spec, lower_of, slug_of, string_to_slug};
use crate::text::{chars_of, find_from, lit_at, replace_all, replace_seq, string_of};
use vstd::prelude::*;

verus! {

/// Spec-level image of a post's header data.
pub struct PostHeaderV {
    pub image: Seq<char>,
    pub credits: Seq<char>,
}

/// The image shown above a post, and its credits.
#[derive(Debug, Clone, PartialEq, Eq)]
pub struct PostHeader {
    pub image: String,
    pub credits: String,
}

impl View for PostHeader {
    type V = PostHeaderV;

    open spec fn view(&self) -> PostHeaderV {
        PostHeaderV { image: self.image@, credits: self.credits@ }
    }
}

/// Spec-level image of a post's author data.
pub struct PostAuthorV {
    pub name: Seq<char>,
    pub image: Seq<char>,
    pub github_url: Seq<char>,
    pub github_username: Seq<char>,
}

/// The author shown on a post.
#[derive(Debug, Clone, PartialEq, Eq)]
pub struct PostAuthor {
    pub name: String,
    pub image: String,
    pub github_url: String,
    pub github_username: String,
}

impl View for PostAuthor {
    type V = PostAuthorV;

    open spec fn view(&self) -> PostAuthorV {
        PostAuthorV {
            name: self.name@,
            image: self.image@,
            github_url: self.github_url@,
            github_username: self.github_username@,
        }
    }
}

/// One entry of a post's table of contents: its anchor, its heading
/// level and its text.
#[derive(Debug, Clone, PartialEq, Eq)]
pub struct TableOfContentsListItem {
    pub href: String,
    pub level: String,
    pub text: String,
}

/// Spec-level image of a post.
pub struct PostV {
    pub title: Seq<char>,
    pub description: Seq<char>,
    pub category: Seq<char>,
    pub subcategory: Seq<char>,
    pub genre: Seq<char>,
    pub keywords: Seq<char>,
    pub tags: Seq<char>,
    pub published: Seq<char>,
    pub slug: Seq<char>,
    pub estimated_read_time: Seq<char>,
    pub metadata: Seq<char>,
    pub url: Seq<char>,
    pub path_render: Seq<char>,
    pub path_template: Seq<char>,
    pub template: Seq<char>,
    pub table_of_contents: Seq<char>,
    pub header: PostHeaderV,
    pub author: PostAuthorV,
}

/// One post: the data its template defines, the configuration
/// defaults that complete it, and the generated fields.
#[derive(Debug, Clone, PartialEq, Eq)]
pub struct Post {
    pub title: String,
    pub description: String,
    pub category: String,
    pub subcategory: String,
    pub genre: String,
    pub keywords: String,
    pub tags: String,
    pub published: String,
    pub slug: String,
    pub estimated_read_time: String,
    pub metadata: String,
    pub url: String,
    pub path_render: String,
    pub path_template: String,
    pub template: String,
    pub table_of_contents: String,
    pub header: PostHeader,
    pub author: PostAuthor,
}

impl View for Post {
    type V = PostV;

    open spec fn view(&self) -> PostV {
        PostV {
            title: self.title@,
            description: self.description@,
            category: self.category@,
            subcategory: self.subcategory@,
            genre: self.genre@,
            keywords: self.keywords@,
            tags: self.tags@,
            published: self.published@,
            slug: self.slug@,
            estimated_read_time: self.estimated_read_time@,
            metadata: self.metadata@,
            url: self.url@,
            path_render: self.path_render@,
            path_template: self.path_template@,
            template: self.template@,
            table_of_contents: self.table_of_contents@,
            header: self.header@,
            author: self.author@,
        }
    }
}

/// The post whose fields are all empty.
pub open spec fn empty_post() -> PostV {
    PostV {
        title: Seq::empty(),
        description: Seq::empty(),
        category: Seq::empty(),
        subcategory: Seq::empty(),
        genre: Seq::empty(),
        keywords: Seq::empty(),
        tags: Seq::empty(),
        published: Seq::empty(),
        slug: Seq::empty(),
        estimated_read_time: Seq::empty(),
        metadata: Seq::empty(),
        url: Seq::empty(),
        path_render: Seq::empty(),
        path_template: Seq::empty(),
        template: Seq::empty(),
        table_of_contents: Seq::empty(),
        header: PostHeaderV { image: Seq::empty(), credits: Seq::empty() },
        author: PostAuthorV {
            name: Seq::empty(),
            image: Seq::empty(),
            github_url: Seq::empty(),
            github_username: Seq::empty(),
        },
    }
}

impl Post {
    /// A post with every field empty.
    pub fn new() -> (r: Post)
        ensures
            r@ == empty_post(),
    {
        Post {
            title: String::new(),
            description: String::new(),
            category: String::new(),
            subcategory: String::new(),
            genre: String::new(),
            keywords: String::new(),
            tags: String::new(),
            published: String::new(),
            slug: String::new(),
            estimated_read_time: String::new(),
            metadata: String::new(),
            url: String::new(),
            path_render: String::new(),
            path_template: String::new(),
            template: String::new(),
            table_of_contents: String::new(),
            header: PostHeader { image: String::new(), credits: String::new() },
            author: PostAuthor {
                name: String::new(),
                image: String::new(),
                github_url: String::new(),
                github_username: String::new(),
            },
        }
    }
}

/// The opening literal of a define comment.
pub open spec fn define_open() -> Seq<char> {
    seq!['<', '!', '-', '-', ' ', 'd', 'e', 'f', 'i', 'n', 'e', ' ']
}

/// The separator between a define comment's key and its value.
pub open spec fn define_sep() -> Seq<char> {
    seq![':', ' ']
}

/// The closing literal of a define comment, newline included.
pub open spec fn define_close() -> Seq<char> {
    seq![' ', '-', '-', '>', '\n']
}

/// The define comment beginning exactly at `i`: its key, its value
/// and the index just past the closing newline.  The key runs to the
/// first `: `, the value to the first ` -->` with a newline after it;
/// neither may span lines.
pub open spec fn try_define(s: Seq<char>, i: int) -> Option<(Seq<char>, Seq<char>, int)> {
    if !lit_at(s, i, define_open()) {
        None
    } else {
        let a = i + 12;
        match find_from(s, define_sep(), a) {
            None => None,
            Some(x) => {
                let key = s.subrange(a, x);
                if key.contains('\n') {
                    None
                } else {
                    let b = x + 2;
                    match find_from(s, define_close(), b) {
                        None => None,
                        Some(y) => {
                            let val = s.subrange(b, y);
                            if val.contains('\n') {
                                None
                            } else {
                                Some((key, val, y + 5))
                            }
                        },
                    }
                }
            },
        }
    }
}

/// A define comment spans at least one character and ends inside the
/// text.
pub proof fn lemma_try_define_bounds(s: Seq<char>, i: int)
    ensures
        match try_define(s, i) {
            Some((key, val, end)) => 0 <= i < end <= s.len(),
            None => true,
        },
{
    if lit_at(s, i, define_open()) {
        let a = i + 12;
        crate::parse::lemma_find_from(s, define_sep(), a);
        match find_from(s, define_sep(), a) {
            None => {},
            Some(x) => {
                crate::parse::lemma_find_from(s, define_close(), x + 2);
            },
        }
    }
}

/// Spec-level image of one define comment: key, value and the whole
/// matched span.
pub struct DefineV {
    pub key: Seq<char>,
    pub val: Seq<char>,
    pub outer: Seq<char>,
}

/// All define comments in `s` at or after `i`, in order,
/// non-overlapping.
pub open spec fn define_list(s: Seq<char>, i: int) -> Seq<DefineV>
    decreases s.len() - i,
    via define_list_decreases
{
    if i < 0 {
        define_list(s, 0)
    } else if i >= s.len() {
        seq![]
    } else {
        match try_define(s, i) {
            Some((key, val, end)) => seq![
                DefineV { key, val, outer: s.subrange(i, end) },
            ] + define_list(s, end),
            None => define_list(s, i + 1),
        }
    }
}

#[via_fn]
proof fn define_list_decreases(s: Seq<char>, i: int) {
    lemma_try_define_bounds(s, i);
}

/// One define comment as matched in the text.
struct Define {
    key: Vec<char>,
    val: Vec<char>,
    outer: Vec<char>,
}

impl View for Define {
    type V = DefineV;

    closed spec fn view(&self) -> DefineV {
        DefineV { key: self.key@, val: self.val@, outer: self.outer@ }
    }
}

/// The views of a sequence of define comments.
spec fn dvs(v: Seq<Define>) -> Seq<DefineV> {
    Seq::new(v.len(), |k: int| v[k]@)
}

/// Match a define comment starting at `i`.
fn try_define_exec(s: &Vec<char>, i: usize) -> (r: Option<(Vec<char>, Vec<char>, usize)>)
    ensures
        match r {
            Some((key, val, end)) => try_define(s@, i as int) == Some((key@, val@, end as int)),
            None => try_define(s@, i as int) is None,
        },
{
    let n = s.len();
    let op: Vec<char> = vec!['<', '!', '-', '-', ' ', 'd', 'e', 'f', 'i', 'n', 'e', ' '];
    if n == 0 || !crate::text::lit_at_exec(s, i, &op) {
        return None;
    }
    let a = i + 12;
    let sep: Vec<char> = vec![':', ' '];
    match crate::text::find_from_exec(s, &sep, a) {
        None => None,
        Some(x) => {
            proof {
                crate::parse::lemma_find_from(s@, sep@, a as int);
            }
            let key = crate::text::copy_range(s, a, x);
            if crate::text::has_char(&key, '\n') {
                return None;
            }
            let b = x + 2;
            let cl: Vec<char> = vec![' ', '-', '-', '>', '\n'];
            match crate::text::find_from_exec(s, &cl, b) {
                None => None,
                Some(y) => {
                    proof {
                        crate::parse::lemma_find_from(s@, cl@, b as int);
                    }
                    let val = crate::text::copy_range(s, b, y);
                    if crate::text::has_char(&val, '\n') {
                        None
                    } else {
                        Some((key, val, y + 5))
                    }
                },
            }
        },
    }
}

/// Collect every define comment in the text, in order.
fn scan_defines(s: &Vec<char>) -> (r: Vec<Define>)
    ensures
        dvs(r@) == define_list(s@, 0),
{
    let mut out: Vec<Define> = Vec::new();
    let mut i: usize = 0;
    while i < s.len()
        invariant
            i <= s@.len(),
            dvs(out@) + define_list(s@, i as int) == define_list(s@, 0),
        decreases s@.len() - i,
    {
        match try_define_exec(s, i) {
            Some((key, val, end)) => {
                proof {
                    lemma_try_define_bounds(s@, i as int);
                }
                let outer = crate::text::copy_range(s, i, end);
                let d = Define { key, val, outer };
                let ghost dv = d@;
                let ghost outv0 = dvs(out@);
                out.push(d);
                proof {
                    assert(dvs(out@) =~= outv0 + seq![dv]);
                    assert(dvs(out@) + define_list(s@, end as int) =~= define_list(s@, 0));
                }
                i = end;
            },
            None => {
                i = i + 1;
            },
        }
    }
    proof {
        assert(define_list(s@, i as int) =~= Seq::<DefineV>::empty());
        assert(dvs(out@) =~= define_list(s@, 0));
    }
    out
}


/// The lowered define keys the post model knows.
pub open spec fn known_key(k: Seq<char>) -> bool {
    ||| k == "title"@
    ||| k == "description"@
    ||| k == "category"@
    ||| k == "subcategory"@
    ||| k == "genre"@
    ||| k == "keywords"@
    ||| k == "tags"@
    ||| k == "published"@
    ||| k == "slug"@
    ||| k == "estimated_read_time"@
    ||| k == "metadata"@
    ||| k == "table_of_contents"@
    ||| k == "url"@
    ||| k == "path_render"@
    ||| k == "path_template"@
    ||| k == "template"@
    ||| k == "header.image"@
    ||| k == "header.credits"@
    ||| k == "author.name"@
    ||| k == "author.image"@
    ||| k == "author.github_url"@
    ||| k == "author.github_username"@
}

/// The lowered keys, from comment `k` on, that the post model does
/// not know; their comments leave the post unchanged.
pub open spec fn unknown_keys(defs: Seq<DefineV>, k: int) -> Seq<Seq<char>>
    decreases defs.len() - k,
{
    if !(0 <= k < defs.len()) {
        seq![]
    } else if !known_key(lower_of(defs[k].key)) {
        seq![lower_of(defs[k].key)] + unknown_keys(defs, k + 1)
    } else {
        unknown_keys(defs, k + 1)
    }
}

/// The views of a vector of key strings.
pub open spec fn strings_view(v: Seq<String>) -> Seq<Seq<char>> {
    Seq::new(v.len(), |i: int| v[i]@)
}

/// The lowered key of a define comment selects the post field its
/// value fills; an unknown key leaves the post unchanged.
pub open spec fn assign_field(p: PostV, k: Seq<char>, v: Seq<char>) -> PostV {
    if k == "title"@ {
        PostV { title: v, ..p }
    } else if k == "description"@ {
        PostV { description: v, ..p }
    } else if k == "category"@ {
        PostV { category: v, ..p }
    } else if k == "subcategory"@ {
        PostV { subcategory: v, ..p }
    } else if k == "genre"@ {
        PostV { genre: v, ..p }
    } else if k == "keywords"@ {
        PostV { keywords: v, ..p }
    } else if k == "tags"@ {
        PostV { tags: v, ..p }
    } else if k == "published"@ {
        PostV { published: v, ..p }
    } else if k == "slug"@ {
        PostV { slug: v, ..p }
    } else if k == "estimated_read_time"@ {
        PostV { estimated_read_time: v, ..p }
    } else if k == "metadata"@ {
        PostV { metadata: v, ..p }
    } else if k == "table_of_contents"@ {
        PostV { table_of_contents: v, ..p }
    } else if k == "url"@ {
        PostV { url: v, ..p }
    } else if k == "path_render"@ {
        PostV { path_render: v, ..p }
    } else if k == "path_template"@ {
        PostV { path_template: v, ..p }
    } else if k == "template"@ {
        PostV { template: v, ..p }
    } else if k == "header.image"@ {
        PostV { header: PostHeaderV { image: v, ..p.header }, ..p }
    } else if k == "header.credits"@ {
        PostV { header: PostHeaderV { credits: v, ..p.header }, ..p }
    } else if k == "author.name"@ {
        PostV { author: PostAuthorV { name: v, ..p.author }, ..p }
    } else if k == "author.image"@ {
        PostV { author: PostAuthorV { image: v, ..p.author }, ..p }
    } else if k == "author.github_url"@ {
        PostV { author: PostAuthorV { github_url: v, ..p.author }, ..p }
    } else if k == "author.github_username"@ {
        PostV { author: PostAuthorV { github_username: v, ..p.author }, ..p }
    } else {
        p
    }
}

/// Fill a post field from one define comment's lowered key and
/// value; report whether the key was known.
fn assign_define(post: &mut Post, key_lowered: &Vec<char>, val: &Vec<char>) -> (r: bool)
    ensures
        final(post)@ == assign_field(old(post)@, key_lowered@, val@),
        r == known_key(key_lowered@),
{
    let v = string_of(val);
    if crate::text::seq_eq(key_lowered, &chars_of("title")) {
        post.title = v;
        true
    } else if crate::text::seq_eq(key_lowered, &chars_of("description")) {
        post.description = v;
        true
    } else if crate::text::seq_eq(key_lowered, &chars_of("category")) {
        post.category = v;
        true
    } else if crate::text::seq_eq(key_lowered, &chars_of("subcategory")) {
        post.subcategory = v;
        true
    } else if crate::text::seq_eq(key_lowered, &chars_of("genre")) {
        post.genre = v;
        true
    } else if crate::text::seq_eq(key_lowered, &chars_of("keywords")) {
        post.keywords = v;
        true
    } else if crate::text::seq_eq(key_lowered, &chars_of("tags")) {
        post.tags = v;
        true
    } else if crate::text::seq_eq(key_lowered, &chars_of("published")) {
        post.published = v;
        true
    } else if crate::text::seq_eq(key_lowered, &chars_of("slug")) {
        post.slug = v;
        true
    } else if crate::text::seq_eq(key_lowered, &chars_of("estimated_read_time")) {
        post.estimated_read_time = v;
        true
    } else if crate::text::seq_eq(key_lowered, &chars_of("metadata")) {
        post.metadata = v;
        true
    } else if crate::text::seq_eq(key_lowered, &chars_of("table_of_contents")) {
        post.table_of_contents = v;
        true
    } else if crate::text::seq_eq(key_lowered, &chars_of("url")) {
        post.url = v;
        true
    } else if crate::text::seq_eq(key_lowered, &chars_of("path_render")) {
        post.path_render = v;
        true
    } else if crate::text::seq_eq(key_lowered, &chars_of("path_template")) {
        post.path_template = v;
        true
    } else if crate::text::seq_eq(key_lowered, &chars_of("template")) {
        post.template = v;
        true
    } else if crate::text::seq_eq(key_lowered, &chars_of("header.image")) {
        post.header.image = v;
        true
    } else if crate::text::seq_eq(key_lowered, &chars_of("header.credits")) {
        post.header.credits = v;
        true
    } else if crate::text::seq_eq(key_lowered, &chars_of("author.name")) {
        post.author.name = v;
        true
    } else if crate::text::seq_eq(key_lowered, &chars_of("author.image")) {
        post.author.image = v;
        true
    } else if crate::text::seq_eq(key_lowered, &chars_of("author.github_url")) {
        post.author.github_url = v;
        true
    } else if crate::text::seq_eq(key_lowered, &chars_of("author.github_username")) {
        post.author.github_username = v;
        true
    } else {
        false
    }
}

/// The post and the text after the define comments from index `k` on
/// are folded in: each comment's value fills the field its lowered key
/// names, and every occurrence of the comment's text is removed from
/// the working text.
pub open spec fn header_fold(p: PostV, c: Seq<char>, defs: Seq<DefineV>, k: int) -> (PostV, Seq<
    char,
>)
    decreases defs.len() - k,
{
    if !(0 <= k < defs.len()) {
        (p, c)
    } else {
        let d = defs[k];
        header_fold(
            assign_field(p, lower_of(d.key), d.val),
            replace_seq(c, d.outer, Seq::empty()),
            defs,
            k + 1,
        )
    }
}

/// Extract the define comments of a template: each one fills the post
/// field its lowered key names and is removed from the text, in
/// document order, exactly as `header_fold` describes over the
/// comments the text holds.  The lowered keys the model does not know
/// are returned, in order, so a caller can report them.
#[verifier::loop_isolation(false)]
pub fn header_data(post: &mut Post, content: &mut String) -> (unknown: Vec<String>)
    ensures
        ({
            let folded = header_fold(
                old(post)@,
                old(content)@,
                define_list(old(content)@, 0),
                0,
            );
            final(post)@ == folded.0 && final(content)@ == folded.1
        }),
        strings_view(unknown@) == unknown_keys(define_list(old(content)@, 0), 0),
{
    let cs = chars_of(content.as_str());
    let defs = scan_defines(&cs);
    let ghost dl = define_list(old(content)@, 0);
    let mut cur = cs;
    let mut unk: Vec<String> = Vec::new();
    let mut k: usize = 0;
    while k < defs.len()
        invariant
            k <= defs@.len(),
            header_fold(post@, cur@, dl, k as int) == header_fold(
                old(post)@,
                old(content)@,
                dl,
                0,
            ),
            strings_view(unk@) + unknown_keys(dl, k as int) == unknown_keys(dl, 0),
        decreases defs@.len() - k,
    {
        let d = &defs[k];
        proof {
            assert(dl[k as int] == d@);
        }
        let lowered = crate::strings::to_lower_chars(&d.key);
        let known = assign_define(post, &lowered, &d.val);
        if !known {
            let ghost unk0 = strings_view(unk@);
            unk.push(string_of(&lowered));
            proof {
                assert(strings_view(unk@) =~= unk0 + seq![lower_of(d@.key)]);
                assert(strings_view(unk@) + unknown_keys(dl, k as int + 1) =~= unknown_keys(
                    dl,
                    0,
                ));
            }
        }
        if d.outer.len() > 0 {
            let empty_to: Vec<char> = Vec::new();
            cur = replace_all(&cur, &d.outer, &empty_to);
        }
        k = k + 1;
    }
    proof {
        assert(unknown_keys(dl, k as int) =~= Seq::<Seq<char>>::empty());
        assert(strings_view(unk@) =~= unknown_keys(dl, 0));
    }
    *content = string_of(&cur);
    unk
}

/// What the title-casing routine returns for a text: a function of
/// the characters alone.
pub uninterp spec fn titled_of(s: Seq<char>) -> Seq<char>;

/// Relies on `titlecase::titlecase`: English title casing, a function
/// of the characters alone.
#[verifier::external_body]
fn titlecase_chars(v: &Vec<char>) -> (r: Vec<char>)
    ensures
        r@ == titled_of(v@),
{
    let s: String = v.iter().collect();
    titlecase::titlecase(&s).chars().collect()
}

/// The post completed with the configuration's defaults: empty fields
/// take the configured values; empty credits are title-cased out of
/// the image name's prefix before its first colon, with `-` read as a
/// space.
pub open spec fn defaults_spec(p: PostV, cfg: Config) -> PostV {
    let path_render = if p.path_render.len() == 0 {
        unwrap_string_spec(opt_view(&cfg.path_render))
    } else {
        p.path_render
    };
    let himg = if p.header.image.len() == 0 {
        unwrap_string_spec(opt_view(&cfg.header.image))
    } else {
        p.header.image
    };
    let hcred = if p.header.credits.len() > 0 {
        p.header.credits
    } else {
        match find_from(himg, seq![':'], 0) {
            Some(x) => titled_of(replace_seq(himg.subrange(0, x), seq!['-'], seq![' '])),
            None => unwrap_string_spec(opt_view(&cfg.header.credits)),
        }
    };
    let aname = if p.author.name.len() == 0 {
        unwrap_string_spec(opt_view(&cfg.author.name))
    } else {
        p.author.name
    };
    let aimg = if p.author.image.len() == 0 {
        unwrap_string_spec(opt_view(&cfg.author.image))
    } else {
        p.author.image
    };
    let aurl = if p.author.github_url.len() == 0 {
        unwrap_string_spec(opt_view(&cfg.author.github_url))
    } else {
        p.author.github_url
    };
    let auser = if p.author.github_username.len() == 0 {
        unwrap_string_spec(opt_view(&cfg.author.github_username))
    } else {
        p.author.github_username
    };
    PostV {
        path_render,
        header: PostHeaderV { image: himg, credits: hcred },
        author: PostAuthorV {
            name: aname,
            image: aimg,
            github_url: aurl,
            github_username: auser,
        },
        ..p
    }
}

/// Complete a post with the configuration's defaults, exactly as
/// `defaults_spec` describes.
pub fn header_defaults(post: &mut Post, config: &Config)
    ensures
        final(post)@ == defaults_spec(old(post)@, *config),
{
    if post.path_render.as_str().is_empty() {
        post.path_render = config.path_render();
    }
    if post.header.image.as_str().is_empty() {
        post.header.image = config.header.image();
    }
    if post.header.credits.as_str().is_empty() {
        let img = chars_of(post.header.image.as_str());
        let colon: Vec<char> = vec![':'];
        proof {
            assert(colon@ =~= seq![':']);
        }
        match crate::text::find_from_exec(&img, &colon, 0) {
            Some(x) => {
                proof {
                    crate::parse::lemma_find_from(img@, colon@, 0);
                }
                let prefix = crate::text::copy_range(&img, 0, x);
                let dash: Vec<char> = vec!['-'];
                let space: Vec<char> = vec![' '];
                proof {
                    assert(dash@ =~= seq!['-']);
                    assert(space@ =~= seq![' ']);
                }
                let replaced = replace_all(&prefix, &dash, &space);
                let titled = titlecase_chars(&replaced);
                post.header.credits = string_of(&titled);
            },
            None => {
                post.header.credits = config.header.credits();
            },
        }
    }
    if post.author.name.as_str().is_empty() {
        post.author.name = config.author.name();
    }
    if post.author.image.as_str().is_empty() {
        post.author.image = config.author.image();
    }
    if post.author.github_url.as_str().is_empty() {
        post.author.github_url = config.author.github_url();
    }
    if post.author.github_username.as_str().is_empty() {
        post.author.github_username = config.author.github_username();
    }
}


/// Number of occurrences of the character `c` in `s` at or after `i`.
pub open spec fn count_char_from(s: Seq<char>, c: char, i: int) -> nat
    decreases s.len() - i,
{
    if !(0 <= i < s.len()) {
        0
    } else {
        (if s[i] == c {
            1nat
        } else {
            0nat
        }) + count_char_from(s, c, i + 1)
    }
}

/// The estimated minutes to read a text: its space-separated segment
/// count (one more than its spaces) at 160 words a minute, rounded
/// up; never less than one minute.
pub open spec fn read_minutes(s: Seq<char>) -> nat {
    (count_char_from(s, ' ', 0) + 160) / 160
}

/// The decimal digit character for `d`.
pub open spec fn dec_digit(d: nat) -> char {
    if d == 0 {
        '0'
    } else if d == 1 {
        '1'
    } else if d == 2 {
        '2'
    } else if d == 3 {
        '3'
    } else if d == 4 {
        '4'
    } else if d == 5 {
        '5'
    } else if d == 6 {
        '6'
    } else if d == 7 {
        '7'
    } else if d == 8 {
        '8'
    } else {
        '9'
    }
}

/// The decimal numeral of `n`.
pub open spec fn dec_str(n: nat) -> Seq<char>
    decreases n,
{
    if n < 10 {
        seq![dec_digit(n)]
    } else {
        dec_str(n / 10).push(dec_digit(n % 10))
    }
}

/// The read-time label for a text.
pub open spec fn read_time_spec(s: Seq<char>) -> Seq<char> {
    dec_str(read_minutes(s)) + " minute read"@
}

/// The decimal digit character for `d`.
fn dec_digit_exec(d: usize) -> (r: char)
    requires
        d < 10,
    ensures
        r == dec_digit(d as nat),
{
    match d {
        0 => '0',
        1 => '1',
        2 => '2',
        3 => '3',
        4 => '4',
        5 => '5',
        6 => '6',
        7 => '7',
        8 => '8',
        _ => '9',
    }
}

/// The decimal numeral of `n`.
fn dec_str_exec(n: usize) -> (r: Vec<char>)
    ensures
        r@ == dec_str(n as nat),
    decreases n,
{
    if n < 10 {
        let mut v: Vec<char> = Vec::new();
        v.push(dec_digit_exec(n));
        proof {
            assert(v@ =~= seq![dec_digit(n as nat)]);
        }
        v
    } else {
        let mut v = dec_str_exec(n / 10);
        v.push(dec_digit_exec(n % 10));
        v
    }
}

/// The estimated read time of a text, exactly as `read_time_spec`
/// describes.
pub fn estimated_read_time(content: &String) -> (r: String)
    ensures
        r@ == read_time_spec(content@),
{
    let cs = chars_of(content.as_str());
    let mut cnt: usize = 0;
    let mut i: usize = 0;
    while i < cs.len()
        invariant
            i <= cs@.len(),
            cnt <= i,
            cnt + count_char_from(cs@, ' ', i as int) == count_char_from(cs@, ' ', 0),
        decreases cs@.len() - i,
    {
        if cs[i] == ' ' {
            cnt = cnt + 1;
        }
        i = i + 1;
    }
    let minutes = cnt / 160 + 1;
    proof {
        assert(minutes as int == (count_char_from(content@, ' ', 0) + 160) / 160);
    }
    let mut out = dec_str_exec(minutes);
    let label = chars_of(" minute read");
    let mut k: usize = 0;
    let ghost digits = out@;
    while k < label.len()
        invariant
            k <= label@.len(),
            out@ == digits + label@.subrange(0, k as int),
        decreases label@.len() - k,
    {
        out.push(label[k]);
        k = k + 1;
        proof {
            assert(out@ =~= digits + label@.subrange(0, k as int));
        }
    }
    proof {
        assert(out@ =~= digits + label@);
    }
    string_of(&out)
}

/// The HTML metadata block generated for a post, with every inserted
/// value escaped.
pub open spec fn metadata_spec(p: PostV) -> Seq<char> {
    "<meta name=\"keywords\" content=\""@ + escape_html_spec(p.keywords)
        + "\" /><meta name=\"category\" content=\""@ + escape_html_spec(p.category)
        + "\" />\n     <meta name=\"topic\" content=\""@ + escape_html_spec(p.subcategory)
        + "\" /><meta name=\"revised\" content=\""@ + escape_html_spec(p.published)
        + "\" />\n     <meta name=\"date\" content=\""@ + escape_html_spec(p.published)
        + "\" /><meta name=\"pagename\" content=\""@ + escape_html_spec(p.title)
        + "\" />\n     <meta name=\"title\" content=\""@ + escape_html_spec(p.title)
        + "\" /><meta name=\"description\" content=\""@ + escape_html_spec(p.description)
        + "\" />\n     <meta name=\"abstract\" content=\""@ + escape_html_spec(p.description)
        + "\" /><meta name=\"summary\" content=\""@ + escape_html_spec(p.description)
        + "\" />\n     <meta name=\"subtitle\" content=\""@ + escape_html_spec(p.description)
        + "\" /><meta name=\"syndication-source\" content=\""@ + escape_html_spec(p.url)
        + "\" />\n     <meta name=\"original-source\" content=\""@ + escape_html_spec(p.url)
        + "\" /><meta name=\"og:type\" content=\""@ + escape_html_spec(p.genre)
        + "\" />\n     <meta name=\"og:title\" content=\""@ + escape_html_spec(p.title)
        + "\" /><meta name=\"og:description\" content=\""@ + escape_html_spec(p.description)
        + "\" />\n     <meta name=\"og:url\" content=\""@ + escape_html_spec(p.url)
        + "\" /><meta name=\"og:image\" content=\"/images/"@ + escape_html_spec(p.header.image)
        + "\" />\n     <link rel=\"bookmark\" title=\""@ + escape_html_spec(p.title)
        + "\" href=\""@ + escape_html_spec(p.url) + "\" /><link rel=\"canonical\" href=\""@
        + escape_html_spec(p.url)
        + "\" />\n     <link rel=\"self\" type=\"application/atom+xml\" href=\""@
        + escape_html_spec(p.url) + "\" />"@
}

/// Generate a post's HTML metadata block, exactly as `metadata_spec`
/// describes.
pub fn metadata(post: &Post) -> (r: String)
    ensures
        r@ == metadata_spec(post@),
{
    let mut m = String::from_str("<meta name=\"keywords\" content=\"");
    m.append(escape_html(&post.keywords).as_str());
    m.append("\" /><meta name=\"category\" content=\"");
    m.append(escape_html(&post.category).as_str());
    m.append("\" />\n     <meta name=\"topic\" content=\"");
    m.append(escape_html(&post.subcategory).as_str());
    m.append("\" /><meta name=\"revised\" content=\"");
    m.append(escape_html(&post.published).as_str());
    m.append("\" />\n     <meta name=\"date\" content=\"");
    m.append(escape_html(&post.published).as_str());
    m.append("\" /><meta name=\"pagename\" content=\"");
    m.append(escape_html(&post.title).as_str());
    m.append("\" />\n     <meta name=\"title\" content=\"");
    m.append(escape_html(&post.title).as_str());
    m.append("\" /><meta name=\"description\" content=\"");
    m.append(escape_html(&post.description).as_str());
    m.append("\" />\n     <meta name=\"abstract\" content=\"");
    m.append(escape_html(&post.description).as_str());
    m.append("\" /><meta name=\"summary\" content=\"");
    m.append(escape_html(&post.description).as_str());
    m.append("\" />\n     <meta name=\"subtitle\" content=\"");
    m.append(escape_html(&post.description).as_str());
    m.append("\" /><meta name=\"syndication-source\" content=\"");
    m.append(escape_html(&post.url).as_str());
    m.append("\" />\n     <meta name=\"original-source\" content=\"");
    m.append(escape_html(&post.url).as_str());
    m.append("\" /><meta name=\"og:type\" content=\"");
    m.append(escape_html(&post.genre).as_str());
    m.append("\" />\n     <meta name=\"og:title\" content=\"");
    m.append(escape_html(&post.title).as_str());
    m.append("\" /><meta name=\"og:description\" content=\"");
    m.append(escape_html(&post.description).as_str());
    m.append("\" />\n     <meta name=\"og:url\" content=\"");
    m.append(escape_html(&post.url).as_str());
    m.append("\" /><meta name=\"og:image\" content=\"/images/");
    m.append(escape_html(&post.header.image).as_str());
    m.append("\" />\n     <link rel=\"bookmark\" title=\"");
    m.append(escape_html(&post.title).as_str());
    m.append("\" href=\"");
    m.append(escape_html(&post.url).as_str());
    m.append("\" /><link rel=\"canonical\" href=\"");
    m.append(escape_html(&post.url).as_str());
    m.append("\" />\n     <link rel=\"self\" type=\"application/atom+xml\" href=\"");
    m.append(escape_html(&post.url).as_str());
    m.append("\" />");
    m
}

/// A post's public url: the render-path pattern with `%url_root`,
/// `%category` and `%slug` substituted.
pub open spec fn post_url_spec(
    pattern: Seq<char>,
    url_root: Seq<char>,
    category: Seq<char>,
    slug: Seq<char>,
) -> Seq<char> {
    replace_seq(
        replace_seq(replace_seq(pattern, "%url_root"@, url_root), "%category"@, category),
        "%slug"@,
        slug,
    )
}

/// Substitute `%url_root`, `%category` and `%slug` in a post's url
/// pattern, exactly as `post_url_spec` describes.
pub fn post_url(pattern: &str, url_root: &str, category: &str, slug: &str) -> (r: String)
    ensures
        r@ == post_url_spec(pattern@, url_root@, category@, slug@),
{
    proof {
        reveal_strlit("%url_root");
        reveal_strlit("%category");
        reveal_strlit("%slug");
    }
    let p0 = chars_of(pattern);
    let r1 = replace_all(&p0, &chars_of("%url_root"), &chars_of(url_root));
    let r2 = replace_all(&r1, &chars_of("%category"), &chars_of(category));
    let r3 = replace_all(&r2, &chars_of("%slug"), &chars_of(slug));
    string_of(&r3)
}

/// A post's render path: the render-path pattern with `%category` and
/// `%slug` substituted.
pub open spec fn path_render_spec(
    pattern: Seq<char>,
    category: Seq<char>,
    slug: Seq<char>,
) -> Seq<char> {
    replace_seq(replace_seq(pattern, "%category"@, category), "%slug"@, slug)
}

/// Substitute `%category` and `%slug` in a post's render-path
/// pattern, exactly as `path_render_spec` describes.  Joining the
/// result onto the output directory is the caller's concern.
pub fn path_render(pattern: &str, category: &str, slug: &str) -> (r: String)
    ensures
        r@ == path_render_spec(pattern@, category@, slug@),
{
    proof {
        reveal_strlit("%category");
        reveal_strlit("%slug");
    }
    let p0 = chars_of(pattern);
    let r1 = replace_all(&p0, &chars_of("%category"), &chars_of(category));
    let r2 = replace_all(&r1, &chars_of("%slug"), &chars_of(slug));
    string_of(&r2)
}

/// The post a template file yields under a configuration: its define
/// comments extracted and removed, its defaults filled, its titled
/// headings anchored and collected, and the generated fields set in
/// order — read time, remaining template text, metadata (before the
/// url exists), slug, url and render path.  The template path is kept
/// as given.
pub open spec fn properties_spec(cfg: Config, path: Seq<char>, content: Seq<char>) -> PostV {
    let folded = header_fold(empty_post(), content, define_list(content, 0), 0);
    let p0 = defaults_spec(folded.0, cfg);
    let tocd = toc_fold(folded.1, Seq::empty(), heading_list(folded.1, 0), 0);
    let p1 = PostV { table_of_contents: toc_wrap(tocd.1), ..p0 };
    let p2 = PostV { estimated_read_time: read_time_spec(tocd.0), template: tocd.0, ..p1 };
    let p3 = PostV { metadata: metadata_spec(p2), ..p2 };
    let p4 = PostV { slug: slug_of(p3.title), ..p3 };
    let p5 = PostV {
        url: post_url_spec(
            unwrap_string_spec(opt_view(&cfg.path_render)),
            unwrap_string_spec(opt_view(&cfg.url_root)),
            p4.category,
            p4.slug,
        ),
        ..p4
    };
    let p6 = PostV {
        path_render: path_render_spec(
            unwrap_string_spec(opt_view(&cfg.path_render)),
            p5.category,
            p5.slug,
        ),
        ..p5
    };
    PostV { path_template: path, ..p6 }
}

impl Post {
    /// Extract and generate a post's data from its template file,
    /// exactly as `properties_spec` describes.
    pub fn properties(config: &Config, path: &str, content: &str) -> (r: Post)
        ensures
            r@ == properties_spec(*config, path@, content@),
    {
        let mut post = Post::new();
        let mut text = String::from_str(content);
        let _unknown = header_data(&mut post, &mut text);
        header_defaults(&mut post, config);
        post.table_of_contents = table_of_contents(&mut text);
        post.estimated_read_time = estimated_read_time(&text);
        post.template = text;
        post.metadata = metadata(&post);
        post.slug = string_to_slug(&post.title);
        let pattern = config.path_render();
        let url_root = config.url_root();
        post.url = post_url(
            pattern.as_str(),
            url_root.as_str(),
            post.category.as_str(),
            post.slug.as_str(),
        );
        post.path_render = path_render(
            pattern.as_str(),
            post.category.as_str(),
            post.slug.as_str(),
        );
        post.path_template = String::from_str(path);
        post
    }

    /// The posts of a set of template files, in order, each exactly
    /// as `properties_spec` describes.
    #[verifier::loop_isolation(false)]
    pub fn list(config: &Config, files: &Vec<crate::site::SourceFile>) -> (r: Vec<Post>)
        ensures
            r@.len() == files@.len(),
            forall|i: int|
                0 <= i < r@.len() ==> (#[trigger] r@[i])@ == properties_spec(
                    *config,
                    files@[i]@.path,
                    files@[i]@.content,
                ),
    {
        let mut out: Vec<Post> = Vec::new();
        let mut k: usize = 0;
        while k < files.len()
            invariant
                k <= files@.len(),
                out@.len() == k,
                forall|i: int|
                    0 <= i < k ==> (#[trigger] out@[i])@ == properties_spec(
                        *config,
                        files@[i]@.path,
                        files@[i]@.content,
                    ),
            decreases files@.len() - k,
        {
            let f = &files[k];
            out.push(Post::properties(config, f.path.as_str(), f.content.as_str()));
            k = k + 1;
        }
        out
    }

    /// The posts of a set of template files, handed through a caller
    /// supplied sorter.
    pub fn list_sort<F: Fn(Vec<Post>) -> Vec<Post>>(
        config: &Config,
        files: &Vec<crate::site::SourceFile>,
        sorter: F,
    ) -> (r: Vec<Post>)
        requires
            forall|v: Vec<Post>| call_requires(sorter, (v,)),
        ensures
            exists|v: Vec<Post>|
                {
                    &&& v@.len() == files@.len()
                    &&& (forall|i: int|
                        0 <= i < v@.len() ==> (#[trigger] v@[i])@ == properties_spec(
                            *config,
                            files@[i]@.path,
                            files@[i]@.content,
                        ))
                    &&& call_ensures(sorter, (v,), r)
                },
    {
        let unsorted = Post::list(config, files);
        let ghost w = unsorted;
        let r = sorter(unsorted);
        proof {
            assert(w@.len() == files@.len() && (forall|i: int|
                0 <= i < w@.len() ==> (#[trigger] w@[i])@ == properties_spec(
                    *config,
                    files@[i]@.path,
                    files@[i]@.content,
                )) && call_ensures(sorter, (w,), r));
        }
        r
    }
}


/// A heading level digit `1` through `6`.
pub open spec fn is_h_level(c: char) -> bool {
    '1' <= c && c <= '6'
}

/// Spec-level image of one titled heading found in a post: its level
/// digit, its text and the whole matched span.
pub struct HeadingV {
    pub level: char,
    pub text: Seq<char>,
    pub outer: Seq<char>,
}

/// The first closing heading tag `</h` digit `>` at or after `i`.
pub open spec fn find_hclose(s: Seq<char>, i: int) -> Option<int>
    decreases s.len() - i,
{
    if i < 0 {
        find_hclose(s, 0)
    } else if i + 5 > s.len() {
        None
    } else if lit_at(s, i, seq!['<', '/', 'h']) && is_h_level(s[i + 3]) && s[i + 4] == '>' {
        Some(i)
    } else {
        find_hclose(s, i + 1)
    }
}

/// A found closing heading tag lies at or after `i` and inside `s`.
pub proof fn lemma_find_hclose(s: Seq<char>, i: int)
    requires
        0 <= i,
    ensures
        match find_hclose(s, i) {
            Some(j) => i <= j && j + 5 <= s.len(),
            None => true,
        },
    decreases s.len() - i,
{
    if i + 5 <= s.len() && !(lit_at(s, i, seq!['<', '/', 'h']) && is_h_level(s[i + 3]) && s[i + 4]
        == '>') {
        lemma_find_hclose(s, i + 1);
    }
}

/// The titled heading beginning exactly at `i`: an `<h1>`..`<h6>` tag
/// whose class attribute is `text-title`, its text running to the
/// first closing heading tag.  No part of the match may span lines.
pub open spec fn try_heading(s: Seq<char>, i: int) -> Option<(HeadingV, int)> {
    if !(lit_at(s, i, seq!['<', 'h']) && i + 3 <= s.len() && is_h_level(s[i + 2])) {
        None
    } else {
        let d = s[i + 2];
        match find_from(s, "class="@, i + 3) {
            None => None,
            Some(x) => {
                if s.subrange(i + 3, x).contains('\n') {
                    None
                } else {
                    let q = x + 6;
                    if !(q + 12 <= s.len() && (s[q] == '"' || s[q] == '\'') && s.subrange(
                        q + 1,
                        q + 11,
                    ) == "text-title"@ && (s[q + 11] == '"' || s[q + 11] == '\'')) {
                        None
                    } else {
                        match find_from(s, seq!['>'], q + 12) {
                            None => None,
                            Some(o) => {
                                if s.subrange(q + 12, o).contains('\n') {
                                    None
                                } else {
                                    match find_hclose(s, o + 1) {
                                        None => None,
                                        Some(cc) => {
                                            let text = s.subrange(o + 1, cc);
                                            if text.contains('\n') {
                                                None
                                            } else {
                                                Some(
                                                    (
                                                        HeadingV {
                                                            level: d,
                                                            text,
                                                            outer: s.subrange(i, cc + 5),
                                                        },
                                                        cc + 5,
                                                    ),
                                                )
                                            }
                                        },
                                    }
                                }
                            },
                        }
                    }
                }
            },
        }
    }
}

/// A titled heading spans at least one character and ends inside the
/// text.
pub proof fn lemma_try_heading_bounds(s: Seq<char>, i: int)
    ensures
        match try_heading(s, i) {
            Some((h, end)) => 0 <= i < end <= s.len() && h.outer.len() > 0,
            None => true,
        },
{
    if lit_at(s, i, seq!['<', 'h']) && i + 3 <= s.len() && is_h_level(s[i + 2]) {
        crate::parse::lemma_find_from(s, "class="@, i + 3);
        match find_from(s, "class="@, i + 3) {
            None => {},
            Some(x) => {
                let q = x + 6;
                crate::parse::lemma_find_from(s, seq!['>'], q + 12);
                match find_from(s, seq!['>'], q + 12) {
                    None => {},
                    Some(o) => {
                        lemma_find_hclose(s, o + 1);
                    },
                }
            },
        }
    }
}

/// All titled headings in `s` at or after `i`, in order,
/// non-overlapping.
pub open spec fn heading_list(s: Seq<char>, i: int) -> Seq<HeadingV>
    decreases s.len() - i,
    via heading_list_decreases
{
    if i < 0 {
        heading_list(s, 0)
    } else if i >= s.len() {
        seq![]
    } else {
        match try_heading(s, i) {
            Some((h, end)) => seq![h] + heading_list(s, end),
            None => heading_list(s, i + 1),
        }
    }
}

#[via_fn]
proof fn heading_list_decreases(s: Seq<char>, i: int) {
    lemma_try_heading_bounds(s, i);
}

/// A heading's text with one trailing non-alphanumeric character
/// removed, if it ends in one.
pub open spec fn clean_heading(t: Seq<char>) -> Seq<char> {
    if t.len() > 0 && !crate::strings::is_alnum(t[t.len() - 1]) {
        t.drop_last()
    } else {
        t
    }
}

/// Index of the first `<h` digit space in `s` at or after `i`, where
/// an anchor id can be inserted.
pub open spec fn find_hspace(s: Seq<char>, i: int) -> Option<int>
    decreases s.len() - i,
{
    if i < 0 {
        find_hspace(s, 0)
    } else if i + 4 > s.len() {
        None
    } else if lit_at(s, i, seq!['<', 'h']) && is_h_level(s[i + 2]) && s[i + 3] == ' ' {
        Some(i)
    } else {
        find_hspace(s, i + 1)
    }
}

/// A found insertion point lies at or after `i` and inside `s`.
pub proof fn lemma_find_hspace(s: Seq<char>, i: int)
    requires
        0 <= i,
    ensures
        match find_hspace(s, i) {
            Some(j) => i <= j && j + 4 <= s.len(),
            None => true,
        },
    decreases s.len() - i,
{
    if i + 4 <= s.len() && !(lit_at(s, i, seq!['<', 'h']) && is_h_level(s[i + 2]) && s[i + 3]
        == ' ') {
        lemma_find_hspace(s, i + 1);
    }
}

/// A heading's span with an anchor id inserted after its first
/// `<h` digit space, or unchanged when no such point exists.
pub open spec fn with_id(outer: Seq<char>, slug: Seq<char>) -> Seq<char> {
    match find_hspace(outer, 0) {
        None => outer,
        Some(j) => outer.subrange(0, j) + seq!['<', 'h', outer[j + 2]] + " id=\""@ + slug
            + "\" "@ + outer.subrange(j + 4, outer.len() as int),
    }
}

/// One table-of-contents link for a heading.
pub open spec fn toc_entry(level: char, slug: Seq<char>, text: Seq<char>) -> Seq<char> {
    "<a href=\"#"@ + slug + "\" data-level=\""@ + seq![level] + "\">"@ + text + "</a>"@
}

/// The text and the accumulated links after folding in the headings
/// from index `k` on: each heading's span is replaced, wherever it
/// occurs, by the span with an anchor id, and one link is appended.
pub open spec fn toc_fold(c: Seq<char>, acc: Seq<char>, heads: Seq<HeadingV>, k: int) -> (
    Seq<char>,
    Seq<char>,
)
    decreases heads.len() - k,
{
    if !(0 <= k < heads.len()) {
        (c, acc)
    } else {
        let h = heads[k];
        let cleaned = clean_heading(h.text);
        let slug = crate::strings::slug_of(cleaned);
        let hh = with_id(h.outer, slug);
        toc_fold(
            replace_seq(c, h.outer, hh),
            acc + toc_entry(h.level, slug, cleaned),
            heads,
            k + 1,
        )
    }
}

/// The finished table of contents for a fold's accumulated links.
pub open spec fn toc_wrap(acc: Seq<char>) -> Seq<char> {
    "<section class=\"table-of-contents\">"@ + acc + "</section>"@
}


/// The heading level digit check.
fn is_h_level_exec(c: char) -> (r: bool)
    ensures
        r == is_h_level(c),
{
    '1' <= c && c <= '6'
}

/// Find the first closing heading tag at or after `i`.
fn find_hclose_exec(s: &Vec<char>, i: usize) -> (r: Option<usize>)
    ensures
        match r {
            Some(j) => find_hclose(s@, i as int) == Some(j as int),
            None => find_hclose(s@, i as int) is None,
        },
{
    let n = s.len();
    let ch: Vec<char> = vec!['<', '/', 'h'];
    let mut j: usize = i;
    loop
        invariant
            i <= j,
            n == s@.len(),
            ch@ == seq!['<', '/', 'h'],
            find_hclose(s@, i as int) == find_hclose(s@, j as int),
        decreases s@.len() + 1 - j,
    {
        if j > n || n - j < 5 {
            return None;
        }
        if crate::text::lit_at_exec(s, j, &ch) && is_h_level_exec(s[j + 3]) && s[j + 4] == '>' {
            return Some(j);
        }
        j = j + 1;
    }
}

/// Find the first anchor insertion point `<h` digit space at or after
/// `i`.
fn find_hspace_exec(s: &Vec<char>, i: usize) -> (r: Option<usize>)
    ensures
        match r {
            Some(j) => find_hspace(s@, i as int) == Some(j as int),
            None => find_hspace(s@, i as int) is None,
        },
{
    let n = s.len();
    let oh: Vec<char> = vec!['<', 'h'];
    let mut j: usize = i;
    loop
        invariant
            i <= j,
            n == s@.len(),
            oh@ == seq!['<', 'h'],
            find_hspace(s@, i as int) == find_hspace(s@, j as int),
        decreases s@.len() + 1 - j,
    {
        if j > n || n - j < 4 {
            return None;
        }
        if crate::text::lit_at_exec(s, j, &oh) && is_h_level_exec(s[j + 2]) && s[j + 3] == ' ' {
            return Some(j);
        }
        j = j + 1;
    }
}

/// One titled heading as matched in the text.
struct Heading {
    level: char,
    text: Vec<char>,
    outer: Vec<char>,
}

impl View for Heading {
    type V = HeadingV;

    closed spec fn view(&self) -> HeadingV {
        HeadingV { level: self.level, text: self.text@, outer: self.outer@ }
    }
}

/// The views of a sequence of headings.
spec fn hvs(v: Seq<Heading>) -> Seq<HeadingV> {
    Seq::new(v.len(), |k: int| v[k]@)
}

/// Match a titled heading starting at `i`.
fn try_heading_exec(s: &Vec<char>, i: usize) -> (r: Option<(Heading, usize)>)
    ensures
        match r {
            Some((h, end)) => try_heading(s@, i as int) == Some((h@, end as int)),
            None => try_heading(s@, i as int) is None,
        },
{
    proof {
        reveal_strlit("class=");
        reveal_strlit("text-title");
    }
    let n = s.len();
    let oh: Vec<char> = vec!['<', 'h'];
    if !crate::text::lit_at_exec(s, i, &oh) {
        return None;
    }
    if !(i + 2 < n && is_h_level_exec(s[i + 2])) {
        return None;
    }
    let d = s[i + 2];
    let cls = chars_of("class=");
    match crate::text::find_from_exec(s, &cls, i + 3) {
        None => None,
        Some(x) => {
            proof {
                crate::parse::lemma_find_from(s@, cls@, i + 3);
            }
            let cap2 = crate::text::copy_range(s, i + 3, x);
            if crate::text::has_char(&cap2, '\n') {
                return None;
            }
            let q = x + 6;
            if n < 12 || q > n - 12 {
                return None;
            }
            if !(s[q] == '"' || s[q] == '\'') {
                return None;
            }
            let tt = chars_of("text-title");
            if !crate::text::lit_at_exec(s, q + 1, &tt) {
                proof {
                    assert(s@.subrange(q + 1 as int, q + 11 as int) != "text-title"@);
                }
                return None;
            }
            proof {
                assert(s@.subrange(q + 1 as int, q + 11 as int) == "text-title"@);
            }
            if !(s[q + 11] == '"' || s[q + 11] == '\'') {
                return None;
            }
            let gt: Vec<char> = vec!['>'];
            proof {
                assert(gt@ =~= seq!['>']);
            }
            match crate::text::find_from_exec(s, &gt, q + 12) {
                None => None,
                Some(o) => {
                    proof {
                        crate::parse::lemma_find_from(s@, gt@, q + 12);
                    }
                    let cap3 = crate::text::copy_range(s, q + 12, o);
                    if crate::text::has_char(&cap3, '\n') {
                        return None;
                    }
                    match find_hclose_exec(s, o + 1) {
                        None => None,
                        Some(cc) => {
                            proof {
                                lemma_find_hclose(s@, o + 1);
                            }
                            let text = crate::text::copy_range(s, o + 1, cc);
                            if crate::text::has_char(&text, '\n') {
                                None
                            } else {
                                let outer = crate::text::copy_range(s, i, cc + 5);
                                Some((Heading { level: d, text, outer }, cc + 5))
                            }
                        },
                    }
                },
            }
        },
    }
}

/// Collect every titled heading in the text, in order.
fn scan_headings(s: &Vec<char>) -> (r: Vec<Heading>)
    ensures
        hvs(r@) == heading_list(s@, 0),
{
    let mut out: Vec<Heading> = Vec::new();
    let mut i: usize = 0;
    while i < s.len()
        invariant
            i <= s@.len(),
            hvs(out@) + heading_list(s@, i as int) == heading_list(s@, 0),
        decreases s@.len() - i,
    {
        match try_heading_exec(s, i) {
            Some((h, end)) => {
                proof {
                    lemma_try_heading_bounds(s@, i as int);
                }
                let ghost hv = h@;
                let ghost outv0 = hvs(out@);
                out.push(h);
                proof {
                    assert(hvs(out@) =~= outv0 + seq![hv]);
                    assert(hvs(out@) + heading_list(s@, end as int) =~= heading_list(s@, 0));
                }
                i = end;
            },
            None => {
                i = i + 1;
            },
        }
    }
    proof {
        assert(heading_list(s@, i as int) =~= Seq::<HeadingV>::empty());
        assert(hvs(out@) =~= heading_list(s@, 0));
    }
    out
}

/// Insert an anchor id into a heading's span, exactly as `with_id`
/// describes.
fn with_id_exec(outer: &Vec<char>, slug: &Vec<char>) -> (r: Vec<char>)
    ensures
        r@ == with_id(outer@, slug@),
{
    match find_hspace_exec(outer, 0) {
        None => {
            let r = crate::text::copy_range(outer, 0, outer.len());
            proof {
                assert(r@ =~= outer@);
            }
            r
        },
        Some(j) => {
            proof {
                lemma_find_hspace(outer@, 0);
            }
            let n = outer.len();
            let mut r = crate::text::copy_range(outer, 0, j);
            r.push('<');
            r.push('h');
            r.push(outer[j + 2]);
            proof {
                assert(r@ =~= outer@.subrange(0, j as int) + seq![
                    '<',
                    'h',
                    outer@[j + 2],
                ]);
            }
            crate::text::append_chars(&mut r, &chars_of(" id=\""));
            crate::text::append_chars(&mut r, slug);
            crate::text::append_chars(&mut r, &chars_of("\" "));
            let tail = crate::text::copy_range(outer, j + 4, n);
            crate::text::append_chars(&mut r, &tail);
            r
        },
    }
}

/// Generate the table of contents of a post's text: every titled
/// heading receives an anchor id in the text, and one link per
/// heading is collected, exactly as `toc_fold` and `toc_wrap`
/// describe.
#[verifier::loop_isolation(false)]
pub fn table_of_contents(file_content: &mut String) -> (r: String)
    ensures
        ({
            let folded = toc_fold(
                old(file_content)@,
                Seq::empty(),
                heading_list(old(file_content)@, 0),
                0,
            );
            &&& final(file_content)@ == folded.0
            &&& r@ == toc_wrap(folded.1)
        }),
{
    let cs = chars_of(file_content.as_str());
    let heads = scan_headings(&cs);
    let ghost hl = heading_list(old(file_content)@, 0);
    let mut cur = cs;
    let mut acc: Vec<char> = Vec::new();
    let mut k: usize = 0;
    while k < heads.len()
        invariant
            k <= heads@.len(),
            toc_fold(cur@, acc@, hl, k as int) == toc_fold(
                old(file_content)@,
                Seq::empty(),
                hl,
                0,
            ),
        decreases heads@.len() - k,
    {
        let h = &heads[k];
        proof {
            assert(hl[k as int] == h@);
        }
        let cleaned: Vec<char> = if h.text.len() > 0 && !(('a' <= h.text[h.text.len() - 1]
            && h.text[h.text.len() - 1] <= 'z') || ('A' <= h.text[h.text.len() - 1]
            && h.text[h.text.len() - 1] <= 'Z') || ('0' <= h.text[h.text.len() - 1]
            && h.text[h.text.len() - 1] <= '9')) {
            let c = crate::text::copy_range(&h.text, 0, h.text.len() - 1);
            proof {
                assert(c@ =~= clean_heading(h@.text));
            }
            c
        } else {
            let c = crate::text::copy_range(&h.text, 0, h.text.len());
            proof {
                assert(c@ =~= clean_heading(h@.text));
            }
            c
        };
        let slug = crate::strings::slug_chars(&cleaned);
        let hh = with_id_exec(&h.outer, &slug);
        if h.outer.len() > 0 {
            cur = crate::text::replace_all(&cur, &h.outer, &hh);
        }
        let ghost acc0 = acc@;
        crate::text::append_chars(&mut acc, &chars_of("<a href=\"#"));
        crate::text::append_chars(&mut acc, &slug);
        crate::text::append_chars(&mut acc, &chars_of("\" data-level=\""));
        acc.push(h.level);
        crate::text::append_chars(&mut acc, &chars_of("\">"));
        crate::text::append_chars(&mut acc, &cleaned);
        crate::text::append_chars(&mut acc, &chars_of("</a>"));
        proof {
            assert(acc@ =~= acc0 + toc_entry(h@.level, slug@, cleaned@));
        }
        k = k + 1;
    }
    *file_content = string_of(&cur);
    let mut out = String::from_str("<section class=\"table-of-contents\">");
    out.append(string_of(&acc).as_str());
    out.append("</section>");
    out
}

} // verus!




