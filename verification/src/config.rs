//! The build configuration: the urls, directories and path patterns a
//! site is generated with, and the default header and author data for
//! posts.  Every field is optional in the on-disk configuration; the
//! getters supply the defaults.
use vstd::prelude::*;

verus! {

/// What an optional string yields: its text, or empty when absent.
pub open spec fn unwrap_string_spec(v: Option<Seq<char>>) -> Seq<char> {
    match v {
        None => Seq::empty(),
        Some(s) => s,
    }
}

/// The view of an optional owned string.
pub open spec fn opt_view(v: &Option<String>) -> Option<Seq<char>> {
    match v {
        None => None,
        Some(s) => Some(s@),
    }
}

/// An optional string's text, or the empty string when absent.
pub fn unwrap_string(value: Option<&String>) -> (r: String)
    ensures
        r@ == unwrap_string_spec(
            match value {
                None => None,
                Some(s) => Some(s@),
            },
        ),
{
    match value {
        None => String::new(),
        Some(result) => result.clone(),
    }
}

/// Default header data for posts that declare none.
#[derive(Debug, Clone, PartialEq, Eq)]
pub struct ConfigHeader {
    pub image: Option<String>,
    pub credits: Option<String>,
}

impl ConfigHeader {
    /// The default header image, or empty.
    pub fn image(&self) -> (r: String)
        ensures
            r@ == unwrap_string_spec(opt_view(&self.image)),
    {
        unwrap_string(self.image.as_ref())
    }

    /// The default header credits, or empty.
    pub fn credits(&self) -> (r: String)
        ensures
            r@ == unwrap_string_spec(opt_view(&self.credits)),
    {
        unwrap_string(self.credits.as_ref())
    }
}

/// Default author data for posts that declare none.
#[derive(Debug, Clone, PartialEq, Eq)]
pub struct ConfigAuthor {
    pub name: Option<String>,
    pub image: Option<String>,
    pub github_url: Option<String>,
    pub github_username: Option<String>,
}

impl ConfigAuthor {
    /// The default author name, or empty.
    pub fn name(&self) -> (r: String)
        ensures
            r@ == unwrap_string_spec(opt_view(&self.name)),
    {
        unwrap_string(self.name.as_ref())
    }

    /// The default author image, or empty.
    pub fn image(&self) -> (r: String)
        ensures
            r@ == unwrap_string_spec(opt_view(&self.image)),
    {
        unwrap_string(self.image.as_ref())
    }

    /// The default author profile url, or empty.
    pub fn github_url(&self) -> (r: String)
        ensures
            r@ == unwrap_string_spec(opt_view(&self.github_url)),
    {
        unwrap_string(self.github_url.as_ref())
    }

    /// The default author user name, or empty.
    pub fn github_username(&self) -> (r: String)
        ensures
            r@ == unwrap_string_spec(opt_view(&self.github_username)),
    {
        unwrap_string(self.github_username.as_ref())
    }
}

/// Default image and author references for the post list.
#[derive(Debug, Clone, PartialEq, Eq)]
pub struct ConfigPosts {
    pub image: Option<String>,
    pub author: Option<String>,
    pub author_github: Option<String>,
}

impl ConfigPosts {
    /// The posts' default image.  The field must be set.
    pub fn image(&self) -> (r: &String)
        requires
            self.image is Some,
        ensures
            Some(r@) == opt_view(&self.image),
    {
        self.image.as_ref().unwrap()
    }

    /// The posts' default author.  The field must be set.
    pub fn author(&self) -> (r: &String)
        requires
            self.author is Some,
        ensures
            Some(r@) == opt_view(&self.author),
    {
        self.author.as_ref().unwrap()
    }

    /// The posts' default author profile.  The field must be set.
    pub fn author_github(&self) -> (r: &String)
        requires
            self.author_github is Some,
        ensures
            Some(r@) == opt_view(&self.author_github),
    {
        self.author_github.as_ref().unwrap()
    }
}

/// The whole build configuration.  String fields default to empty,
/// boolean fields to true.
#[derive(Debug, Clone, PartialEq, Eq)]
pub struct Config {
    pub url_root: Option<String>,
    pub url_post: Option<String>,
    pub path_tera: Option<String>,
    pub path_render: Option<String>,
    pub dir_resources: Option<String>,
    pub dir_output: Option<String>,
    pub dir_templates: Option<String>,
    pub dir_posts: Option<String>,
    pub verbose: Option<bool>,
    pub clean: Option<bool>,
    pub preserve: Option<bool>,
    pub header: ConfigHeader,
    pub author: ConfigAuthor,
}

/// What an optional flag yields: its value, or true when absent.
pub open spec fn flag_or_true(v: Option<bool>) -> bool {
    match v {
        None => true,
        Some(b) => b,
    }
}

impl Config {
    /// A configuration with nothing set: every string getter yields
    /// empty, every flag getter yields true.
    pub fn new() -> (r: Config)
        ensures
            r.url_root is None,
            r.url_post is None,
            r.path_tera is None,
            r.path_render is None,
            r.dir_resources is None,
            r.dir_output is None,
            r.dir_templates is None,
            r.dir_posts is None,
            r.verbose is None,
            r.clean is None,
            r.preserve is None,
            r.header.image is None,
            r.header.credits is None,
            r.author.name is None,
            r.author.image is None,
            r.author.github_url is None,
            r.author.github_username is None,
    {
        Config {
            url_root: None,
            url_post: None,
            path_tera: None,
            path_render: None,
            dir_resources: None,
            dir_output: None,
            dir_templates: None,
            dir_posts: None,
            verbose: None,
            clean: None,
            preserve: None,
            header: ConfigHeader { image: None, credits: None },
            author: ConfigAuthor {
                name: None,
                image: None,
                github_url: None,
                github_username: None,
            },
        }
    }

    /// The site's root url, or empty.
    pub fn url_root(&self) -> (r: String)
        ensures
            r@ == unwrap_string_spec(opt_view(&self.url_root)),
    {
        unwrap_string(self.url_root.as_ref())
    }

    /// The post url pattern, or empty.
    pub fn url_post(&self) -> (r: String)
        ensures
            r@ == unwrap_string_spec(opt_view(&self.url_post)),
    {
        unwrap_string(self.url_post.as_ref())
    }

    /// The template glob pattern, or empty.
    pub fn path_tera(&self) -> (r: String)
        ensures
            r@ == unwrap_string_spec(opt_view(&self.path_tera)),
    {
        unwrap_string(self.path_tera.as_ref())
    }

    /// The render path pattern, or empty.
    pub fn path_render(&self) -> (r: String)
        ensures
            r@ == unwrap_string_spec(opt_view(&self.path_render)),
    {
        unwrap_string(self.path_render.as_ref())
    }

    /// The resources directory, or empty.
    pub fn dir_resources(&self) -> (r: String)
        ensures
            r@ == unwrap_string_spec(opt_view(&self.dir_resources)),
    {
        unwrap_string(self.dir_resources.as_ref())
    }

    /// The output directory, or empty.
    pub fn dir_output(&self) -> (r: String)
        ensures
            r@ == unwrap_string_spec(opt_view(&self.dir_output)),
    {
        unwrap_string(self.dir_output.as_ref())
    }

    /// The templates directory, or empty.
    pub fn dir_templates(&self) -> (r: String)
        ensures
            r@ == unwrap_string_spec(opt_view(&self.dir_templates)),
    {
        unwrap_string(self.dir_templates.as_ref())
    }

    /// The posts directory, or empty.
    pub fn dir_posts(&self) -> (r: String)
        ensures
            r@ == unwrap_string_spec(opt_view(&self.dir_posts)),
    {
        unwrap_string(self.dir_posts.as_ref())
    }

    /// Whether the build logs its actions; on by default.
    pub fn verbose(&self) -> (r: bool)
        ensures
            r == flag_or_true(self.verbose),
    {
        match self.verbose {
            None => true,
            Some(result) => result,
        }
    }

    /// Whether the output directory is cleaned first; on by default.
    pub fn clean(&self) -> (r: bool)
        ensures
            r == flag_or_true(self.clean),
    {
        match self.clean {
            None => true,
            Some(result) => result,
        }
    }

    /// Whether cleaning preserves the old output; on by default.
    pub fn preserve(&self) -> (r: bool)
        ensures
            r == flag_or_true(self.preserve),
    {
        match self.preserve {
            None => true,
            Some(result) => result,
        }
    }
}

/// The paths and url patterns a post build runs with.
#[derive(Debug, Clone, PartialEq, Eq)]
pub struct PostsConfig {
    pub uri: String,
    pub uri_post: String,
    pub dir_dist: String,
    pub dir_templates: String,
    pub path_render: String,
}

} // verus!
