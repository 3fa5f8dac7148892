//! The site content extractor's own decisions: where a page's artifacts
//! are cached, and how a fetched page becomes near-text before a language
//! model is asked for its main content.

use crate::document::opt_text_view;
use crate::markup::{body_region, body_region_spec, normalize_text, normalized, trim_bounds, trimmed};
use crate::text::chars_of;
use regex::Regex;
use url::{ParseError, Url};
use vstd::prelude::*;

verus! {

#[verifier::external_type_specification]
#[verifier::external_body]
pub struct ExParseError(ParseError);

/// Whether regex accepts `pattern`.
pub uninterp spec fn regex_valid(pattern: Seq<char>) -> bool;

/// `text` with every match of `pattern` replaced by `replacement`, as regex
/// computes it.
pub uninterp spec fn regex_replaced(pattern: Seq<char>, text: Seq<char>, replacement: Seq<char>) -> Seq<char>;

/// Relies on regex's `Regex::new` and `Regex::replace_all`: whether the
/// pattern compiles depends on its text alone, and the replaced text on the
/// three texts alone.
#[verifier::external_body]
fn regex_replace_all(pattern: &str, text: &str, replacement: &str) -> (r: Option<String>)
    ensures
        r is Some <==> regex_valid(pattern@),
        r matches Some(t) ==> t@ == regex_replaced(pattern@, text@, replacement@),
{
    match Regex::new(pattern) {
        Ok(re) => Some(re.replace_all(text, replacement).into_owned()),
        Err(_) => None,
    }
}

/// The host and the path of a URL as the url crate parses it, or `None`
/// where it rejects the text.
pub uninterp spec fn url_parts(s: Seq<char>) -> Option<(Option<Seq<char>>, Seq<char>)>;

/// Relies on url's `Url::parse`, `Url::host_str` and `Url::path`: whether
/// the text parses, and the host and path it yields, depend on the text alone.
#[verifier::external_body]
fn parse_url(s: &str) -> (r: Result<(Option<String>, String), ParseError>)
    ensures
        match r {
            Ok((h, p)) => url_parts(s@) == Some((opt_text_view(h), p@)),
            Err(_) => url_parts(s@) is None,
        },
{
    match Url::parse(s) {
        Ok(u) => Ok((u.host_str().map(|h| h.to_string()), u.path().to_string())),
        Err(e) => Err(e),
    }
}

/// A `<script>` block, its content included.
pub const SCRIPT_BLOCK: &'static str = "<script[^>]*>[\\s\\S]*?</script>";

/// A `<style>` block, its content included.
pub const STYLE_BLOCK: &'static str = "<style[^>]*>[\\s\\S]*?</style>";

/// Any markup tag.
pub const MARKUP_TAG: &'static str = "<[^>]+>";

pub open spec fn patterns_valid() -> bool {
    regex_valid(SCRIPT_BLOCK@) && regex_valid(STYLE_BLOCK@) && regex_valid(MARKUP_TAG@)
}

/// The near-text of a page: its body, without script and style blocks, with
/// every other tag replaced by a space, then normalized.
pub open spec fn stripped(html: Seq<char>) -> Seq<char> {
    normalized(
        regex_replaced(
            MARKUP_TAG@,
            regex_replaced(
                STYLE_BLOCK@,
                regex_replaced(SCRIPT_BLOCK@, body_region_spec(html), ""@),
                ""@,
            ),
            " "@,
        ),
    )
}

/// Reduces a fetched page to near-text (see `stripped`); `None` only where
/// regex rejects one of the patterns.
pub fn strip_markup(html: &str) -> (r: Option<String>)
    ensures
        r is Some <==> patterns_valid(),
        r matches Some(t) ==> t@ == stripped(html@),
{
    let body = body_region(html);
    let no_script = match regex_replace_all(SCRIPT_BLOCK, body.as_str(), "") {
        Some(t) => t,
        None => return None,
    };
    let no_style = match regex_replace_all(STYLE_BLOCK, no_script.as_str(), "") {
        Some(t) => t,
        None => return None,
    };
    let no_tags = match regex_replace_all(MARKUP_TAG, no_style.as_str(), " ") {
        Some(t) => t,
        None => return None,
    };
    Some(normalize_text(no_tags.as_str()))
}

/// Why extracting a site's content failed.
#[derive(Debug)]
pub enum SiteLoaderError {
    /// Fetching the page, or the extraction by the language model, failed.
    RequestError(String),
    /// The URL does not parse.
    UrlError(ParseError),
    /// Writing a cached artifact failed.
    IoError(String),
    /// regex rejected one of the markup patterns.
    InvalidPattern,
}

/// What the language model is asked to return: the page's main content.
#[derive(Clone, Debug)]
pub struct Content {
    pub content: String,
}

/// A page to extract, with where its artifacts are cached.
#[derive(Clone, Debug)]
pub struct SiteLoader {
    pub url: String,
    pub host: Option<String>,
    pub path: String,
    /// `<sources root>/sites`.
    pub base_path: String,
}

/// The cache directory of a page: `<base>/<host>/<path>`, the path without
/// its leading and trailing slashes; `unknown` stands for a missing host,
/// and an empty path adds no segment.
pub open spec fn site_dir_spec(base: Seq<char>, host: Option<Seq<char>>, path: Seq<char>) -> Seq<char> {
    let h = match host {
        Some(h) => h,
        None => "unknown"@,
    };
    let p = trimmed(path, true);
    if p.len() == 0 {
        base + "/"@ + h
    } else {
        base + "/"@ + h + "/"@ + p
    }
}

impl SiteLoader {
    /// A loader for `url`, caching under `sources_root`; a URL that does not
    /// parse fails at once.
    pub fn new(url: String, sources_root: &str) -> (r: Result<SiteLoader, SiteLoaderError>)
        ensures
            match url_parts(url@) {
                None => r matches Err(SiteLoaderError::UrlError(_)),
                Some((h, p)) => r matches Ok(l) && l.url@ == url@ && opt_text_view(l.host) == h
                    && l.path@ == p && l.base_path@ == sources_root@ + "/sites"@,
            },
    {
        match parse_url(url.as_str()) {
            Ok((host, path)) => {
                let mut base_path = String::from_str(sources_root);
                base_path.append("/sites");
                Ok(SiteLoader { url, host, path, base_path })
            },
            Err(e) => Err(SiteLoaderError::UrlError(e)),
        }
    }

    /// The directory under which the page's artifacts are cached.
    pub fn get_site_dir(&self) -> (r: String)
        ensures
            r@ == site_dir_spec(self.base_path@, opt_text_view(self.host), self.path@),
    {
        let mut r = String::from_str(self.base_path.as_str());
        r.append("/");
        match &self.host {
            Some(h) => r.append(h.as_str()),
            None => r.append("unknown"),
        }
        let v = chars_of(self.path.as_str());
        let (a, b) = trim_bounds(&v, true);
        if a < b {
            r.append("/");
            r.append(self.path.as_str().substring_char(a, b));
        }
        r
    }

    /// Where the page's near-text is cached.
    pub fn html_path(&self) -> (r: String)
        ensures
            r@ == site_dir_spec(self.base_path@, opt_text_view(self.host), self.path@)
                + "/index.html"@,
    {
        let mut r = self.get_site_dir();
        r.append("/index.html");
        r
    }

    /// Where the page's extracted content is cached.
    pub fn content_path(&self) -> (r: String)
        ensures
            r@ == site_dir_spec(self.base_path@, opt_text_view(self.host), self.path@)
                + "/content.txt"@,
    {
        let mut r = self.get_site_dir();
        r.append("/content.txt");
        r
    }

    /// The near-text of the fetched page, to be cached and handed to the
    /// language model.
    pub fn prepare_text(&self, html: &str) -> (r: Result<String, SiteLoaderError>)
        ensures
            patterns_valid() ==> (r matches Ok(t) && t@ == stripped(html@)),
            !patterns_valid() ==> (r matches Err(SiteLoaderError::InvalidPattern)),
    {
        match strip_markup(html) {
            Some(t) => Ok(t),
            None => Err(SiteLoaderError::InvalidPattern),
        }
    }
}

} // verus!
