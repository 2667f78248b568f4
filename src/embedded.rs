//! Caching policy of the bundled web front end.
use vstd::prelude::*;
use vstd::string::*;

use crate::text::{
    contains_text, ends_with_text, has_infix, has_suffix, leading_count, trailing_count, trim_end_char,
    trim_start_char,
};

verus! {

pub const CACHE_FOREVER: &'static str = "public, max-age=31536000, immutable";
pub const CACHE_ONE_DAY: &'static str = "public, max-age=86400";
pub const NO_CACHE: &'static str = "no-cache";

/// Fonts, which never change once built.
pub open spec fn is_font(p: Seq<char>) -> bool {
    has_suffix(p, ".woff2"@) || has_suffix(p, ".woff"@) || has_suffix(p, ".ttf"@)
}

/// Images.
pub open spec fn is_image(p: Seq<char>) -> bool {
    ||| has_suffix(p, ".png"@)
    ||| has_suffix(p, ".jpg"@)
    ||| has_suffix(p, ".jpeg"@)
    ||| has_suffix(p, ".gif"@)
    ||| has_suffix(p, ".svg"@)
    ||| has_suffix(p, ".ico"@)
}

/// Cache-Control value for a bundled file: hashed build assets and fonts are
/// kept for a year, images for a day, everything else is revalidated.
pub fn get_cache_control(path: &str) -> (r: &'static str)
    ensures
        has_infix(path@, "/_next/static/"@) || is_font(path@) ==> r == CACHE_FOREVER,
        !(has_infix(path@, "/_next/static/"@) || is_font(path@)) && is_image(path@) ==> r == CACHE_ONE_DAY,
        !(has_infix(path@, "/_next/static/"@) || is_font(path@)) && !is_image(path@) ==> r == NO_CACHE,
{
    if contains_text(path, "/_next/static/") {
        CACHE_FOREVER
    } else if ends_with_text(path, ".woff2") || ends_with_text(path, ".woff") || ends_with_text(path, ".ttf") {
        CACHE_FOREVER
    } else if ends_with_text(path, ".png") || ends_with_text(path, ".jpg") || ends_with_text(path, ".jpeg")
        || ends_with_text(path, ".gif") || ends_with_text(path, ".svg") || ends_with_text(path, ".ico") {
        CACHE_ONE_DAY
    } else {
        NO_CACHE
    }
}


/// The bundled file asked for by a request path: the path without leading
/// slashes, `index.html` for the root.
pub open spec fn asset_path(uri: Seq<char>) -> Seq<char> {
    let p = uri.subrange(leading_count(uri, '/') as int, uri.len() as int);
    if p.len() == 0 {
        "index.html"@
    } else {
        p
    }
}

/// `p` without trailing slashes.
pub open spec fn page_base(p: Seq<char>) -> Seq<char> {
    p.subrange(0, p.len() - trailing_count(p, '/'))
}

/// Bundled files tried for a request path, in order: the file itself, the
/// page `<path>.html`, the directory page `<path>/index.html`, and the root
/// page for client-side routes.
pub fn static_candidates(uri_path: &str) -> (r: Vec<String>)
    ensures
        r@.len() == 4,
        r@[0]@ == asset_path(uri_path@),
        r@[1]@ == page_base(asset_path(uri_path@)) + ".html"@,
        r@[2]@ == page_base(asset_path(uri_path@)) + "/index.html"@,
        r@[3]@ == "index.html"@,
{
    let stripped = trim_start_char(uri_path, '/');
    let path = if stripped.as_str().unicode_len() == 0 {
        String::from_str("index.html")
    } else {
        stripped
    };
    let base = trim_end_char(path.as_str(), '/');
    let mut html = base.clone();
    html.append(".html");
    let mut index = base;
    index.append("/index.html");
    let mut r: Vec<String> = Vec::new();
    r.push(path);
    r.push(html);
    r.push(index);
    r.push(String::from_str("index.html"));
    r
}

} // verus!
