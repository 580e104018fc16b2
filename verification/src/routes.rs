//! Routing rules of the embedded web server: which request paths are static
//! assets and which are templates, where templates live, and where a
//! player's local artwork can be found.
use vstd::prelude::*;
use crate::text::{chars_of, join_text, ends_with, has_prefix, has_suffix, starts_with, trim_leading, trim_start_matches};

verus! {

/// A request path that names a static asset: under `static/`, or ending in
/// one of the asset extensions.
pub open spec fn is_static_path_spec(path: Seq<char>) -> bool {
    starts_with(path, "static/"@) || ends_with(path, ".css"@) || ends_with(path, ".js"@)
        || ends_with(path, ".png"@) || ends_with(path, ".svg"@) || ends_with(path, ".ico"@)
        || ends_with(path, ".woff2"@)
}

/// The template that renders a request path: the path itself when it ends in
/// `.html`, else the path with `.html` appended.
pub open spec fn template_name_spec(path: Seq<char>) -> Seq<char> {
    if ends_with(path, ".html"@) {
        path
    } else {
        path + ".html"@
    }
}

/// Every template name ends in `.html`, and a template name is its own
/// template name.
pub proof fn lemma_template_name(path: Seq<char>)
    ensures
        ends_with(template_name_spec(path), ".html"@),
        template_name_spec(template_name_spec(path)) == template_name_spec(path),
{
    reveal_strlit(".html");
    let t = path + ".html"@;
    assert(t.subrange(t.len() - 5, t.len() as int) =~= ".html"@);
}

/// How the server answers a request path.
pub enum PageRequest {
    /// Serve the embedded file at this path.
    Asset(String),
    /// Render the template of this name.
    Template(String),
}

/// Whether a request path names a static asset.
pub fn is_static_path(path: &str) -> (r: bool)
    ensures
        r == is_static_path_spec(path@),
{
    has_prefix(path, "static/") || has_suffix(path, ".css") || has_suffix(path, ".js")
        || has_suffix(path, ".png") || has_suffix(path, ".svg") || has_suffix(path, ".ico")
        || has_suffix(path, ".woff2")
}

/// The template name for a request path.
pub fn template_name(path: &str) -> (r: String)
    ensures
        r@ == template_name_spec(path@),
{
    if has_suffix(path, ".html") {
        path.to_owned()
    } else {
        join_text(path, ".html")
    }
}

/// Decides how a request path is answered: static assets are served as they
/// are, every other path is rendered through its template.
pub fn route_page(path: &str) -> (r: PageRequest)
    ensures
        is_static_path_spec(path@) ==> (r matches PageRequest::Asset(p) && p@ == path@),
        !is_static_path_spec(path@) ==> (r matches PageRequest::Template(t) && t@
            == template_name_spec(path@)),
{
    if is_static_path(path) {
        PageRequest::Asset(path.to_owned())
    } else {
        PageRequest::Template(template_name(path))
    }
}

/// The embedded-asset path of a template.
pub fn template_asset_path(name: &str) -> (r: String)
    ensures
        r@ == "templates/"@ + name@,
{
    join_text("templates/", name)
}

/// The local file that an artwork address points to: the address without its
/// leading `file://` copies, when it starts with `file://`.
pub open spec fn local_art_spec(art_url: Seq<char>) -> Option<Seq<char>> {
    if starts_with(art_url, "file://"@) {
        Some(trim_start_matches(art_url, "file://"@))
    } else {
        None
    }
}

/// The local file path of a player's artwork, if the artwork is a local file.
pub fn local_art_path(art_url: &str) -> (r: Option<String>)
    ensures
        r is Some == local_art_spec(art_url@) is Some,
        r matches Some(p) ==> local_art_spec(art_url@) == Some(p@),
{
    if has_prefix(art_url, "file://") {
        Some(trim_leading(art_url, "file://"))
    } else {
        None
    }
}

/// The local artwork path never starts with `file://`.
pub proof fn lemma_local_art_has_no_scheme(art_url: Seq<char>)
    ensures
        local_art_spec(art_url) matches Some(p) ==> !starts_with(p, "file://"@),
{
    reveal_strlit("file://");
    crate::text::lemma_trim_start_matches_complete(art_url, "file://"@);
}

/// The text sent for a local artwork file: the Base64 text of its bytes.
pub fn art_image_text(bytes: &Vec<u8>) -> (r: String)
    requires
        crate::qr_code::base64_len(bytes@.len()) <= usize::MAX,
    ensures
        r@ == crate::qr_code::base64_standard(bytes@),
{
    crate::qr_code::base64_encode(bytes.as_slice())
}

/// The content type that `mime_guess` gives a path: the first type known for
/// its extension, or `application/octet-stream`.
pub uninterp spec fn guessed_mime(path: Seq<char>) -> Seq<char>;

/// `mime_guess::from_path(path).first_or_octet_stream()`, written out as text.
/// Claimed: the text is `guessed_mime(path)`; the guess looks only at the
/// path's extension in the crate's static table.
#[verifier::external_body]
fn asset_content_type(path: &str) -> (r: String)
    ensures
        r@ == guessed_mime(path@),
{
    mime_guess::from_path(path).first_or_octet_stream().to_string()
}

/// The answer to a static-asset request: 200 with the content type guessed
/// from the path when the embedded file exists, else 404 without one.
pub fn asset_answer(found: bool, path: &str) -> (r: (u16, Option<String>))
    ensures
        found ==> (r.0 == 200 && (r.1 matches Some(t) && t@ == guessed_mime(path@))),
        !found ==> (r.0 == 404 && r.1 is None),
{
    if found {
        (200, Some(asset_content_type(path)))
    } else {
        (404, None)
    }
}

/// The answer status of a template page: 404 when there is no such
/// template, 200 when it rendered, 500 when rendering failed.
pub open spec fn template_status_spec(found: bool, rendered: bool) -> u16 {
    if !found {
        404
    } else if rendered {
        200
    } else {
        500
    }
}

/// Decides the answer status of a template page from whether the template
/// exists and whether it rendered.
pub fn template_status(found: bool, rendered: bool) -> (r: u16)
    ensures
        r == template_status_spec(found, rendered),
{
    if !found {
        404
    } else if rendered {
        200
    } else {
        500
    }
}

/// Every character is an ASCII digit (true of the empty name).
pub open spec fn all_ascii_digits(s: Seq<char>) -> bool {
    forall|i: int| 0 <= i < s.len() ==> '0' <= #[trigger] s[i] <= '9'
}

/// Whether a `/proc` entry name is a process id: ASCII digits only.
pub fn is_process_dir(name: &str) -> (r: bool)
    ensures
        r == all_ascii_digits(name@),
{
    let cs = chars_of(name);
    let mut i: usize = 0;
    while i < cs.len()
        invariant
            cs@ == name@,
            i <= cs@.len(),
            forall|j: int| 0 <= j < i ==> '0' <= #[trigger] cs@[j] <= '9',
        decreases cs.len() - i,
    {
        let c = cs[i];
        if !('0' <= c && c <= '9') {
            return false;
        }
        i = i + 1;
    }
    true
}

/// The path of `path` as seen from the root directory of process `pid`.
pub fn proc_root_path(pid: &str, path: &str) -> (r: String)
    ensures
        r@ == "/proc/"@ + pid@ + "/root"@ + path@,
{
    let a = join_text("/proc/", pid);
    let b = join_text(a.as_str(), "/root");
    join_text(b.as_str(), path)
}

} // verus!
