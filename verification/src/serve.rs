use crate::app_routes::{lookup, segments, AppRoutes};
use crate::strings::same_str;
use vstd::prelude::*;

verus! {

/// The content type that a file name's extension stands for. An extension
/// that is not known stands for HTML.
pub open spec fn content_type_of(extension: Seq<char>) -> Seq<char> {
    if extension == "html"@ || extension == "htm"@ {
        "text/html"@
    } else if extension == "css"@ {
        "text/css"@
    } else if extension == "js"@ {
        "text/javascript"@
    } else if extension == "png"@ {
        "image/png"@
    } else if extension == "jpg"@ || extension == "jpeg"@ {
        "image/jpeg"@
    } else if extension == "gif"@ {
        "image/gif"@
    } else if extension == "svg"@ {
        "image/svg+xml"@
    } else if extension == "ico"@ {
        "image/x-icon"@
    } else if extension == "json"@ {
        "application/json"@
    } else if extension == "pdf"@ {
        "application/pdf"@
    } else if extension == "zip"@ {
        "application/zip"@
    } else if extension == "mp3"@ {
        "audio/mpeg"@
    } else if extension == "mp4"@ || extension == "m4a"@ {
        "video/mp4"@
    } else if extension == "ogg"@ {
        "audio/ogg"@
    } else if extension == "ogv"@ {
        "video/ogg"@
    } else if extension == "webm"@ {
        "video/webm"@
    } else {
        "text/html"@
    }
}

/// The content type to serve a file with, by the extension of its name.
pub fn content_type(extension: &str) -> (name: &'static str)
    ensures
        name@ == content_type_of(extension@),
{
    if same_str(extension, "html") || same_str(extension, "htm") {
        "text/html"
    } else if same_str(extension, "css") {
        "text/css"
    } else if same_str(extension, "js") {
        "text/javascript"
    } else if same_str(extension, "png") {
        "image/png"
    } else if same_str(extension, "jpg") || same_str(extension, "jpeg") {
        "image/jpeg"
    } else if same_str(extension, "gif") {
        "image/gif"
    } else if same_str(extension, "svg") {
        "image/svg+xml"
    } else if same_str(extension, "ico") {
        "image/x-icon"
    } else if same_str(extension, "json") {
        "application/json"
    } else if same_str(extension, "pdf") {
        "application/pdf"
    } else if same_str(extension, "zip") {
        "application/zip"
    } else if same_str(extension, "mp3") {
        "audio/mpeg"
    } else if same_str(extension, "mp4") || same_str(extension, "m4a") {
        "video/mp4"
    } else if same_str(extension, "ogg") {
        "audio/ogg"
    } else if same_str(extension, "ogv") {
        "video/ogg"
    } else if same_str(extension, "webm") {
        "video/webm"
    } else {
        "text/html"
    }
}

/// What a request for `path` is answered with: the content that the first
/// lookup of the path in `routes` finds, or nothing where it finds none, and
/// the content type that `extension` stands for.
pub fn respond<'a>(routes: &AppRoutes<'a>, path: &[&str], extension: &str) -> (r: (
    &'a [u8],
    &'static str,
))
    ensures
        r.0@ == match lookup(routes.tree(), segments(path@), true) {
            Some(content) => content,
            None => Seq::empty(),
        },
        r.1@ == content_type_of(extension@),
{
    let content: &'a [u8] = match routes.get_route(path, true) {
        Some(content) => content,
        None => &[],
    };
    (content, content_type(extension))
}

/// `s` without the `c`s at its front.
pub open spec fn without_leading(s: Seq<char>, c: char) -> Seq<char>
    decreases s.len(),
{
    if s.len() > 0 && s[0] == c {
        without_leading(s.drop_first(), c)
    } else {
        s
    }
}

/// The pieces that `s` falls into at each `separator`, in order. There is
/// one piece more than there are separators; a piece may be empty.
pub open spec fn pieces(s: Seq<char>, separator: char) -> Seq<Seq<char>>
    decreases s.len(),
{
    if s.len() == 0 {
        seq![Seq::empty()]
    } else {
        let rest = pieces(s.drop_first(), separator);
        if s[0] == separator {
            seq![Seq::empty()] + rest
        } else {
            rest.update(0, seq![s[0]] + rest[0])
        }
    }
}

/// There is always at least one piece.
pub proof fn pieces_are_never_none(s: Seq<char>, separator: char)
    ensures
        pieces(s, separator).len() >= 1,
    decreases s.len(),
{
    if s.len() > 0 {
        pieces_are_never_none(s.drop_first(), separator);
    }
}

/// `str::trim_start_matches` with a character: the slice without the
/// characters equal to `c` at its front.
#[verifier::external_body]
fn trim_start<'a>(s: &'a str, c: char) -> (r: &'a str)
    ensures
        r@ == without_leading(s@, c),
{
    s.trim_start_matches(c)
}

/// `str::split` with a character: the slices between the occurrences of
/// the character, in order.
#[verifier::external_body]
fn split<'a>(s: &'a str, separator: char) -> (r: Vec<&'a str>)
    ensures
        segments(r@) == pieces(s@, separator),
{
    s.split(separator).collect()
}

/// The segments of a request path: the path without the slashes at its
/// front, cut at each slash.
pub open spec fn path_of(full_path: Seq<char>) -> Seq<Seq<char>> {
    pieces(without_leading(full_path, '/'), '/')
}

/// What follows the last dot in the last segment of a request path, or that
/// whole segment where it has no dot.
pub open spec fn extension_of(full_path: Seq<char>) -> Seq<char> {
    pieces(path_of(full_path).last(), '.').last()
}

/// Answers a request for `full_path`: the segments of the path are looked
/// up in `routes`, as the first lookup, and the content found is served,
/// or nothing where none is found, with the content type that the
/// extension of the last segment stands for.
pub fn serve<'a>(routes: &AppRoutes<'a>, full_path: &str) -> (r: (&'a [u8], &'static str))
    ensures
        r.0@ == match lookup(routes.tree(), path_of(full_path@), true) {
            Some(content) => content,
            None => Seq::empty(),
        },
        r.1@ == content_type_of(extension_of(full_path@)),
{
    let path = split(trim_start(full_path, '/'), '/');
    proof {
        pieces_are_never_none(without_leading(full_path@, '/'), '/');
        assert(segments(path@).len() == path@.len());
    }
    let filename = path[path.len() - 1];
    assert(filename@ == segments(path@).last());
    let parts = split(filename, '.');
    proof {
        pieces_are_never_none(filename@, '.');
        assert(segments(parts@).len() == parts@.len());
    }
    let extension = parts[parts.len() - 1];
    assert(extension@ == segments(parts@).last());
    respond(routes, path.as_slice(), extension)
}

} // verus!
