//! Content-type classification from a path's file extension.

use vstd::prelude::*;
use vstd::string::StrSliceExecFns;
use crate::strutil::str_eq;

verus! {

/// The extension of a path: the characters after the last `.` of the final
/// path segment, or `None` when the final segment holds no `.` at all.
pub open spec fn extension_of(p: Seq<char>) -> Option<Seq<char>>
    decreases p.len(),
{
    if p.len() == 0 {
        None
    } else if p.last() == '.' {
        Some(Seq::empty())
    } else if p.last() == '/' {
        None
    } else {
        match extension_of(p.drop_last()) {
            None => None,
            Some(e) => Some(e.push(p.last())),
        }
    }
}

/// The extensions the classification table knows.
pub open spec fn is_known_extension(e: Seq<char>) -> bool {
    ||| e == "gif"@
    ||| e == "jpg"@
    ||| e == "jpeg"@
    ||| e == "png"@
    ||| e == "pdf"@
    ||| e == "ttf"@
    ||| e == "woff"@
    ||| e == "woff2"@
    ||| e == "js"@
    ||| e == "csv"@
    ||| e == "css"@
    ||| e == "htm"@
    ||| e == "html"@
    ||| e == "txt"@
}

/// The MIME string for a present extension; an unrecognized extension gets
/// the charset-annotated plain-text default.
pub open spec fn mime_of_ext_spec(e: Seq<char>) -> Seq<char> {
    if e == "gif"@ {
        "image/gif"@
    } else if e == "jpg"@ {
        "image/jpeg"@
    } else if e == "jpeg"@ {
        "image/jpeg"@
    } else if e == "png"@ {
        "image/png"@
    } else if e == "pdf"@ {
        "application/pdf"@
    } else if e == "ttf"@ {
        "font/ttf"@
    } else if e == "woff"@ {
        "font/woff"@
    } else if e == "woff2"@ {
        "font/woff2"@
    } else if e == "js"@ {
        "text/javascript"@
    } else if e == "csv"@ {
        "text/csv; charset=utf8"@
    } else if e == "css"@ {
        "text/css; charset=utf8"@
    } else if e == "htm"@ {
        "text/html; charset=utf8"@
    } else if e == "html"@ {
        "text/html; charset=utf8"@
    } else if e == "txt"@ {
        "text/plain; charset=utf8"@
    } else {
        "text/plain; charset=utf8"@
    }
}

/// The MIME string a path classifies to: a path without an extension gets the
/// bare plain-text default, any other path goes through the extension table.
pub open spec fn content_type_spec(p: Seq<char>) -> Seq<char> {
    match extension_of(p) {
        None => "text/plain"@,
        Some(e) => mime_of_ext_spec(e),
    }
}

/// The closed set of MIME strings whose bodies are decoded as UTF-8 text
/// before transmission. Deliberately not a prefix check: `text/javascript`
/// and `text/css; charset=utf8` are transmitted as raw bytes even though
/// their MIME strings start with `text/`.
pub open spec fn is_text_mode_spec(m: Seq<char>) -> bool {
    ||| m == "text/plain"@
    ||| m == "text/plain; charset=utf8"@
    ||| m == "text/html; charset=utf8"@
    ||| m == "text/csv; charset=utf8"@
    ||| m == "text/txt; charset=utf8"@
}

proof fn lemma_extension_at_dot(p: Seq<char>, d: int)
    requires
        0 <= d < p.len(),
        p[d] == '.',
        forall|j: int| d < j < p.len() ==> p[j] != '.' && p[j] != '/',
    ensures
        extension_of(p) == Some(p.subrange(d + 1, p.len() as int)),
    decreases p.len(),
{
    if d == p.len() - 1 {
        assert(p.subrange(d + 1, p.len() as int) =~= Seq::<char>::empty());
    } else {
        let q = p.drop_last();
        lemma_extension_at_dot(q, d);
        assert(p.subrange(d + 1, p.len() as int) =~= q.subrange(d + 1, q.len() as int).push(
            p.last(),
        ));
    }
}

proof fn lemma_no_extension(p: Seq<char>, d: int)
    requires
        -1 <= d < p.len(),
        d >= 0 ==> p[d] == '/',
        forall|j: int| d < j < p.len() ==> p[j] != '.' && p[j] != '/',
    ensures
        extension_of(p) is None,
    decreases p.len(),
{
    if p.len() == 0 {
    } else if d == p.len() - 1 {
    } else {
        lemma_no_extension(p.drop_last(), d);
    }
}

fn mime_of_ext(ext: &str) -> (r: &'static str)
    ensures
        r@ == mime_of_ext_spec(ext@),
{
    if str_eq(ext, "gif") {
        "image/gif"
    } else if str_eq(ext, "jpg") {
        "image/jpeg"
    } else if str_eq(ext, "jpeg") {
        "image/jpeg"
    } else if str_eq(ext, "png") {
        "image/png"
    } else if str_eq(ext, "pdf") {
        "application/pdf"
    } else if str_eq(ext, "ttf") {
        "font/ttf"
    } else if str_eq(ext, "woff") {
        "font/woff"
    } else if str_eq(ext, "woff2") {
        "font/woff2"
    } else if str_eq(ext, "js") {
        "text/javascript"
    } else if str_eq(ext, "csv") {
        "text/csv; charset=utf8"
    } else if str_eq(ext, "css") {
        "text/css; charset=utf8"
    } else if str_eq(ext, "htm") {
        "text/html; charset=utf8"
    } else if str_eq(ext, "html") {
        "text/html; charset=utf8"
    } else if str_eq(ext, "txt") {
        "text/plain; charset=utf8"
    } else {
        "text/plain; charset=utf8"
    }
}

/// Classifies a path into the MIME string its response carries.
pub fn get_content_type(filename: &str) -> (r: &'static str)
    ensures
        r@ == content_type_spec(filename@),
{
    let len: usize = filename.unicode_len();
    let mut i: usize = len;
    while i > 0
        invariant
            i <= len,
            len == filename@.len(),
            forall|j: int| i <= j < len ==> filename@[j] != '.' && filename@[j] != '/',
        decreases i,
    {
        let c = filename.get_char(i - 1);
        if c == '.' {
            let ext = filename.substring_char(i, len);
            proof {
                lemma_extension_at_dot(filename@, i - 1);
            }
            return mime_of_ext(ext);
        }
        if c == '/' {
            proof {
                lemma_no_extension(filename@, i - 1);
            }
            return "text/plain";
        }
        i = i - 1;
    }
    proof {
        lemma_no_extension(filename@, -1);
    }
    "text/plain"
}

/// Returns whether a MIME string selects the text-decoding path.
pub fn is_text_mode(mime: &str) -> (b: bool)
    ensures
        b == is_text_mode_spec(mime@),
{
    str_eq(mime, "text/plain") || str_eq(mime, "text/plain; charset=utf8") || str_eq(
        mime,
        "text/html; charset=utf8",
    ) || str_eq(mime, "text/csv; charset=utf8") || str_eq(mime, "text/txt; charset=utf8")
}

/// Classifies a path: the MIME string its response carries, paired with
/// whether the body takes the text-decoding path.
pub fn classify(path: &str) -> (r: (&'static str, bool))
    ensures
        r.0@ == content_type_spec(path@),
        r.1 == is_text_mode_spec(content_type_spec(path@)),
{
    let mime = get_content_type(path);
    let text = is_text_mode(mime);
    (mime, text)
}

/// Law: an unknown or missing extension always classifies to one of the two
/// plain-text defaults, and both defaults select the text-decoding path.
pub proof fn lemma_default_is_text_mode(p: Seq<char>)
    requires
        (match extension_of(p) {
            None => true,
            Some(e) => !is_known_extension(e),
        }),
    ensures
        is_text_mode_spec(content_type_spec(p)),
{
}

} // verus!
