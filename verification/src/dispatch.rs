//! Resolving one request into exactly one response.

use vstd::prelude::*;
use vstd::string::StrSliceExecFns;
use crate::classify::{classify, content_type_spec, is_text_mode_spec};
use crate::store::AssetStore;
use crate::strutil::str_eq;

verus! {

/// The response to one request: the full asset with its content type, or an
/// empty not-found answer. Either way the request is answered exactly once.
pub enum HttpResponse {
    Found { content_type: &'static str, text_mode: bool, body: Vec<u8> },
    NotFound,
}

/// The mathematical shape of a response.
pub enum ResponseModel {
    Found { content_type: Seq<char>, text_mode: bool, body: Seq<u8> },
    NotFound,
}

impl View for HttpResponse {
    type V = ResponseModel;

    open spec fn view(&self) -> ResponseModel {
        match *self {
            HttpResponse::Found { content_type, text_mode, body } => ResponseModel::Found {
                content_type: content_type@,
                text_mode: text_mode,
                body: body@,
            },
            HttpResponse::NotFound => ResponseModel::NotFound,
        }
    }
}

/// The numeric HTTP status a response carries.
pub open spec fn status_spec(r: ResponseModel) -> u16 {
    match r {
        ResponseModel::Found { .. } => 200,
        ResponseModel::NotFound => 404,
    }
}

impl HttpResponse {
    /// The numeric HTTP status of this response.
    pub fn status(&self) -> (s: u16)
        ensures
            s == status_spec(self@),
    {
        match self {
            HttpResponse::Found { .. } => 200,
            HttpResponse::NotFound => 404,
        }
    }
}

/// The asset lookup key of a request URL: the empty URL and the bare root
/// both resolve to `/index.html`, every other URL is its own key.
pub open spec fn lookup_key_spec(url: Seq<char>) -> Seq<char> {
    if url.len() == 0 || url == "/"@ {
        "/index.html"@
    } else {
        url
    }
}

/// Derives the asset lookup key from a request URL.
pub fn lookup_key<'a>(url: &'a str) -> (r: &'a str)
    ensures
        r@ == lookup_key_spec(url@),
{
    if url.unicode_len() == 0 || str_eq(url, "/") {
        "/index.html"
    } else {
        url
    }
}

/// The one response a request URL gets against a given asset bundle.
pub open spec fn handle_spec(assets: Map<Seq<char>, Seq<u8>>, url: Seq<char>) -> ResponseModel {
    let key = lookup_key_spec(url);
    if assets.contains_key(key) {
        ResponseModel::Found {
            content_type: content_type_spec(key),
            text_mode: is_text_mode_spec(content_type_spec(key)),
            body: assets[key],
        }
    } else {
        ResponseModel::NotFound
    }
}

fn clone_bytes(v: &Vec<u8>) -> (r: Vec<u8>)
    ensures
        r@ == v@,
{
    let mut r: Vec<u8> = Vec::new();
    let mut i: usize = 0;
    while i < v.len()
        invariant
            i <= v@.len(),
            r@ == v@.subrange(0, i as int),
        decreases v@.len() - i,
    {
        r.push(v[i]);
        i = i + 1;
        proof {
            assert(r@ =~= v@.subrange(0, i as int));
        }
    }
    proof {
        assert(v@.subrange(0, v@.len() as int) =~= v@);
    }
    r
}

/// Handles one request: derives the lookup key, classifies the content type,
/// and answers with the full asset bytes or with a not-found response.
pub fn handle(store: &AssetStore, url: &str) -> (r: HttpResponse)
    ensures
        r@ == handle_spec(store@, url@),
{
    let key = lookup_key(url);
    let (content_type, text_mode) = classify(key);
    match store.get(key) {
        Some(data) => HttpResponse::Found {
            content_type,
            text_mode,
            body: clone_bytes(data),
        },
        None => HttpResponse::NotFound,
    }
}

/// Law: a URL whose lookup key lies in the bundle is answered with status 200,
/// the content type the key classifies to, and the asset's bytes in full; a
/// URL whose key lies outside the bundle is answered with an empty status-404
/// response, whatever its extension.
pub proof fn lemma_round_trip(assets: Map<Seq<char>, Seq<u8>>, url: Seq<char>)
    ensures
        assets.contains_key(lookup_key_spec(url)) ==> handle_spec(assets, url)
            == (ResponseModel::Found {
            content_type: content_type_spec(lookup_key_spec(url)),
            text_mode: is_text_mode_spec(content_type_spec(lookup_key_spec(url))),
            body: assets[lookup_key_spec(url)],
        }),
        assets.contains_key(lookup_key_spec(url)) ==> status_spec(handle_spec(assets, url)) == 200,
        !assets.contains_key(lookup_key_spec(url)) ==> handle_spec(assets, url)
            == ResponseModel::NotFound,
        !assets.contains_key(lookup_key_spec(url)) ==> status_spec(handle_spec(assets, url))
            == 404,
{
}

/// Law: a request is answered from the bundle and the URL alone, so repeated
/// identical requests against an unchanged bundle get identical responses.
pub proof fn lemma_handle_idempotent(
    assets: Map<Seq<char>, Seq<u8>>,
    url: Seq<char>,
    r1: ResponseModel,
    r2: ResponseModel,
)
    requires
        r1 == handle_spec(assets, url),
        r2 == handle_spec(assets, url),
    ensures
        r1 == r2,
{
}

/// Law: a non-empty request URL other than the bare root is its own lookup key.
pub proof fn lemma_lookup_key_identity(url: Seq<char>)
    requires
        url.len() > 0,
        url != "/"@,
    ensures
        lookup_key_spec(url) == url,
{
}

/// Law: for a URL that is empty or starts with `/`, the lookup key is
/// non-empty and starts with `/`.
pub proof fn lemma_lookup_key_wf(url: Seq<char>)
    requires
        url.len() == 0 || url[0] == '/',
    ensures
        lookup_key_spec(url).len() > 0,
        lookup_key_spec(url)[0] == '/',
{
    reveal_strlit("/index.html");
}

} // verus!
