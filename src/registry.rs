use vstd::prelude::*;
use crate::json::{Json, json_of_text, member, text_member, parse_json};

verus! {

/// Why a launch stopped. Every kind is fatal.
#[derive(Debug, PartialEq, Eq)]
pub enum LaunchError {
    /// No pull token: the request failed, or the answer held no `token` string.
    Auth,
    /// No layer list: the request failed, or the answer held none.
    Manifest,
    /// A layer could not be fetched or unpacked.
    LayerFetch { digest: String },
    /// The target executable could not be placed in the root.
    RootAssembly,
    /// The confined command could not be started.
    Exec,
}

pub open spec fn token_endpoint() -> Seq<char> {
    "https://auth.docker.io/token?service=registry.docker.io&scope=repository:library/"@
}

pub open spec fn registry_repos() -> Seq<char> {
    "https://registry.hub.docker.com/v2/library/"@
}

/// Where a pull token for `name` is asked for.
pub open spec fn token_url_of(name: Seq<char>) -> Seq<char> {
    token_endpoint() + name + ":pull"@
}

/// Where the manifest of `name:tag` is fetched.
pub open spec fn manifest_url_of(name: Seq<char>, tag: Seq<char>) -> Seq<char> {
    registry_repos() + name + "/manifests/"@ + tag
}

/// Where the layer blob `digest` of `name` is fetched.
pub open spec fn blob_url_of(name: Seq<char>, digest: Seq<char>) -> Seq<char> {
    registry_repos() + name + "/blobs/"@ + digest
}

/// The media type a manifest request accepts.
pub open spec fn manifest_media_type() -> Seq<char> {
    "application/vnd.docker.distribution.manifest.v2+json"@
}

pub fn token_url(name: &str) -> (r: String)
    ensures
        r@ == token_url_of(name@),
{
    let mut url = String::from_str("https://auth.docker.io/token?service=registry.docker.io&scope=repository:library/");
    url.append(name);
    url.append(":pull");
    url
}

pub fn manifest_url(name: &str, tag: &str) -> (r: String)
    ensures
        r@ == manifest_url_of(name@, tag@),
{
    let mut url = String::from_str("https://registry.hub.docker.com/v2/library/");
    url.append(name);
    url.append("/manifests/");
    url.append(tag);
    url
}

pub fn blob_url(name: &str, digest: &str) -> (r: String)
    ensures
        r@ == blob_url_of(name@, digest@),
{
    let mut url = String::from_str("https://registry.hub.docker.com/v2/library/");
    url.append(name);
    url.append("/blobs/");
    url.append(digest);
    url
}

pub fn manifest_media_type_str() -> (r: &'static str)
    ensures
        r@ == manifest_media_type(),
{
    "application/vnd.docker.distribution.manifest.v2+json"
}

/// The pull token an auth answer carries: its `token` member, when a string.
pub open spec fn token_of(j: Json) -> Option<Seq<char>> {
    text_member(j, "token"@)
}

/// The pull token in an auth answer's text.
pub open spec fn token_of_text(text: Seq<char>) -> Option<Seq<char>> {
    match json_of_text(text) {
        Some(j) => token_of(j),
        None => None,
    }
}

/// The texts of member `key` of each item, in order, when every item has one.
pub open spec fn texts_of_items(items: Seq<Json>, key: Seq<char>) -> Option<Seq<Seq<char>>> {
    if forall|i: int| 0 <= i < items.len() ==> (#[trigger] text_member(items[i], key)) is Some {
        Some(Seq::new(items.len(), |i: int| text_member(items[i], key)->0))
    } else {
        None
    }
}

/// The digests listed under `list`, each the `key` member of an item.
pub open spec fn digests_under(j: Json, list: Seq<char>, key: Seq<char>) -> Option<Seq<Seq<char>>> {
    match member(j, list) {
        Some(Json::Array(items)) => texts_of_items(items@, key),
        _ => None,
    }
}

/// The layer digests of a manifest, in manifest order: `layers[].digest`
/// when a `layers` array is present, else `fsLayers[].blobSum`.
pub open spec fn layers_of(j: Json) -> Option<Seq<Seq<char>>> {
    match member(j, "layers"@) {
        Some(Json::Array(_)) => digests_under(j, "layers"@, "digest"@),
        _ => digests_under(j, "fsLayers"@, "blobSum"@),
    }
}

/// The layer digests in a manifest answer's text.
pub open spec fn layers_of_text(text: Seq<char>) -> Option<Seq<Seq<char>>> {
    match json_of_text(text) {
        Some(j) => layers_of(j),
        None => None,
    }
}

/// Views of a list of strings.
pub open spec fn texts(v: Seq<String>) -> Seq<Seq<char>> {
    Seq::new(v.len(), |i: int| v[i]@)
}

/// Takes the pull token out of a parsed auth answer.
pub fn token_from_json(j: &Json) -> (r: Result<String, LaunchError>)
    ensures
        r is Ok <==> token_of(*j) is Some,
        r matches Ok(t) ==> token_of(*j) == Some(t@),
        r is Err ==> r == Err::<String, LaunchError>(LaunchError::Auth),
{
    match j.text_member("token") {
        Some(t) => Ok(t),
        None => Err(LaunchError::Auth),
    }
}

/// Takes the pull token out of an auth answer's text.
pub fn token_from_response(body: &str) -> (r: Result<String, LaunchError>)
    ensures
        r is Ok <==> token_of_text(body@) is Some,
        r matches Ok(t) ==> token_of_text(body@) == Some(t@),
        r is Err ==> r == Err::<String, LaunchError>(LaunchError::Auth),
{
    match parse_json(body) {
        Some(j) => token_from_json(&j),
        None => Err(LaunchError::Auth),
    }
}

/// The `key` texts of `items`, in order; `None` when an item lacks one.
fn texts_from_items(items: &Vec<Json>, key: &str) -> (r: Option<Vec<String>>)
    ensures
        r is Some <==> texts_of_items(items@, key@) is Some,
        r matches Some(v) ==> texts_of_items(items@, key@) == Some(texts(v@)),
{
    let n = items.len();
    let mut out: Vec<String> = Vec::new();
    let mut i: usize = 0;
    while i < n
        invariant
            n == items@.len(),
            0 <= i <= n,
            out@.len() == i,
            forall|k: int| 0 <= k < i ==> text_member(#[trigger] items@[k], key@) == Some(out@[k]@),
        decreases n - i,
    {
        match items[i].text_member(key) {
            Some(t) => out.push(t),
            None => {
                assert(text_member(items@[i as int], key@) is None);
                return None;
            },
        }
        i = i + 1;
    }
    assert(texts_of_items(items@, key@) is Some);
    assert(texts(out@) =~= texts_of_items(items@, key@)->0);
    Some(out)
}

/// Takes the ordered layer digests out of a parsed manifest.
pub fn layers_from_json(j: &Json) -> (r: Result<Vec<String>, LaunchError>)
    ensures
        r is Ok <==> layers_of(*j) is Some,
        r matches Ok(v) ==> layers_of(*j) == Some(texts(v@)),
        r is Err ==> r == Err::<Vec<String>, LaunchError>(LaunchError::Manifest),
{
    let (list, key) = match j.get("layers") {
        Some(Json::Array(items)) => (items, "digest"),
        _ => match j.get("fsLayers") {
            Some(Json::Array(items)) => (items, "blobSum"),
            _ => return Err(LaunchError::Manifest),
        },
    };
    match texts_from_items(list, key) {
        Some(v) => Ok(v),
        None => Err(LaunchError::Manifest),
    }
}

/// Takes the ordered layer digests out of a manifest answer's text.
pub fn layers_from_response(body: &str) -> (r: Result<Vec<String>, LaunchError>)
    ensures
        r is Ok <==> layers_of_text(body@) is Some,
        r matches Ok(v) ==> layers_of_text(body@) == Some(texts(v@)),
        r is Err ==> r == Err::<Vec<String>, LaunchError>(LaunchError::Manifest),
{
    match parse_json(body) {
        Some(j) => layers_from_json(&j),
        None => Err(LaunchError::Manifest),
    }
}

} // verus!
