//! The static asset chooser for the administrative UI.
//!
//! The pipeline only needs a path-to-bytes lookup with a designated
//! fallback entry for "not found"; the bundle itself is handed in at
//! startup as plain values. Content types come from the file name, so a
//! future disable or edit of the bundle needs no change here.

use vstd::prelude::*;
use vstd::string::StringExecFns;
use crate::errors::Error;
use crate::errors::ErrorKindV;
use crate::errors::ErrorV;
use crate::response::BodyV;
use crate::response::HttpResponse;
use crate::response::RespV;
use crate::response::ResponseBody;
use crate::response::STATUS_NOT_FOUND;
use crate::response::STATUS_OK;

verus! {

/// The content type guessed from a file path's extension. A function of
/// the path alone.
pub uninterp spec fn mime_of_path(path: Seq<char>) -> Seq<char>;

/// The content type guessed from a bare extension. A function of the
/// extension alone.
pub uninterp spec fn mime_of_ext(ext: Seq<char>) -> Seq<char>;

/// Relies on `mime_guess::from_path(..).first_or_octet_stream()`: the
/// content type for a path, `application/octet-stream` when nothing is
/// known. Deterministic in the path.
#[verifier::external_body]
fn guess_mime_for_path(path: &String) -> (r: String)
    ensures
        r@ == mime_of_path(path@),
{
    mime_guess::from_path(path.as_str()).first_or_octet_stream().as_ref().to_string()
}

/// Relies on `mime_guess::from_ext(..).first_or_octet_stream()`: the
/// content type for a bare extension. Deterministic in the extension.
#[verifier::external_body]
fn guess_mime_for_ext(ext: &String) -> (r: String)
    ensures
        r@ == mime_of_ext(ext@),
{
    mime_guess::from_ext(ext.as_str()).first_or_octet_stream().as_ref().to_string()
}

/// Mathematical view of one bundled file.
#[verifier::ext_equal]
pub ghost struct AssetV {
    pub path: Seq<char>,
    pub content: Seq<u8>,
}

/// One bundled file: its path and its bytes.
pub struct Asset {
    pub path: String,
    pub content: Vec<u8>,
}

impl View for Asset {
    type V = AssetV;

    open spec fn view(&self) -> AssetV {
        AssetV { path: self.path@, content: self.content@ }
    }
}

/// Entry `i` of `s` is the file at `path`.
pub open spec fn asset_at(s: Seq<AssetV>, path: Seq<char>, i: int) -> bool {
    0 <= i < s.len() && s[i].path == path
}

/// Some entry of `s` is the file at `path`.
pub open spec fn has_asset(s: Seq<AssetV>, path: Seq<char>) -> bool {
    exists|i: int| #[trigger] asset_at(s, path, i)
}

/// The bytes of the file at `path`; meaningful only when the path is
/// present and paths are unique.
pub open spec fn asset_content(s: Seq<AssetV>, path: Seq<char>) -> Seq<u8> {
    s[choose|i: int| #[trigger] asset_at(s, path, i)].content
}

/// Paths are unique in the bundle.
pub open spec fn assets_wf(s: Seq<AssetV>) -> bool {
    forall|i: int, j: int|
        0 <= i < j < s.len() ==> #[trigger] s[i].path != #[trigger] s[j].path
}

/// The designated fallback entry for "not found".
pub open spec fn fallback_path() -> Seq<char> {
    "404.html"@
}

/// The view of a successful asset response.
pub open spec fn asset_response(content: Seq<u8>, content_type: Seq<char>) -> RespV {
    RespV {
        status: STATUS_OK as int,
        body: BodyV::Asset { content: content },
        www_authenticate: None,
        location: None,
        content_type: Some(content_type),
        log: None,
    }
}

/// The response `serve` gives for a path that is present.
pub open spec fn served_asset(s: Seq<AssetV>, path: Seq<char>) -> RespV {
    asset_response(asset_content(s, path), mime_of_path(path))
}

/// The response `serve` gives when it falls back to the "not found"
/// entry after a miss on another path.
pub open spec fn served_fallback(s: Seq<AssetV>) -> RespV {
    asset_response(asset_content(s, fallback_path()), mime_of_ext("html"@))
}

/// The not-found page as the resolver requests it: the fallback entry
/// served under its own path.
pub open spec fn not_found_page(s: Seq<AssetV>) -> RespV {
    served_asset(s, fallback_path())
}

/// The plain failure when even the fallback entry is missing from the
/// bundle.
pub open spec fn missing_fallback_error() -> ErrorV {
    ErrorV {
        kind: ErrorKindV::Custom { message: "not found"@ },
        status: STATUS_NOT_FOUND as int,
        log: Some("could not find file '404.html'"@),
    }
}

/// A byte-for-byte copy.
fn duplicate_bytes(v: &Vec<u8>) -> (r: Vec<u8>)
    ensures
        r@ == v@,
{
    let mut out: Vec<u8> = Vec::new();
    let mut idx: usize = 0;
    while idx < v.len()
        invariant
            idx <= v.len(),
            out@ =~= v@.subrange(0, idx as int),
        decreases v.len() - idx,
    {
        out.push(v[idx]);
        proof {
            assert(out@ =~= v@.subrange(0, idx as int + 1));
        }
        idx = idx + 1;
    }
    proof {
        assert(v@.subrange(0, v@.len() as int) =~= v@);
    }
    out
}

/// The bundled files, handed in at startup.
pub struct AssetStore {
    assets: Vec<Asset>,
}

impl View for AssetStore {
    type V = Seq<AssetV>;

    closed spec fn view(&self) -> Seq<AssetV> {
        Seq::new(self.assets@.len(), |i: int| self.assets@[i]@)
    }
}

impl AssetStore {
    /// An empty bundle.
    pub fn new() -> (r: AssetStore)
        ensures
            r@ =~= Seq::<AssetV>::empty(),
            assets_wf(r@),
    {
        let r = AssetStore { assets: Vec::new() };
        proof {
            assert(r@ =~= Seq::<AssetV>::empty());
        }
        r
    }

    /// Add one file; a path already present is refused, so paths stay
    /// unique.
    pub fn add(&mut self, path: String, content: Vec<u8>) -> (r: bool)
        requires
            assets_wf(old(self)@),
        ensures
            assets_wf(final(self)@),
            if has_asset(old(self)@, path@) {
                !r && final(self)@ == old(self)@
            } else {
                r && final(self)@ =~= old(self)@.push(AssetV { path: path@, content: content@ })
            },
    {
        if self.find_index(&path).is_some() {
            return false;
        }
        let ghost prev = self@;
        let ghost added = AssetV { path: path@, content: content@ };
        self.assets.push(Asset { path, content });
        proof {
            assert(self@ =~= prev.push(added));
            assert forall|i: int, j: int|
                0 <= i < j < self@.len() implies #[trigger] self@[i].path
                != #[trigger] self@[j].path by {
                if j == prev.len() {
                    assert(!asset_at(prev, added.path, i));
                }
            }
        }
        true
    }

    /// The position of the file at `path`, if any.
    fn find_index(&self, path: &String) -> (r: Option<usize>)
        ensures
            match r {
                Some(i) => asset_at(self@, path@, i as int),
                None => !has_asset(self@, path@),
            },
    {
        let mut idx: usize = 0;
        while idx < self.assets.len()
            invariant
                idx <= self.assets.len(),
                forall|k: int| 0 <= k < idx ==> !asset_at(self@, path@, k),
            decreases self.assets.len() - idx,
        {
            if self.assets[idx].path == *path {
                return Some(idx);
            }
            idx = idx + 1;
        }
        proof {
            assert forall|i: int| !asset_at(self@, path@, i) by {
                if 0 <= i < self@.len() {
                    assert(!asset_at(self@, path@, i));
                }
            }
        }
        None
    }

    /// The bytes of the file at `path`, if it is bundled.
    pub fn get(&self, path: &String) -> (r: Option<Vec<u8>>)
        requires
            assets_wf(self@),
        ensures
            match r {
                Some(content) => has_asset(self@, path@) && content@ == asset_content(
                    self@,
                    path@,
                ),
                None => !has_asset(self@, path@),
            },
    {
        match self.find_index(path) {
            Some(i) => {
                proof {
                    let chosen = choose|k: int| #[trigger] asset_at(self@, path@, k);
                    if chosen != i as int {
                        if chosen < i as int {
                            assert(self@[chosen].path != self@[i as int].path);
                        } else {
                            assert(self@[i as int].path != self@[chosen].path);
                        }
                    }
                }
                Some(duplicate_bytes(&self.assets[i].content))
            },
            None => None,
        }
    }
}

/// Serve the file at the given path, or the bundle's "not found" entry
/// when the path is unknown; only when even that entry is missing does a
/// plain not-found failure come back.
pub(crate) fn serve(assets: &AssetStore, path: &String) -> (r: Result<HttpResponse, Error>)
    requires
        assets_wf(assets@),
    ensures
        match r {
            Ok(resp) => {
                if has_asset(assets@, path@) {
                    resp@ == served_asset(assets@, path@)
                } else {
                    has_asset(assets@, fallback_path()) && resp@ == served_fallback(assets@)
                }
            },
            Err(e) => !has_asset(assets@, path@) && !has_asset(assets@, fallback_path()) && e@
                == missing_fallback_error(),
        },
{
    match assets.get(path) {
        Some(content) => {
            let mime = guess_mime_for_path(path);
            Ok(
                HttpResponse {
                    status: STATUS_OK,
                    body: ResponseBody::Asset { content },
                    www_authenticate: None,
                    location: None,
                    content_type: Some(mime),
                    log_message: None,
                },
            )
        },
        None => {
            let fallback = String::from_str("404.html");
            match assets.get(&fallback) {
                Some(content) => {
                    let mime = guess_mime_for_ext(&String::from_str("html"));
                    Ok(
                        HttpResponse {
                            status: STATUS_OK,
                            body: ResponseBody::Asset { content },
                            www_authenticate: None,
                            location: None,
                            content_type: Some(mime),
                            log_message: None,
                        },
                    )
                },
                None => Err(
                    Error::custom_with_log(
                        String::from_str("not found"),
                        STATUS_NOT_FOUND,
                        String::from_str("could not find file '404.html'"),
                    ),
                ),
            }
        },
    }
}

/// Serve the UI's index page.
pub fn serve_index(assets: &AssetStore) -> (r: Result<HttpResponse, Error>)
    requires
        assets_wf(assets@),
    ensures
        match r {
            Ok(resp) => {
                if has_asset(assets@, "index.html"@) {
                    resp@ == served_asset(assets@, "index.html"@)
                } else {
                    has_asset(assets@, fallback_path()) && resp@ == served_fallback(assets@)
                }
            },
            Err(e) => !has_asset(assets@, "index.html"@) && !has_asset(
                assets@,
                fallback_path(),
            ) && e@ == missing_fallback_error(),
        },
{
    serve(assets, &String::from_str("index.html"))
}

/// Serve an arbitrary bundled file at a given path.
pub fn serve_arbitrary(assets: &AssetStore, path: &String) -> (r: Result<HttpResponse, Error>)
    requires
        assets_wf(assets@),
    ensures
        match r {
            Ok(resp) => {
                if has_asset(assets@, path@) {
                    resp@ == served_asset(assets@, path@)
                } else {
                    has_asset(assets@, fallback_path()) && resp@ == served_fallback(assets@)
                }
            },
            Err(e) => !has_asset(assets@, path@) && !has_asset(assets@, fallback_path()) && e@
                == missing_fallback_error(),
        },
{
    serve(assets, path)
}

} // verus!
