//! The redirect resolver: the core handler that enables the short-link
//! functionality.
//!
//! Per request: look the name up; a missing or disabled row yields the
//! not-found asset, indistinguishable from outside; a resolvable row has
//! its destination re-checked defensively, its counter incremented by one
//! store-atomic operation, and a temporary redirect issued, so a later
//! disable or edit is honoured by clients that re-resolve.

use vstd::prelude::*;
use crate::api::is_absolute_uri;
use crate::api::uri_is_absolute;
use crate::database::LinkStore;
use crate::database::bump_at;
use crate::database::has_name;
use crate::database::idx_of_id;
use crate::database::idx_of_name;
use crate::database::name_at;
use crate::database::id_at;
use crate::database::store_wf;
use crate::errors::Error;
use crate::errors::ErrorKindV;
use crate::errors::ErrorV;
use crate::response::BodyV;
use crate::response::HttpResponse;
use crate::response::RespV;
use crate::response::ResponseBody;
use crate::response::STATUS_INTERNAL_SERVER_ERROR;
use crate::response::STATUS_TEMPORARY_REDIRECT;
use crate::ui::AssetStore;
use crate::ui::assets_wf;
use crate::ui::fallback_path;
use crate::ui::has_asset;
use crate::ui::missing_fallback_error;
use crate::ui::not_found_page;
use crate::ui::serve;
use vstd::string::StringExecFns;

verus! {

/// The view of a temporary redirect to `dest`: clients must not cache
/// the mapping, so a future disable or edit is honoured.
pub open spec fn redirect_response(dest: Seq<char>) -> RespV {
    RespV {
        status: STATUS_TEMPORARY_REDIRECT as int,
        body: BodyV::Empty,
        www_authenticate: None,
        location: Some(dest),
        content_type: None,
        log: None,
    }
}

/// The failure raised when a stored destination no longer parses: a
/// recoverable internal error, never an abort, and never a redirect.
pub open spec fn corrupt_destination_error() -> ErrorV {
    ErrorV {
        kind: ErrorKindV::Custom { message: "internal server error"@ },
        status: STATUS_INTERNAL_SERVER_ERROR as int,
        log: Some("a stored destination did not parse as an absolute URI"@),
    }
}

/// Whether the resolver treats the lookup as not-found: no row, or a row
/// that is disabled. The two are indistinguishable to the caller.
pub open spec fn unresolvable(s: Seq<crate::database::LinkV>, name: Seq<char>) -> bool {
    !has_name(s, name) || !s[idx_of_name(s, name)].enabled
}

/// Handle a redirection to a given URL.
///
/// The usage increment happens at the store, as one atomic `+ 1` on the
/// resolved row, never as a read-modify-write here — concurrent redirects
/// on one identifier lose no update.
pub fn redirect_link(store: &mut LinkStore, assets: &AssetStore, path: &String) -> (r: Result<
    HttpResponse,
    Error,
>)
    requires
        store_wf(old(store)@),
        assets_wf(assets@),
    ensures
        store_wf(final(store)@),
        unresolvable(old(store)@.links, path@) ==> final(store)@ == old(store)@ && (match r {
            Ok(resp) => has_asset(assets@, fallback_path()) && resp@ == not_found_page(assets@),
            Err(e) => !has_asset(assets@, fallback_path()) && e@ == missing_fallback_error(),
        }),
        !unresolvable(old(store)@.links, path@) ==> {
            let row = old(store)@.links[idx_of_name(old(store)@.links, path@)];
            if is_absolute_uri(row.link) {
                &&& final(store)@ == bump_at(old(store)@, idx_of_name(old(store)@.links, path@))
                &&& r matches Ok(resp) && resp@ == redirect_response(row.link)
            } else {
                &&& final(store)@ == old(store)@
                &&& r matches Err(e) && e@ == corrupt_destination_error()
            }
        },
{
    let idx = match store.find_index_by_name(path) {
        Some(i) => i,
        None => {
            return serve(assets, &String::from_str("404.html"));
        },
    };
    proof {
        assert(name_at(store@.links, path@, idx as int));
        assert forall|k: int| name_at(store@.links, path@, k) implies k == idx as int by {
            if k != idx as int {
                if k < idx as int {
                    assert(store@.links[k].name != store@.links[idx as int].name);
                } else {
                    assert(store@.links[idx as int].name != store@.links[k].name);
                }
            }
        }
        assert(idx_of_name(store@.links, path@) == idx as int);
    }
    let row = store.link_at(idx);
    if !row.enabled {
        return serve(assets, &String::from_str("404.html"));
    }
    if !uri_is_absolute(&row.link) {
        return Err(
            Error::custom_with_log(
                String::from_str("internal server error"),
                STATUS_INTERNAL_SERVER_ERROR,
                String::from_str("a stored destination did not parse as an absolute URI"),
            ),
        );
    }
    proof {
        assert(id_at(store@.links, row.id as int, idx as int));
        assert forall|k: int| id_at(store@.links, row.id as int, k) implies k == idx as int by {
            if k != idx as int {
                if k < idx as int {
                    assert(store@.links[k].id != store@.links[idx as int].id);
                } else {
                    assert(store@.links[idx as int].id != store@.links[k].id);
                }
            }
        }
        assert(idx_of_id(store@.links, row.id as int) == idx as int);
    }
    match store.increment_usage(row.id) {
        Ok(()) => Ok(
            HttpResponse {
                status: STATUS_TEMPORARY_REDIRECT,
                body: ResponseBody::Empty,
                www_authenticate: None,
                location: Some(row.link),
                content_type: None,
                log_message: None,
            },
        ),
        Err(e) => Err(Error::from_store(e)),
    }
}

} // verus!
