//! The administrative handlers: create, list, update and delete links.
//!
//! A destination is validated before any store mutation — an invalid link
//! is rejected at the point of use and no partial write occurs. Store
//! failures surface through the error taxonomy, never raw.

use vstd::prelude::*;
use crate::database::LinkStore;
use crate::database::LinkV;
use crate::database::NewLink;
use crate::database::UpdatableLink;
use crate::database::apply_changeset;
use crate::database::can_insert;
use crate::database::fresh_link;
use crate::database::has_id;
use crate::database::has_name;
use crate::database::idx_of_id;
use crate::database::insert_effect;
use crate::database::name_taken_by_other;
use crate::database::remove_at;
use crate::database::set_at;
use crate::database::store_wf;
use crate::errors::Error;
use crate::errors::ErrorKindV;
use crate::errors::ErrorV;
use crate::errors::not_found_error;
use crate::errors::storage_error;
use crate::errors::unique_violation_error;
use crate::response::BodyV;
use crate::response::HttpResponse;
use crate::response::RespV;
use crate::response::ResponseBody;
use crate::response::STATUS_BAD_REQUEST;
use crate::response::STATUS_CREATED;
use crate::response::STATUS_NO_CONTENT;
use crate::response::STATUS_OK;

verus! {

/// Whether a string parses as a URI with a non-empty scheme. The result
/// depends on the characters alone.
pub uninterp spec fn is_absolute_uri(s: Seq<char>) -> bool;

/// Relies on `http::Uri`: `str::parse::<Uri>` and `Uri::scheme`. The parse
/// is deterministic, so whether `s` is an absolute URI is a function of
/// `s` alone.
#[verifier::external_body]
pub(crate) fn uri_is_absolute(s: &String) -> (r: bool)
    ensures
        r == is_absolute_uri(s@),
{
    match s.as_str().parse::<http::Uri>() {
        Ok(uri) => uri.scheme().is_some(),
        Err(_) => false,
    }
}

/// The view of the error an invalid destination raises.
pub open spec fn invalid_link_error() -> ErrorV {
    ErrorV { kind: ErrorKindV::InvalidLink, status: STATUS_BAD_REQUEST as int, log: None }
}

/// Ensure a URL is valid: it must parse as an absolute URI.
pub fn url_is_valid(unvalidated: &String) -> (r: Result<(), Error>)
    ensures
        match r {
            Ok(()) => is_absolute_uri(unvalidated@),
            Err(e) => !is_absolute_uri(unvalidated@) && e@ == invalid_link_error(),
        },
{
    if uri_is_absolute(unvalidated) {
        Ok(())
    } else {
        Err(Error::invalid_link())
    }
}

/// The response a successful creation returns: 201 with the fresh row.
pub open spec fn created_response(l: LinkV) -> RespV {
    RespV {
        status: STATUS_CREATED as int,
        body: BodyV::LinkData { link: l },
        www_authenticate: None,
        location: None,
        content_type: None,
        log: None,
    }
}

/// The bare 204 the mutating handlers return.
pub open spec fn no_content_response() -> RespV {
    RespV {
        status: STATUS_NO_CONTENT as int,
        body: BodyV::Empty,
        www_authenticate: None,
        location: None,
        content_type: None,
        log: None,
    }
}

/// The listing response: 200 with every row, disabled ones included.
pub open spec fn listing_response(links: Seq<LinkV>) -> RespV {
    RespV {
        status: STATUS_OK as int,
        body: BodyV::LinkList { links: links },
        www_authenticate: None,
        location: None,
        content_type: None,
        log: None,
    }
}

/// Create a new link to redirect to. The destination is validated before
/// the row is persisted; a taken name is a conflict and the existing row
/// is untouched.
pub fn create_link(store: &mut LinkStore, new_link: NewLink) -> (r: Result<HttpResponse, Error>)
    requires
        store_wf(old(store)@),
    ensures
        store_wf(final(store)@),
        match r {
            Ok(resp) => is_absolute_uri(new_link.link@) && can_insert(old(store)@, new_link.name@)
                && final(store)@ == insert_effect(old(store)@, new_link.name@, new_link.link@)
                && resp@ == created_response(
                fresh_link(old(store)@, new_link.name@, new_link.link@),
            ),
            Err(e) => final(store)@ == old(store)@ && {
                ||| (!is_absolute_uri(new_link.link@) && e@ == invalid_link_error())
                ||| (is_absolute_uri(new_link.link@) && has_name(old(store)@.links, new_link.name@)
                    && e@ == unique_violation_error())
                ||| (is_absolute_uri(new_link.link@) && !has_name(
                    old(store)@.links,
                    new_link.name@,
                ) && old(store)@.next_id == i32::MAX && e@ == storage_error())
            },
        },
{
    url_is_valid(&new_link.link)?;
    match store.insert(new_link) {
        Ok(link) => Ok(
            HttpResponse {
                status: STATUS_CREATED,
                body: ResponseBody::LinkData { link },
                www_authenticate: None,
                location: None,
                content_type: None,
                log_message: None,
            },
        ),
        Err(e) => Err(Error::from_store(e)),
    }
}

/// Get a list of all links.
pub fn list_links(store: &LinkStore) -> (r: HttpResponse)
    ensures
        r@ == listing_response(store@.links),
{
    HttpResponse {
        status: STATUS_OK,
        body: ResponseBody::LinkList { links: store.list() },
        www_authenticate: None,
        location: None,
        content_type: None,
        log_message: None,
    }
}

/// Update a given link by its id: apply only the present fields of the
/// changeset, after validating a present destination. The usage counter
/// is never altered by an administrative update.
pub fn update_link(store: &mut LinkStore, link_id: i32, changeset: UpdatableLink) -> (r: Result<
    HttpResponse,
    Error,
>)
    requires
        store_wf(old(store)@),
    ensures
        store_wf(final(store)@),
        match r {
            Ok(resp) => (match changeset@.link {
                Some(l) => is_absolute_uri(l),
                None => true,
            }) && has_id(old(store)@.links, link_id as int) && (match changeset@.name {
                Some(n) => !name_taken_by_other(old(store)@.links, n, link_id as int),
                None => true,
            }) && final(store)@ == set_at(
                old(store)@,
                idx_of_id(old(store)@.links, link_id as int),
                apply_changeset(
                    old(store)@.links[idx_of_id(old(store)@.links, link_id as int)],
                    changeset@,
                ),
            ) && resp@ == no_content_response(),
            Err(e) => final(store)@ == old(store)@ && {
                ||| (changeset@.link matches Some(l) && !is_absolute_uri(l) && e@
                    == invalid_link_error())
                ||| ((match changeset@.link {
                    Some(l) => is_absolute_uri(l),
                    None => true,
                }) && !has_id(old(store)@.links, link_id as int) && e@ == not_found_error())
                ||| ((match changeset@.link {
                    Some(l) => is_absolute_uri(l),
                    None => true,
                }) && has_id(old(store)@.links, link_id as int) && (changeset@.name matches Some(
                    n,
                ) && name_taken_by_other(old(store)@.links, n, link_id as int)) && e@
                    == unique_violation_error())
            },
        },
{
    if let Some(l) = &changeset.link {
        url_is_valid(l)?;
    }
    match store.update(link_id, changeset) {
        Ok(()) => Ok(
            HttpResponse {
                status: STATUS_NO_CONTENT,
                body: ResponseBody::Empty,
                www_authenticate: None,
                location: None,
                content_type: None,
                log_message: None,
            },
        ),
        Err(e) => Err(Error::from_store(e)),
    }
}

/// Delete a given link by its id; a missing row surfaces as the
/// taxonomy's not-found, never as a server failure.
pub fn delete_link(store: &mut LinkStore, link_id: i32) -> (r: Result<HttpResponse, Error>)
    requires
        store_wf(old(store)@),
    ensures
        store_wf(final(store)@),
        match r {
            Ok(resp) => has_id(old(store)@.links, link_id as int) && final(store)@ == remove_at(
                old(store)@,
                idx_of_id(old(store)@.links, link_id as int),
            ) && resp@ == no_content_response(),
            Err(e) => !has_id(old(store)@.links, link_id as int) && final(store)@ == old(store)@
                && e@ == not_found_error(),
        },
{
    match store.delete(link_id) {
        Ok(()) => Ok(
            HttpResponse {
                status: STATUS_NO_CONTENT,
                body: ResponseBody::Empty,
                www_authenticate: None,
                location: None,
                content_type: None,
                log_message: None,
            },
        ),
        Err(e) => Err(Error::from_store(e)),
    }
}

} // verus!
