//! The router: an ordered set of route matchers with defined precedence,
//! and the dispatcher that runs one request through the whole pipeline.
//!
//! Precedence, first match wins: the root path; the administrative API
//! and UI paths, both behind the credential gate; then any single
//! segment, which belongs to the redirect resolver; anything else is the
//! generic not-found. The administrative prefixes never fall through to
//! the resolver, so `api` and `ui` are a reserved namespace — a short
//! identifier equal to either is unusable.

use vstd::prelude::*;
use vstd::string::StrSliceExecFns;
use vstd::string::StringExecFns;
use crate::api::create_link;
use crate::api::delete_link;
use crate::api::invalid_link_error;
use crate::api::is_absolute_uri;
use crate::api::list_links;
use crate::api::listing_response;
use crate::api::created_response;
use crate::api::no_content_response;
use crate::api::update_link;
use crate::auth::AuthConfig;
use crate::auth::basic_credentials_of;
use crate::auth::challenge_error;
use crate::auth::check_header;
use crate::auth::credentials_authorized;
use crate::auth::invalid_realm;
use crate::auth::login_realm;
use crate::database::LinkStore;
use crate::database::NewLink;
use crate::database::StoreV;
use crate::database::UpdatableLink;
use crate::database::UpdatableLinkV;
use crate::database::apply_changeset;
use crate::database::bump_at;
use crate::database::fresh_link;
use crate::database::has_id;
use crate::database::has_name;
use crate::database::idx_of_id;
use crate::database::idx_of_name;
use crate::database::insert_effect;
use crate::database::name_taken_by_other;
use crate::database::remove_at;
use crate::database::set_at;
use crate::database::store_wf;
use crate::errors::RejectionV;
use crate::errors::Rejection;
use crate::errors::handle_rejection;
use crate::errors::not_found_error;
use crate::errors::response_of_error;
use crate::errors::response_of_rejection;
use crate::errors::storage_error;
use crate::errors::to_rejection;
use crate::errors::unique_violation_error;
use crate::redirect::corrupt_destination_error;
use crate::redirect::redirect_link;
use crate::redirect::redirect_response;
use crate::redirect::unresolvable;
use crate::response::HttpResponse;
use crate::response::RespV;
use crate::response::ResponseBody;
use crate::response::STATUS_TEMPORARY_REDIRECT;
use crate::ui::AssetStore;
use crate::ui::AssetV;
use crate::ui::assets_wf;
use crate::ui::fallback_path;
use crate::ui::has_asset;
use crate::ui::missing_fallback_error;
use crate::ui::not_found_page;
use crate::ui::served_asset;
use crate::ui::served_fallback;
use crate::ui::serve_arbitrary;
use crate::ui::serve_index;

verus! {

/// The request methods the router distinguishes; anything else can only
/// reach the generic failure paths.
#[derive(PartialEq, Eq, Structural, Clone, Copy)]
pub enum Method {
    Get,
    Post,
    Put,
    Delete,
    Other,
}

/// A decimal digit.
pub open spec fn is_digit(c: char) -> bool {
    '0' <= c && c <= '9'
}

/// Every character is a decimal digit.
pub open spec fn all_digits(s: Seq<char>) -> bool {
    forall|i: int| 0 <= i < s.len() ==> is_digit(#[trigger] s[i])
}

/// The number a digit string denotes.
pub open spec fn digits_value(s: Seq<char>) -> int
    decreases s.len(),
{
    if s.len() == 0 {
        0
    } else {
        digits_value(s.drop_last()) * 10 + (s.last() as int - '0' as int)
    }
}

/// A path segment that names a row identifier: plain decimal digits
/// denoting a value within the identifier type's range.
pub open spec fn is_id_segment(s: Seq<char>) -> bool {
    1 <= s.len() && all_digits(s) && digits_value(s) <= i32::MAX
}

/// A digit string denotes a non-negative number.
proof fn lemma_digits_value_nonneg(s: Seq<char>)
    requires
        all_digits(s),
    ensures
        digits_value(s) >= 0,
    decreases s.len(),
{
    if s.len() > 0 {
        assert(all_digits(s.drop_last()));
        lemma_digits_value_nonneg(s.drop_last());
    }
}

/// Extending a digit string never shrinks its value.
proof fn lemma_digits_value_prefix(s: Seq<char>, i: int)
    requires
        all_digits(s),
        0 <= i <= s.len(),
    ensures
        digits_value(s.subrange(0, i)) <= digits_value(s),
    decreases s.len() - i,
{
    if i < s.len() {
        lemma_digits_value_prefix(s, i + 1);
        let shorter = s.subrange(0, i);
        let longer = s.subrange(0, i + 1);
        assert(longer.drop_last() =~= shorter);
        assert(all_digits(shorter));
        lemma_digits_value_nonneg(shorter);
    } else {
        assert(s.subrange(0, i) =~= s);
    }
}

/// Parse a path segment as a row identifier: decimal digits only, within
/// range; anything else is no identifier.
pub fn parse_id_segment(s: &String) -> (r: Option<i32>)
    ensures
        match r {
            Some(v) => is_id_segment(s@) && v as int == digits_value(s@),
            None => !is_id_segment(s@),
        },
{
    let text = s.as_str();
    let n = text.unicode_len();
    if n == 0 {
        return None;
    }
    let mut idx: usize = 0;
    let mut acc: u64 = 0;
    while idx < n
        invariant
            text@ == s@,
            0 < n == s@.len(),
            idx <= n,
            acc <= i32::MAX,
            all_digits(s@.subrange(0, idx as int)),
            acc as int == digits_value(s@.subrange(0, idx as int)),
        decreases n - idx,
    {
        let c = text.get_char(idx);
        if c < '0' || c > '9' {
            proof {
                assert(!is_digit(s@[idx as int]));
            }
            return None;
        }
        let d: u64 = (c as u32 as u64) - 48;
        acc = acc * 10 + d;
        proof {
            assert(s@.subrange(0, idx as int + 1).drop_last() =~= s@.subrange(0, idx as int));
            assert(s@.subrange(0, idx as int + 1).last() == c);
        }
        if acc > 0x7fff_ffff {
            proof {
                assert(all_digits(s@.subrange(0, idx as int + 1)));
                if all_digits(s@) {
                    lemma_digits_value_prefix(s@, idx as int + 1);
                }
                assert(s@.subrange(0, s@.len() as int) =~= s@);
            }
            return None;
        }
        idx = idx + 1;
    }
    proof {
        assert(s@.subrange(0, s@.len() as int) =~= s@);
    }
    Some(acc as i32)
}

/// Mathematical view of a route decision.
#[verifier::ext_equal]
pub ghost enum RouteMatchV {
    Root,
    ApiCreate,
    ApiList,
    ApiUpdate { id: int },
    ApiDelete { id: int },
    UiIndex,
    UiAsset { path: Seq<char> },
    Redirect { name: Seq<char> },
    NoMatch,
    MethodNotAllowed,
}

/// What the router decided a request is for.
pub enum RouteMatch {
    /// The bare root path.
    Root,
    /// `POST` on the administrative collection.
    ApiCreate,
    /// `GET` on the administrative collection.
    ApiList,
    /// `PUT` on one administrative row.
    ApiUpdate { id: i32 },
    /// `DELETE` on one administrative row.
    ApiDelete { id: i32 },
    /// The UI's index page.
    UiIndex,
    /// One bundled UI file.
    UiAsset { path: String },
    /// A single segment: a short identifier for the resolver.
    Redirect { name: String },
    /// No route matched at all.
    NoMatch,
    /// A route matched the path but not the method.
    MethodNotAllowed,
}

impl View for RouteMatch {
    type V = RouteMatchV;

    open spec fn view(&self) -> RouteMatchV {
        match self {
            RouteMatch::Root => RouteMatchV::Root,
            RouteMatch::ApiCreate => RouteMatchV::ApiCreate,
            RouteMatch::ApiList => RouteMatchV::ApiList,
            RouteMatch::ApiUpdate { id } => RouteMatchV::ApiUpdate { id: *id as int },
            RouteMatch::ApiDelete { id } => RouteMatchV::ApiDelete { id: *id as int },
            RouteMatch::UiIndex => RouteMatchV::UiIndex,
            RouteMatch::UiAsset { path } => RouteMatchV::UiAsset { path: path@ },
            RouteMatch::Redirect { name } => RouteMatchV::Redirect { name: name@ },
            RouteMatch::NoMatch => RouteMatchV::NoMatch,
            RouteMatch::MethodNotAllowed => RouteMatchV::MethodNotAllowed,
        }
    }
}

/// View of a path as a sequence of segment views.
pub open spec fn segments_view(v: Seq<String>) -> Seq<Seq<char>> {
    Seq::new(v.len(), |i: int| v[i]@)
}

/// The route a method and path resolve to, in precedence order: the
/// root; the reserved `api` prefix; the reserved `ui` prefix; one bare
/// segment for the resolver; nothing else matches. A reserved prefix
/// with an unroutable remainder never falls through to the resolver.
pub open spec fn route_spec(m: Method, segs: Seq<Seq<char>>) -> RouteMatchV {
    if segs.len() == 0 {
        if m is Get {
            RouteMatchV::Root
        } else {
            RouteMatchV::MethodNotAllowed
        }
    } else if segs[0] == "api"@ {
        if segs.len() == 1 {
            match m {
                Method::Post => RouteMatchV::ApiCreate,
                Method::Get => RouteMatchV::ApiList,
                _ => RouteMatchV::MethodNotAllowed,
            }
        } else if segs.len() == 2 && is_id_segment(segs[1]) {
            match m {
                Method::Put => RouteMatchV::ApiUpdate { id: digits_value(segs[1]) },
                Method::Delete => RouteMatchV::ApiDelete { id: digits_value(segs[1]) },
                _ => RouteMatchV::MethodNotAllowed,
            }
        } else {
            RouteMatchV::NoMatch
        }
    } else if segs[0] == "ui"@ {
        if segs.len() == 1 {
            if m is Get {
                RouteMatchV::UiIndex
            } else {
                RouteMatchV::MethodNotAllowed
            }
        } else if segs.len() == 2 {
            if m is Get {
                RouteMatchV::UiAsset { path: segs[1] }
            } else {
                RouteMatchV::MethodNotAllowed
            }
        } else {
            RouteMatchV::NoMatch
        }
    } else if segs.len() == 1 {
        if m is Get {
            RouteMatchV::Redirect { name: segs[0] }
        } else {
            RouteMatchV::MethodNotAllowed
        }
    } else {
        RouteMatchV::NoMatch
    }
}

/// Match a method and path against the routing table.
pub fn route(method: &Method, segments: &Vec<String>) -> (r: RouteMatch)
    ensures
        r@ == route_spec(*method, segments_view(segments@)),
{
    if segments.len() == 0 {
        return if matches!(method, Method::Get) {
            RouteMatch::Root
        } else {
            RouteMatch::MethodNotAllowed
        };
    }
    if segments[0] == String::from_str("api") {
        if segments.len() == 1 {
            return match method {
                Method::Post => RouteMatch::ApiCreate,
                Method::Get => RouteMatch::ApiList,
                _ => RouteMatch::MethodNotAllowed,
            };
        }
        if segments.len() == 2 {
            if let Some(id) = parse_id_segment(&segments[1]) {
                return match method {
                    Method::Put => RouteMatch::ApiUpdate { id },
                    Method::Delete => RouteMatch::ApiDelete { id },
                    _ => RouteMatch::MethodNotAllowed,
                };
            }
        }
        return RouteMatch::NoMatch;
    }
    if segments[0] == String::from_str("ui") {
        if segments.len() == 1 {
            return if matches!(method, Method::Get) {
                RouteMatch::UiIndex
            } else {
                RouteMatch::MethodNotAllowed
            };
        }
        if segments.len() == 2 {
            return if matches!(method, Method::Get) {
                RouteMatch::UiAsset { path: segments[1].clone() }
            } else {
                RouteMatch::MethodNotAllowed
            };
        }
        return RouteMatch::NoMatch;
    }
    if segments.len() == 1 {
        if matches!(method, Method::Get) {
            RouteMatch::Redirect { name: segments[0].clone() }
        } else {
            RouteMatch::MethodNotAllowed
        }
    } else {
        RouteMatch::NoMatch
    }
}

/// Mathematical view of the body handed in with a request.
#[verifier::ext_equal]
pub ghost enum BodyInputV {
    Absent,
    Create { name: Seq<char>, link: Seq<char> },
    Update { changeset: UpdatableLinkV },
    TooLarge,
    Malformed { message: Seq<char> },
}

/// The request body, as the transport layer hands it in: already decoded
/// into the expected shape, or the reason it could not be.
pub enum BodyInput {
    /// No body came with the request.
    Absent,
    /// A decoded creation body.
    Create { new_link: NewLink },
    /// A decoded changeset body.
    Update { changeset: UpdatableLink },
    /// The body exceeded the configured size limit.
    TooLarge,
    /// The body did not deserialize; the parse failure is the message.
    Malformed { message: String },
}

impl View for BodyInput {
    type V = BodyInputV;

    open spec fn view(&self) -> BodyInputV {
        match self {
            BodyInput::Absent => BodyInputV::Absent,
            BodyInput::Create { new_link } => BodyInputV::Create {
                name: new_link.name@,
                link: new_link.link@,
            },
            BodyInput::Update { changeset } => BodyInputV::Update { changeset: changeset@ },
            BodyInput::TooLarge => BodyInputV::TooLarge,
            BodyInput::Malformed { message } => BodyInputV::Malformed { message: message@ },
        }
    }
}

/// Mathematical view of the process-wide configuration.
#[verifier::ext_equal]
pub ghost struct ConfigV {
    pub user_id: Seq<char>,
    pub password: Seq<char>,
    pub root_destination: Option<Seq<char>>,
}

/// The configuration handed to every dispatch: the administrative
/// credentials and the optional destination the bare root redirects to.
pub struct AppConfig {
    pub auth: AuthConfig,
    pub root_destination: Option<String>,
}

impl View for AppConfig {
    type V = ConfigV;

    open spec fn view(&self) -> ConfigV {
        ConfigV {
            user_id: self.auth.user_id@,
            password: self.auth.password@,
            root_destination: match self.root_destination {
                Some(d) => Some(d@),
                None => None,
            },
        }
    }
}

/// Mathematical view of one inbound request.
#[verifier::ext_equal]
pub ghost struct ReqV {
    pub method: Method,
    pub segments: Seq<Seq<char>>,
    pub authorization: Option<Seq<char>>,
    pub body: BodyInputV,
}

/// One inbound request, reduced to what the pipeline reads: the method,
/// the path split into segments, the authorization header, and the body.
pub struct Request {
    pub method: Method,
    pub segments: Vec<String>,
    pub authorization: Option<String>,
    pub body: BodyInput,
}

impl View for Request {
    type V = ReqV;

    open spec fn view(&self) -> ReqV {
        ReqV {
            method: self.method,
            segments: segments_view(self.segments@),
            authorization: match self.authorization {
                Some(h) => Some(h@),
                None => None,
            },
            body: self.body@,
        }
    }
}

/// The routes that stand behind the credential gate.
pub open spec fn admin_route(rm: RouteMatchV) -> bool {
    ||| rm is ApiCreate
    ||| rm is ApiList
    ||| rm is ApiUpdate
    ||| rm is ApiDelete
    ||| rm is UiIndex
    ||| rm is UiAsset
}

/// What the credential gate decides for a header under a configuration:
/// no failure, or the exact challenge that comes back.
pub open spec fn gate_outcome(auth: Option<Seq<char>>, c: ConfigV) -> Option<crate::errors::ErrorV> {
    match auth {
        None => Some(challenge_error(login_realm())),
        Some(h) => {
            if credentials_authorized(basic_credentials_of(h), c.user_id, c.password) {
                None
            } else {
                Some(challenge_error(invalid_realm()))
            }
        },
    }
}

/// The message when a route that needs a body got none.
pub open spec fn missing_body_message() -> Seq<char> {
    "missing request body"@
}

/// The creation transition: validate, then insert; the store is
/// untouched on any failure.
pub open spec fn create_spec(s: StoreV, name: Seq<char>, link: Seq<char>) -> (StoreV, RespV) {
    if !is_absolute_uri(link) {
        (s, response_of_error(invalid_link_error()))
    } else if has_name(s.links, name) {
        (s, response_of_error(unique_violation_error()))
    } else if s.next_id >= i32::MAX {
        (s, response_of_error(storage_error()))
    } else {
        (insert_effect(s, name, link), created_response(fresh_link(s, name, link)))
    }
}

/// The update transition: validate a present destination, find the row,
/// refuse a rename onto a taken name, else apply the changeset.
pub open spec fn update_spec(s: StoreV, id: int, c: UpdatableLinkV) -> (StoreV, RespV) {
    if c.link matches Some(l) && !is_absolute_uri(l) {
        (s, response_of_error(invalid_link_error()))
    } else if !has_id(s.links, id) {
        (s, response_of_error(not_found_error()))
    } else if c.name matches Some(n) && name_taken_by_other(s.links, n, id) {
        (s, response_of_error(unique_violation_error()))
    } else {
        (
            set_at(s, idx_of_id(s.links, id), apply_changeset(s.links[idx_of_id(s.links, id)], c)),
            no_content_response(),
        )
    }
}

/// The deletion transition: a missing row is the taxonomy's not-found.
pub open spec fn delete_spec(s: StoreV, id: int) -> (StoreV, RespV) {
    if has_id(s.links, id) {
        (remove_at(s, idx_of_id(s.links, id)), no_content_response())
    } else {
        (s, response_of_error(not_found_error()))
    }
}

/// The response for serving one bundled path.
pub open spec fn serve_spec(a: Seq<AssetV>, path: Seq<char>) -> RespV {
    if has_asset(a, path) {
        served_asset(a, path)
    } else if has_asset(a, fallback_path()) {
        served_fallback(a)
    } else {
        response_of_error(missing_fallback_error())
    }
}

/// The resolver transition: an unresolvable name serves the not-found
/// page and touches nothing; a resolvable one has its counter bumped and
/// redirects, unless its stored destination is corrupt.
pub open spec fn redirect_spec(s: StoreV, a: Seq<AssetV>, name: Seq<char>) -> (StoreV, RespV) {
    if unresolvable(s.links, name) {
        (
            s,
            if has_asset(a, fallback_path()) {
                not_found_page(a)
            } else {
                response_of_error(missing_fallback_error())
            },
        )
    } else {
        let row = s.links[idx_of_name(s.links, name)];
        if is_absolute_uri(row.link) {
            (bump_at(s, idx_of_name(s.links, name)), redirect_response(row.link))
        } else {
            (s, response_of_error(corrupt_destination_error()))
        }
    }
}

/// What a request resolves to once it stands behind no failing gate:
/// the dispatch of one matched route, with every failure resolved
/// through the rejection chain.
pub open spec fn dispatch_spec(
    s: StoreV,
    a: Seq<AssetV>,
    c: ConfigV,
    rm: RouteMatchV,
    body: BodyInputV,
) -> (StoreV, RespV) {
    match rm {
            RouteMatchV::Root => (
                s,
                match c.root_destination {
                    Some(d) => redirect_response(d),
                    None => response_of_rejection(RejectionV::NotFound),
                },
            ),
            RouteMatchV::ApiCreate => match body {
                BodyInputV::Create { name, link } => create_spec(s, name, link),
                BodyInputV::TooLarge => (s, response_of_rejection(RejectionV::PayloadTooLarge)),
                BodyInputV::Malformed { message } => (
                    s,
                    response_of_rejection(RejectionV::BodyDeserialize { message }),
                ),
                _ => (
                    s,
                    response_of_rejection(
                        RejectionV::BodyDeserialize { message: missing_body_message() },
                    ),
                ),
            },
            RouteMatchV::ApiList => (s, listing_response(s.links)),
            RouteMatchV::ApiUpdate { id } => match body {
                BodyInputV::Update { changeset } => update_spec(s, id, changeset),
                BodyInputV::TooLarge => (s, response_of_rejection(RejectionV::PayloadTooLarge)),
                BodyInputV::Malformed { message } => (
                    s,
                    response_of_rejection(RejectionV::BodyDeserialize { message }),
                ),
                _ => (
                    s,
                    response_of_rejection(
                        RejectionV::BodyDeserialize { message: missing_body_message() },
                    ),
                ),
            },
            RouteMatchV::ApiDelete { id } => delete_spec(s, id),
            RouteMatchV::UiIndex => (s, serve_spec(a, "index.html"@)),
            RouteMatchV::UiAsset { path } => (s, serve_spec(a, path)),
            RouteMatchV::Redirect { name } => redirect_spec(s, a, name),
            RouteMatchV::NoMatch => (s, response_of_rejection(RejectionV::NotFound)),
            RouteMatchV::MethodNotAllowed => (
                s,
                response_of_rejection(RejectionV::MethodNotAllowed),
            ),
    }
}

/// The whole pipeline as one transition: route, gate the administrative
/// routes, dispatch, and resolve every failure through the rejection
/// chain. The first component is the store afterwards, the second the
/// response.
pub open spec fn handle_spec(s: StoreV, a: Seq<AssetV>, c: ConfigV, req: ReqV) -> (StoreV, RespV) {
    let rm = route_spec(req.method, req.segments);
    if admin_route(rm) && gate_outcome(req.authorization, c) is Some {
        (s, response_of_error(gate_outcome(req.authorization, c)->Some_0))
    } else {
        dispatch_spec(s, a, c, rm, req.body)
    }
}

/// Run one request through the pipeline: match it to at most one
/// handler, demand authorization first on the administrative routes, and
/// convert any failure through the rejection chain. Requests are
/// independent: nothing outlives the call but the store.
pub fn handle_request(
    store: &mut LinkStore,
    assets: &AssetStore,
    config: &AppConfig,
    request: Request,
) -> (r: HttpResponse)
    requires
        store_wf(old(store)@),
        assets_wf(assets@),
    ensures
        store_wf(final(store)@),
        final(store)@ == handle_spec(old(store)@, assets@, config@, request@).0,
        r@ == handle_spec(old(store)@, assets@, config@, request@).1,
{
    let ghost reqv = request@;
    let rm = route(&request.method, &request.segments);
    let is_admin = matches!(
        rm,
        RouteMatch::ApiCreate | RouteMatch::ApiList | RouteMatch::ApiUpdate { .. }
            | RouteMatch::ApiDelete { .. } | RouteMatch::UiIndex | RouteMatch::UiAsset { .. }
    );
    proof {
        assert(is_admin == admin_route(rm@));
    }
    if is_admin {
        if let Err(e) = check_header(&request.authorization, &config.auth) {
            return handle_rejection(to_rejection(e));
        }
    }
    match rm {
        RouteMatch::Root => match &config.root_destination {
            Some(d) => HttpResponse {
                status: STATUS_TEMPORARY_REDIRECT,
                body: ResponseBody::Empty,
                www_authenticate: None,
                location: Some(d.clone()),
                content_type: None,
                log_message: None,
            },
            None => handle_rejection(Rejection::NotFound),
        },
        RouteMatch::ApiCreate => match request.body {
            BodyInput::Create { new_link } => match create_link(store, new_link) {
                Ok(resp) => resp,
                Err(e) => handle_rejection(to_rejection(e)),
            },
            BodyInput::TooLarge => handle_rejection(Rejection::PayloadTooLarge),
            BodyInput::Malformed { message } => handle_rejection(
                Rejection::BodyDeserialize { message },
            ),
            _ => handle_rejection(
                Rejection::BodyDeserialize { message: String::from_str("missing request body") },
            ),
        },
        RouteMatch::ApiList => list_links(store),
        RouteMatch::ApiUpdate { id } => match request.body {
            BodyInput::Update { changeset } => match update_link(store, id, changeset) {
                Ok(resp) => resp,
                Err(e) => handle_rejection(to_rejection(e)),
            },
            BodyInput::TooLarge => handle_rejection(Rejection::PayloadTooLarge),
            BodyInput::Malformed { message } => handle_rejection(
                Rejection::BodyDeserialize { message },
            ),
            _ => handle_rejection(
                Rejection::BodyDeserialize { message: String::from_str("missing request body") },
            ),
        },
        RouteMatch::ApiDelete { id } => match delete_link(store, id) {
            Ok(resp) => resp,
            Err(e) => handle_rejection(to_rejection(e)),
        },
        RouteMatch::UiIndex => match serve_index(assets) {
            Ok(resp) => resp,
            Err(e) => handle_rejection(to_rejection(e)),
        },
        RouteMatch::UiAsset { path } => match serve_arbitrary(assets, &path) {
            Ok(resp) => resp,
            Err(e) => handle_rejection(to_rejection(e)),
        },
        RouteMatch::Redirect { name } => match redirect_link(store, assets, &name) {
            Ok(resp) => resp,
            Err(e) => handle_rejection(to_rejection(e)),
        },
        RouteMatch::NoMatch => handle_rejection(Rejection::NotFound),
        RouteMatch::MethodNotAllowed => handle_rejection(Rejection::MethodNotAllowed),
    }
}

} // verus!
