//! Laws of the pipeline, stated and proved over the same spec functions
//! the handlers' contracts use. Each is a property of every store,
//! bundle, configuration and input its premises allow, not of chosen
//! values.

use vstd::prelude::*;
use crate::api::created_response;
use crate::api::invalid_link_error;
use crate::api::is_absolute_uri;
use crate::api::no_content_response;
use crate::auth::basic_credentials_of;
use crate::auth::challenge_error;
use crate::auth::login_realm;
use crate::database::LinkV;
use crate::database::StoreV;
use crate::database::UpdatableLinkV;
use crate::database::bump_at;
use crate::database::can_insert;
use crate::database::fresh_link;
use crate::database::has_id;
use crate::database::has_name;
use crate::database::id_at;
use crate::database::idx_of_id;
use crate::database::idx_of_name;
use crate::database::name_at;
use crate::database::store_wf;
use crate::errors::basic_challenge_header;
use crate::errors::not_found_error;
use crate::errors::response_of_error;
use crate::errors::unique_violation_error;
use crate::response::STATUS_CONFLICT;
use crate::response::STATUS_NOT_FOUND;
use crate::response::STATUS_UNAUTHORIZED;
use crate::router::ConfigV;
use crate::router::ReqV;
use crate::router::admin_route;
use crate::router::create_spec;
use crate::router::delete_spec;
use crate::router::dispatch_spec;
use crate::router::handle_spec;
use crate::router::route_spec;
use crate::router::redirect_spec;
use crate::router::update_spec;
use crate::redirect::unresolvable;
use crate::ui::AssetV;

verus! {

/// Valid creation resolves by name afterwards: on any well-formed store
/// where the name is free and an identifier is left, creating a link
/// with an absolute destination succeeds with the 201 response carrying
/// the fresh row, and every row the name then finds is enabled and has a
/// usage count of zero.
pub proof fn lemma_create_then_lookup(s: StoreV, name: Seq<char>, link: Seq<char>)
    requires
        store_wf(s),
    ensures
        is_absolute_uri(link) && can_insert(s, name) ==> {
            let (s2, resp) = create_spec(s, name, link);
            &&& resp == created_response(fresh_link(s, name, link))
            &&& has_name(s2.links, name)
            &&& forall|i: int|
                name_at(s2.links, name, i) ==> (#[trigger] s2.links[i]).enabled
                    && s2.links[i].times_used == 0
        },
{
    if is_absolute_uri(link) && can_insert(s, name) {
        let s2 = create_spec(s, name, link).0;
        let n = s.links.len() as int;
        assert(name_at(s2.links, name, n));
        assert forall|i: int| name_at(s2.links, name, i) implies (#[trigger] s2.links[i]).enabled
            && s2.links[i].times_used == 0 by {
            if i < n {
                assert(name_at(s.links, name, i));
            }
        }
    }
}

/// A second creation under a taken name is the 409 conflict, and the
/// first row — indeed the whole store — is unaffected by it.
pub proof fn lemma_duplicate_name_conflict(
    s: StoreV,
    name: Seq<char>,
    link1: Seq<char>,
    link2: Seq<char>,
)
    requires
        store_wf(s),
    ensures
        is_absolute_uri(link1) && is_absolute_uri(link2) && can_insert(s, name) ==> {
            let s1 = create_spec(s, name, link1).0;
            let (s2, resp) = create_spec(s1, name, link2);
            &&& resp == response_of_error(unique_violation_error())
            &&& resp.status == STATUS_CONFLICT as int
            &&& s2 == s1
            &&& s1.links[s.links.len() as int] == fresh_link(s, name, link1)
        },
{
    if is_absolute_uri(link1) && is_absolute_uri(link2) && can_insert(s, name) {
        let s1 = create_spec(s, name, link1).0;
        assert(name_at(s1.links, name, s.links.len() as int));
        assert(has_name(s1.links, name));
    }
}

/// A link whose destination is no absolute URI is rejected with the 400
/// invalid-link error, and no row is persisted.
pub proof fn lemma_invalid_destination_rejected(s: StoreV, name: Seq<char>, link: Seq<char>)
    ensures
        !is_absolute_uri(link) ==> create_spec(s, name, link) == (
            s,
            response_of_error(invalid_link_error()),
        ),
{
}

/// A name without a row and a name with a disabled row are externally
/// indistinguishable to the resolver: the same response comes back, and
/// neither store is touched — no usage counter moves.
pub proof fn lemma_missing_and_disabled_alike(
    s1: StoreV,
    s2: StoreV,
    a: Seq<AssetV>,
    n1: Seq<char>,
    n2: Seq<char>,
)
    requires
        unresolvable(s1.links, n1),
        unresolvable(s2.links, n2),
    ensures
        redirect_spec(s1, a, n1).1 == redirect_spec(s2, a, n2).1,
        redirect_spec(s1, a, n1).0 == s1,
        redirect_spec(s2, a, n2).0 == s2,
{
}

/// The store after `n` successive resolutions of one identifier.
pub open spec fn redirect_n(s: StoreV, a: Seq<AssetV>, name: Seq<char>, n: nat) -> StoreV
    decreases n,
{
    if n == 0 {
        s
    } else {
        redirect_spec(redirect_n(s, a, name, (n - 1) as nat), a, name).0
    }
}

/// No redirect is lost: `n` resolutions of one enabled identifier with a
/// sound destination raise its usage count by exactly `n` — each one is
/// a store-atomic increment — and change nothing else in the store.
pub proof fn lemma_redirects_accumulate(s: StoreV, a: Seq<AssetV>, name: Seq<char>, n: nat)
    requires
        store_wf(s),
    ensures
        ({
            let i = idx_of_name(s.links, name);
            (has_name(s.links, name) && s.links[i].enabled && is_absolute_uri(s.links[i].link)
                && s.links[i].times_used + n <= i32::MAX) ==> {
                let sn = redirect_n(s, a, name, n);
                &&& sn.links.len() == s.links.len()
                &&& sn.next_id == s.next_id
                &&& sn.links[i] == (LinkV { times_used: s.links[i].times_used + n, ..s.links[i] })
                &&& forall|j: int|
                    0 <= j < s.links.len() && j != i ==> #[trigger] sn.links[j] == s.links[j]
            }
        }),
    decreases n,
{
    let i = idx_of_name(s.links, name);
    if has_name(s.links, name) && s.links[i].enabled && is_absolute_uri(s.links[i].link)
        && s.links[i].times_used + n <= i32::MAX {
        assert(name_at(s.links, name, i));
        if n == 0 {
            assert(redirect_n(s, a, name, 0) == s);
            assert(s.links[i] == (LinkV { times_used: s.links[i].times_used + 0, ..s.links[i] }));
        } else {
            lemma_redirects_accumulate(s, a, name, (n - 1) as nat);
            let sp = redirect_n(s, a, name, (n - 1) as nat);
            assert(name_at(sp.links, name, i));
            assert forall|k: int| name_at(sp.links, name, k) implies k == i by {
                if k != i {
                    assert(sp.links[k] == s.links[k]);
                    if k < i {
                        assert(s.links[k].name != s.links[i].name);
                    } else {
                        assert(s.links[i].name != s.links[k].name);
                    }
                }
            }
            assert(idx_of_name(sp.links, name) == i);
            assert(!unresolvable(sp.links, name));
            let sn = redirect_spec(sp, a, name).0;
            assert(sn == bump_at(sp, i));
            assert forall|j: int|
                0 <= j < s.links.len() && j != i implies #[trigger] sn.links[j] == s.links[j] by {
                assert(sn.links[j] == sp.links[j]);
            }
        }
    }
}

/// Increments on distinct rows — and re-orderings of increments on one
/// row — commute: every interleaving of store-atomic `+ 1` operations
/// leaves the same table, which is why no concurrent redirect loses an
/// update.
pub proof fn lemma_bumps_commute(s: StoreV, i: int, j: int)
    requires
        0 <= i < s.links.len(),
        0 <= j < s.links.len(),
    ensures
        bump_at(bump_at(s, i), j) == bump_at(bump_at(s, j), i),
{
    if i != j {
        assert(bump_at(bump_at(s, i), j).links =~= bump_at(bump_at(s, j), i).links);
        assert(bump_at(bump_at(s, i), j) =~= bump_at(bump_at(s, j), i));
    }
}

/// The credential gate decides alone: an administrative request without
/// an authorization header is answered by the 401 challenge naming the
/// login realm — the store untouched — and one whose header carries the
/// configured user id and password is dispatched exactly as if no gate
/// stood there.
pub proof fn lemma_gate_challenges_and_admits(
    s: StoreV,
    a: Seq<AssetV>,
    c: ConfigV,
    req: ReqV,
)
    requires
        admin_route(route_spec(req.method, req.segments)),
    ensures
        req.authorization is None ==> handle_spec(s, a, c, req) == (
            s,
            response_of_error(challenge_error(login_realm())),
        ) && response_of_error(challenge_error(login_realm())).status == STATUS_UNAUTHORIZED as int
            && response_of_error(challenge_error(login_realm())).www_authenticate == Some(
            basic_challenge_header(login_realm()),
        ),
        (req.authorization matches Some(h) && basic_credentials_of(h) == Some(
            (c.user_id, c.password),
        )) ==> handle_spec(s, a, c, req) == dispatch_spec(
            s,
            a,
            c,
            route_spec(req.method, req.segments),
            req.body,
        ),
{
}

/// Disabling alone alters nothing else: a changeset carrying only
/// `enabled = false` turns the row off and keeps its name, destination
/// and usage count, and every other row, exactly as they were.
pub proof fn lemma_disable_only_update(s: StoreV, id: int)
    requires
        store_wf(s),
    ensures
        has_id(s.links, id) ==> {
            let c = UpdatableLinkV { name: None, link: None, enabled: Some(false) };
            let (s2, resp) = update_spec(s, id, c);
            let i = idx_of_id(s.links, id);
            &&& resp == no_content_response()
            &&& s2.links.len() == s.links.len()
            &&& s2.links[i] == (LinkV { enabled: false, ..s.links[i] })
            &&& forall|j: int|
                0 <= j < s.links.len() && j != i ==> #[trigger] s2.links[j] == s.links[j]
        },
{
    if has_id(s.links, id) {
        assert(id_at(s.links, id, idx_of_id(s.links, id)));
    }
}

/// Deleting a row that does not exist is the taxonomy's 404, never a
/// server failure, and the store is untouched.
pub proof fn lemma_delete_missing_is_not_found(s: StoreV, id: int)
    ensures
        !has_id(s.links, id) ==> delete_spec(s, id) == (
            s,
            response_of_error(not_found_error()),
        ) && response_of_error(not_found_error()).status == STATUS_NOT_FOUND as int,
{
}

} // verus!
