use link_shortener::auth::AuthConfig;
use link_shortener::database::LinkStore;
use link_shortener::response::{HttpResponse, ResponseBody};
use link_shortener::router::{handle_request, AppConfig, BodyInput, Method, Request};
use link_shortener::database::{NewLink, UpdatableLink};
use link_shortener::ui::AssetStore;

fn config() -> AppConfig {
    AppConfig {
        auth: AuthConfig {
            user_id: String::from("admin"),
            password: String::from("secret"),
        },
        root_destination: None,
    }
}

fn assets() -> AssetStore {
    let mut a = AssetStore::new();
    assert!(a.add(String::from("index.html"), b"<html>home</html>".to_vec()));
    assert!(a.add(String::from("404.html"), b"<html>missing</html>".to_vec()));
    assert!(a.add(String::from("app.css"), b"body {}".to_vec()));
    a
}

fn authorized() -> Option<String> {
    Some(http_auth_basic::Credentials::new("admin", "secret").as_http_header())
}

fn segs(path: &[&str]) -> Vec<String> {
    path.iter().map(|s| String::from(*s)).collect()
}

fn create(store: &mut LinkStore, a: &AssetStore, name: &str, link: &str) -> HttpResponse {
    handle_request(
        store,
        a,
        &config(),
        Request {
            method: Method::Post,
            segments: segs(&["api"]),
            authorization: authorized(),
            body: BodyInput::Create {
                new_link: NewLink {
                    name: String::from(name),
                    link: String::from(link),
                },
            },
        },
    )
}

fn get(store: &mut LinkStore, a: &AssetStore, path: &[&str]) -> HttpResponse {
    handle_request(
        store,
        a,
        &config(),
        Request {
            method: Method::Get,
            segments: segs(path),
            authorization: None,
            body: BodyInput::Absent,
        },
    )
}

fn message_of(resp: &HttpResponse) -> String {
    match &resp.body {
        ResponseBody::Message { message, .. } => message.clone(),
        other => panic!("expected a message body, got {:?}", std::mem::discriminant(other)),
    }
}

#[test]
fn create_then_lookup_enabled_and_unused() {
    let mut store = LinkStore::new();
    let a = assets();
    let resp = create(&mut store, &a, "abc", "https://example.com");
    assert_eq!(resp.status, 201);
    match resp.body {
        ResponseBody::LinkData { link } => {
            assert_eq!(link.id, 1);
            assert_eq!(link.name, "abc");
            assert_eq!(link.link, "https://example.com");
            assert!(link.enabled);
            assert_eq!(link.times_used, 0);
        }
        _ => panic!("expected the fresh row in the body"),
    }
    let found = store.find_by_name(&String::from("abc")).expect("row should exist");
    assert!(found.enabled);
    assert_eq!(found.times_used, 0);
}

#[test]
fn duplicate_name_is_conflict_and_first_row_untouched() {
    let mut store = LinkStore::new();
    let a = assets();
    assert_eq!(create(&mut store, &a, "abc", "https://example.com").status, 201);
    let second = create(&mut store, &a, "abc", "https://elsewhere.example");
    assert_eq!(second.status, 409);
    assert_eq!(message_of(&second), "a field was not unique");
    let rows = store.list();
    assert_eq!(rows.len(), 1);
    assert_eq!(rows[0].link, "https://example.com");
    assert!(rows[0].enabled);
}

#[test]
fn invalid_destination_is_rejected_and_nothing_persisted() {
    let mut store = LinkStore::new();
    let a = assets();
    let resp = create(&mut store, &a, "abc", "not a url");
    assert_eq!(resp.status, 400);
    assert_eq!(message_of(&resp), "the provided link was invalid");
    assert_eq!(store.list().len(), 0);
}

#[test]
fn scheme_less_destination_is_rejected() {
    let mut store = LinkStore::new();
    let a = assets();
    let resp = create(&mut store, &a, "abc", "example.com/path");
    assert_eq!(resp.status, 400);
    assert_eq!(store.list().len(), 0);
}

#[test]
fn redirect_is_temporary_and_counts_usage() {
    let mut store = LinkStore::new();
    let a = assets();
    create(&mut store, &a, "abc", "https://example.com");
    let first = get(&mut store, &a, &["abc"]);
    assert_eq!(first.status, 307);
    assert_eq!(first.location.as_deref(), Some("https://example.com"));
    assert_eq!(store.find_by_name(&String::from("abc")).unwrap().times_used, 1);
    let second = get(&mut store, &a, &["abc"]);
    assert_eq!(second.status, 307);
    assert_eq!(store.find_by_name(&String::from("abc")).unwrap().times_used, 2);
}

#[test]
fn disabled_link_serves_not_found_and_counts_nothing() {
    let mut store = LinkStore::new();
    let a = assets();
    create(&mut store, &a, "abc", "https://example.com");
    let disable = handle_request(
        &mut store,
        &a,
        &config(),
        Request {
            method: Method::Put,
            segments: segs(&["api", "1"]),
            authorization: authorized(),
            body: BodyInput::Update {
                changeset: UpdatableLink {
                    name: None,
                    link: None,
                    enabled: Some(false),
                },
            },
        },
    );
    assert_eq!(disable.status, 204);
    let resp = get(&mut store, &a, &["abc"]);
    assert_eq!(resp.status, 200);
    match &resp.body {
        ResponseBody::Asset { content } => assert_eq!(content, b"<html>missing</html>"),
        _ => panic!("expected the not-found page"),
    }
    assert_eq!(store.find_by_name(&String::from("abc")).unwrap().times_used, 0);
}

#[test]
fn unknown_name_behaves_like_disabled() {
    let mut store = LinkStore::new();
    let a = assets();
    create(&mut store, &a, "abc", "https://example.com");
    let disable = handle_request(
        &mut store,
        &a,
        &config(),
        Request {
            method: Method::Put,
            segments: segs(&["api", "1"]),
            authorization: authorized(),
            body: BodyInput::Update {
                changeset: UpdatableLink {
                    name: None,
                    link: None,
                    enabled: Some(false),
                },
            },
        },
    );
    assert_eq!(disable.status, 204);
    let disabled = get(&mut store, &a, &["abc"]);
    let missing = get(&mut store, &a, &["never-created"]);
    assert_eq!(disabled.status, missing.status);
    match (&disabled.body, &missing.body) {
        (ResponseBody::Asset { content: c1 }, ResponseBody::Asset { content: c2 }) => {
            assert_eq!(c1, c2)
        }
        _ => panic!("both should serve the fallback asset"),
    }
    assert_eq!(store.find_by_name(&String::from("abc")).unwrap().times_used, 0);
}

#[test]
fn many_redirects_lose_no_count() {
    let mut store = LinkStore::new();
    let a = assets();
    create(&mut store, &a, "abc", "https://example.com");
    let n = 25;
    for _ in 0..n {
        assert_eq!(get(&mut store, &a, &["abc"]).status, 307);
    }
    assert_eq!(store.find_by_name(&String::from("abc")).unwrap().times_used, n);
}

#[test]
fn missing_credentials_are_challenged_with_the_realm() {
    let mut store = LinkStore::new();
    let a = assets();
    let resp = handle_request(
        &mut store,
        &a,
        &config(),
        Request {
            method: Method::Get,
            segments: segs(&["api"]),
            authorization: None,
            body: BodyInput::Absent,
        },
    );
    assert_eq!(resp.status, 401);
    assert_eq!(
        resp.www_authenticate.as_deref(),
        Some("Basic realm=\"Login to access the management UI\", charset=\"UTF-8\"")
    );
}

#[test]
fn correct_credentials_reach_the_listing() {
    let mut store = LinkStore::new();
    let a = assets();
    create(&mut store, &a, "abc", "https://example.com");
    let resp = handle_request(
        &mut store,
        &a,
        &config(),
        Request {
            method: Method::Get,
            segments: segs(&["api"]),
            authorization: authorized(),
            body: BodyInput::Absent,
        },
    );
    assert_eq!(resp.status, 200);
    match resp.body {
        ResponseBody::LinkList { links } => assert_eq!(links.len(), 1),
        _ => panic!("expected the listing"),
    }
}

#[test]
fn wrong_credentials_are_challenged_as_invalid() {
    let mut store = LinkStore::new();
    let a = assets();
    let resp = handle_request(
        &mut store,
        &a,
        &config(),
        Request {
            method: Method::Get,
            segments: segs(&["api"]),
            authorization: Some(
                http_auth_basic::Credentials::new("nobody", "wrong").as_http_header(),
            ),
            body: BodyInput::Absent,
        },
    );
    assert_eq!(resp.status, 401);
    assert_eq!(
        resp.www_authenticate.as_deref(),
        Some("Basic realm=\"Invalid username or password\", charset=\"UTF-8\"")
    );
}

#[test]
fn unparseable_header_is_treated_as_invalid_credentials() {
    let mut store = LinkStore::new();
    let a = assets();
    let resp = handle_request(
        &mut store,
        &a,
        &config(),
        Request {
            method: Method::Get,
            segments: segs(&["api"]),
            authorization: Some(String::from("Bearer not-basic-at-all")),
            body: BodyInput::Absent,
        },
    );
    assert_eq!(resp.status, 401);
    assert_eq!(
        resp.www_authenticate.as_deref(),
        Some("Basic realm=\"Invalid username or password\", charset=\"UTF-8\"")
    );
}

#[test]
fn matching_user_id_alone_authorizes() {
    let mut store = LinkStore::new();
    let a = assets();
    let resp = handle_request(
        &mut store,
        &a,
        &config(),
        Request {
            method: Method::Get,
            segments: segs(&["api"]),
            authorization: Some(
                http_auth_basic::Credentials::new("admin", "wrong").as_http_header(),
            ),
            body: BodyInput::Absent,
        },
    );
    assert_eq!(resp.status, 200);
}

#[test]
fn disabling_preserves_name_and_destination() {
    let mut store = LinkStore::new();
    let a = assets();
    create(&mut store, &a, "abc", "https://example.com");
    let resp = handle_request(
        &mut store,
        &a,
        &config(),
        Request {
            method: Method::Put,
            segments: segs(&["api", "1"]),
            authorization: authorized(),
            body: BodyInput::Update {
                changeset: UpdatableLink {
                    name: None,
                    link: None,
                    enabled: Some(false),
                },
            },
        },
    );
    assert_eq!(resp.status, 204);
    let row = store.find_by_name(&String::from("abc")).expect("row remains visible");
    assert_eq!(row.name, "abc");
    assert_eq!(row.link, "https://example.com");
    assert!(!row.enabled);
}

#[test]
fn deleting_a_missing_id_is_not_found() {
    let mut store = LinkStore::new();
    let a = assets();
    let resp = handle_request(
        &mut store,
        &a,
        &config(),
        Request {
            method: Method::Delete,
            segments: segs(&["api", "99"]),
            authorization: authorized(),
            body: BodyInput::Absent,
        },
    );
    assert_eq!(resp.status, 404);
    assert_eq!(message_of(&resp), "not found");
}

#[test]
fn delete_then_redirect_misses() {
    let mut store = LinkStore::new();
    let a = assets();
    create(&mut store, &a, "abc", "https://example.com");
    let resp = handle_request(
        &mut store,
        &a,
        &config(),
        Request {
            method: Method::Delete,
            segments: segs(&["api", "1"]),
            authorization: authorized(),
            body: BodyInput::Absent,
        },
    );
    assert_eq!(resp.status, 204);
    assert_eq!(store.list().len(), 0);
    let miss = get(&mut store, &a, &["abc"]);
    assert_eq!(miss.status, 200);
    match &miss.body {
        ResponseBody::Asset { content } => assert_eq!(content, b"<html>missing</html>"),
        _ => panic!("expected the not-found page"),
    }
}

#[test]
fn oversized_body_is_entity_too_large() {
    let mut store = LinkStore::new();
    let a = assets();
    let resp = handle_request(
        &mut store,
        &a,
        &config(),
        Request {
            method: Method::Post,
            segments: segs(&["api"]),
            authorization: authorized(),
            body: BodyInput::TooLarge,
        },
    );
    assert_eq!(resp.status, 413);
    assert_eq!(message_of(&resp), "payload too large");
}

#[test]
fn malformed_body_is_bad_request_with_the_parse_failure() {
    let mut store = LinkStore::new();
    let a = assets();
    let resp = handle_request(
        &mut store,
        &a,
        &config(),
        Request {
            method: Method::Post,
            segments: segs(&["api"]),
            authorization: authorized(),
            body: BodyInput::Malformed {
                message: String::from("missing field `link`"),
            },
        },
    );
    assert_eq!(resp.status, 400);
    assert_eq!(message_of(&resp), "missing field `link`");
}

#[test]
fn wrong_method_on_a_short_identifier_is_not_allowed() {
    let mut store = LinkStore::new();
    let a = assets();
    create(&mut store, &a, "abc", "https://example.com");
    let resp = handle_request(
        &mut store,
        &a,
        &config(),
        Request {
            method: Method::Post,
            segments: segs(&["abc"]),
            authorization: None,
            body: BodyInput::Absent,
        },
    );
    assert_eq!(resp.status, 405);
    assert_eq!(message_of(&resp), "method not allowed");
}

#[test]
fn multi_segment_paths_match_no_route() {
    let mut store = LinkStore::new();
    let a = assets();
    let resp = get(&mut store, &a, &["one", "two", "three"]);
    assert_eq!(resp.status, 404);
    assert_eq!(message_of(&resp), "not found");
}

#[test]
fn root_redirects_when_configured() {
    let mut store = LinkStore::new();
    let a = assets();
    let mut c = config();
    c.root_destination = Some(String::from("https://example.com/home"));
    let resp = handle_request(
        &mut store,
        &a,
        &c,
        Request {
            method: Method::Get,
            segments: segs(&[]),
            authorization: None,
            body: BodyInput::Absent,
        },
    );
    assert_eq!(resp.status, 307);
    assert_eq!(resp.location.as_deref(), Some("https://example.com/home"));
}

#[test]
fn bare_root_without_destination_is_not_found() {
    let mut store = LinkStore::new();
    let a = assets();
    let resp = get(&mut store, &a, &[]);
    assert_eq!(resp.status, 404);
}

#[test]
fn ui_asset_is_served_with_its_content_type() {
    let mut store = LinkStore::new();
    let a = assets();
    let resp = handle_request(
        &mut store,
        &a,
        &config(),
        Request {
            method: Method::Get,
            segments: segs(&["ui", "app.css"]),
            authorization: authorized(),
            body: BodyInput::Absent,
        },
    );
    assert_eq!(resp.status, 200);
    assert_eq!(resp.content_type.as_deref(), Some("text/css"));
    match &resp.body {
        ResponseBody::Asset { content } => assert_eq!(content, b"body {}"),
        _ => panic!("expected the stylesheet bytes"),
    }
}

#[test]
fn ui_index_is_served_as_html() {
    let mut store = LinkStore::new();
    let a = assets();
    let resp = handle_request(
        &mut store,
        &a,
        &config(),
        Request {
            method: Method::Get,
            segments: segs(&["ui"]),
            authorization: authorized(),
            body: BodyInput::Absent,
        },
    );
    assert_eq!(resp.status, 200);
    assert_eq!(resp.content_type.as_deref(), Some("text/html"));
    match &resp.body {
        ResponseBody::Asset { content } => assert_eq!(content, b"<html>home</html>"),
        _ => panic!("expected the index bytes"),
    }
}

#[test]
fn unknown_ui_path_falls_back() {
    let mut store = LinkStore::new();
    let a = assets();
    let resp = handle_request(
        &mut store,
        &a,
        &config(),
        Request {
            method: Method::Get,
            segments: segs(&["ui", "nothing.js"]),
            authorization: authorized(),
            body: BodyInput::Absent,
        },
    );
    assert_eq!(resp.status, 200);
    assert_eq!(resp.content_type.as_deref(), Some("text/html"));
    match &resp.body {
        ResponseBody::Asset { content } => assert_eq!(content, b"<html>missing</html>"),
        _ => panic!("expected the fallback bytes"),
    }
}

#[test]
fn reserved_prefix_with_junk_never_reaches_the_resolver() {
    let mut store = LinkStore::new();
    let a = assets();
    create(&mut store, &a, "abc", "https://example.com");
    let resp = handle_request(
        &mut store,
        &a,
        &config(),
        Request {
            method: Method::Delete,
            segments: segs(&["api", "abc"]),
            authorization: authorized(),
            body: BodyInput::Absent,
        },
    );
    assert_eq!(resp.status, 404);
    assert_eq!(store.find_by_name(&String::from("abc")).unwrap().times_used, 0);
}

#[test]
fn identifier_segments_hold_the_full_range() {
    let mut store = LinkStore::new();
    let a = assets();
    let at_max = handle_request(
        &mut store,
        &a,
        &config(),
        Request {
            method: Method::Delete,
            segments: segs(&["api", "2147483647"]),
            authorization: authorized(),
            body: BodyInput::Absent,
        },
    );
    assert_eq!(at_max.status, 404);
    assert_eq!(message_of(&at_max), "not found");
    let past_max = handle_request(
        &mut store,
        &a,
        &config(),
        Request {
            method: Method::Delete,
            segments: segs(&["api", "2147483648"]),
            authorization: authorized(),
            body: BodyInput::Absent,
        },
    );
    assert_eq!(past_max.status, 404);
}

#[test]
fn a_bundle_path_cannot_be_added_twice() {
    let mut a = AssetStore::new();
    assert!(a.add(String::from("404.html"), b"first".to_vec()));
    assert!(!a.add(String::from("404.html"), b"second".to_vec()));
}

#[test]
fn a_bundle_without_fallback_gives_a_plain_not_found() {
    let mut store = LinkStore::new();
    let a = AssetStore::new();
    let resp = get(&mut store, &a, &["no-such-name"]);
    assert_eq!(resp.status, 404);
    assert_eq!(message_of(&resp), "not found");
    assert_eq!(
        resp.log_message.as_deref(),
        Some("could not find file '404.html'")
    );
}

#[test]
fn ui_miss_without_fallback_is_plain_not_found_too() {
    let mut store = LinkStore::new();
    let a = AssetStore::new();
    let resp = handle_request(
        &mut store,
        &a,
        &config(),
        Request {
            method: Method::Get,
            segments: segs(&["ui", "gone.txt"]),
            authorization: authorized(),
            body: BodyInput::Absent,
        },
    );
    assert_eq!(resp.status, 404);
    assert_eq!(message_of(&resp), "not found");
}
