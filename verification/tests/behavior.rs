use form_worker::http::{
    cors_headers, handle_list_signups, handle_now_pub_signup, handle_wot_rocks_signup,
    handle_wot_technology_signup, handle_root, handle_health, origin_is_allowed, route, Method,
    Route,
};
use form_worker::service::{reserve, record, NowPubSignup, ReserveError, WotRocksSignup,
    WotTechnologySignup};
use form_worker::store::KvStore;
use form_worker::text::to_lower;

fn now_pub(subdomain: &str, email: &str) -> NowPubSignup {
    NowPubSignup {
        subdomain: String::from(subdomain),
        email: String::from(email),
        pubkey: None,
    }
}

#[test]
fn length_too_short_is_rejected_without_write() {
    let mut store = KvStore::new();
    let r = reserve(&mut store, &now_pub("ab", "x@y.com"), "t0");
    assert_eq!(r, Err(ReserveError::InvalidLength));
    assert!(store.get("nowpub:subdomain:ab").is_none());
    assert!(store.get("nowpub:email:x@y.com").is_none());
}

#[test]
fn length_too_long_is_rejected() {
    let mut store = KvStore::new();
    let long = "a".repeat(31);
    let r = reserve(&mut store, &now_pub(&long, "x@y.com"), "t0");
    assert_eq!(r, Err(ReserveError::InvalidLength));
}

#[test]
fn length_bounds_are_inclusive() {
    let mut store = KvStore::new();
    let r3 = reserve(&mut store, &now_pub("abc", "a@y.com"), "t0");
    assert!(r3.is_ok());
    let max = "b".repeat(30);
    let r30 = reserve(&mut store, &now_pub(&max, "b@y.com"), "t0");
    assert!(r30.is_ok());
}

#[test]
fn charset_violation_is_rejected_without_write() {
    let mut store = KvStore::new();
    let r = reserve(&mut store, &now_pub("ab!c", "x@y.com"), "t0");
    assert_eq!(r, Err(ReserveError::InvalidCharset));
    assert!(store.get("nowpub:subdomain:ab!c").is_none());
}

#[test]
fn non_ascii_letter_is_outside_charset() {
    let mut store = KvStore::new();
    let r = reserve(&mut store, &now_pub("caf\u{e9}", "x@y.com"), "t0");
    assert_eq!(r, Err(ReserveError::InvalidCharset));
}

#[test]
fn hyphens_are_accepted() {
    let mut store = KvStore::new();
    let r = reserve(&mut store, &now_pub("a-b-c", "x@y.com"), "t0");
    assert_eq!(r, Ok(String::from("a-b-c.now.pub has been reserved!")));
}

#[test]
fn rejection_is_idempotent() {
    let mut store = KvStore::new();
    let r1 = reserve(&mut store, &now_pub("ab", "x@y.com"), "t0");
    let r2 = reserve(&mut store, &now_pub("ab", "x@y.com"), "t1");
    assert_eq!(r1, r2);
    let (code, body) = handle_list_signups(&store, "now-pub");
    assert_eq!(code, 200);
    assert_eq!(body, "[]");
}

#[test]
fn uniqueness_is_case_insensitive() {
    let mut store = KvStore::new();
    let r1 = reserve(&mut store, &now_pub("alice", "e1@x.com"), "t0");
    assert!(r1.is_ok());
    let r2 = reserve(&mut store, &now_pub("Alice", "e2@x.com"), "t1");
    assert_eq!(r2, Err(ReserveError::AlreadyReserved));
    let r3 = reserve(&mut store, &now_pub("ALICE", "e3@x.com"), "t2");
    assert_eq!(r3, Err(ReserveError::AlreadyReserved));
}

#[test]
fn reservation_round_trip() {
    let mut store = KvStore::new();
    let r = reserve(&mut store, &now_pub("Alice", "E1@x.com"), "ts1");
    assert!(r.is_ok());
    let record = store.get("nowpub:subdomain:alice").expect("forward key written");
    assert_eq!(
        record.as_str(),
        "{\"source\":\"now.pub\",\"email\":\"E1@x.com\",\"timestamp\":\"ts1\",\"data\":{\"subdomain\":\"Alice\",\"email\":\"E1@x.com\",\"pubkey\":null}}",
    );
    let reverse = store.get("nowpub:email:e1@x.com").expect("reverse key written");
    assert_eq!(reverse.as_str(), "Alice");
}

#[test]
fn pubkey_is_embedded_when_given() {
    let mut store = KvStore::new();
    let signup = NowPubSignup {
        subdomain: String::from("bob"),
        email: String::from("b@x.com"),
        pubkey: Some(String::from("k1")),
    };
    assert!(reserve(&mut store, &signup, "ts").is_ok());
    let record = store.get("nowpub:subdomain:bob").unwrap();
    assert!(record.contains("\"pubkey\":\"k1\""));
}

#[test]
fn now_pub_scenario_status_codes_and_messages() {
    let mut store = KvStore::new();
    let (c1, b1) = handle_now_pub_signup(&mut store, &now_pub("ab", "x@y.com"), "t");
    assert_eq!(c1, 400);
    assert_eq!(
        b1,
        "{\"success\":false,\"message\":\"Subdomain must be 3-30 characters\"}"
    );
    let (c2, b2) = handle_now_pub_signup(&mut store, &now_pub("abc", "x@y.com"), "t");
    assert_eq!(c2, 200);
    assert_eq!(
        b2,
        "{\"success\":true,\"message\":\"abc.now.pub has been reserved!\"}"
    );
    let (c3, b3) = handle_now_pub_signup(&mut store, &now_pub("abc", "x@y.com"), "t");
    assert_eq!(c3, 409);
    assert_eq!(
        b3,
        "{\"success\":false,\"message\":\"This subdomain is already reserved\"}"
    );
    let (c4, b4) = handle_now_pub_signup(&mut store, &now_pub("a_b", "x@y.com"), "t");
    assert_eq!(c4, 400);
    assert_eq!(
        b4,
        "{\"success\":false,\"message\":\"Subdomain can only contain letters, numbers, and hyphens\"}"
    );
}

#[test]
fn recorder_overwrites_same_email() {
    let mut store = KvStore::new();
    let s1 = WotRocksSignup {
        email: String::from("W@x.com"),
        name: Some(String::from("first")),
        use_case: None,
    };
    let s2 = WotRocksSignup {
        email: String::from("w@x.com"),
        name: Some(String::from("second")),
        use_case: Some(String::from("fun")),
    };
    let (c1, _) = handle_wot_rocks_signup(&mut store, &s1, "t1");
    assert_eq!(c1, 200);
    let (c2, b2) = handle_wot_rocks_signup(&mut store, &s2, "t2");
    assert_eq!(c2, 200);
    assert_eq!(
        b2,
        "{\"success\":true,\"message\":\"You're on the waitlist! We'll be in touch.\"}"
    );
    let stored = store.get("wotrocks:email:w@x.com").expect("record written");
    assert_eq!(
        stored.as_str(),
        "{\"source\":\"wot.rocks\",\"email\":\"w@x.com\",\"timestamp\":\"t2\",\"data\":{\"email\":\"w@x.com\",\"name\":\"second\",\"use_case\":\"fun\"}}",
    );
}

#[test]
fn wot_technology_record_shape() {
    let mut store = KvStore::new();
    let s = WotTechnologySignup {
        email: String::from("dev@x.com"),
        github_username: Some(String::from("octo")),
        interest: None,
    };
    let (code, body) = handle_wot_technology_signup(&mut store, &s, "t1");
    assert_eq!(code, 200);
    assert_eq!(
        body,
        "{\"success\":true,\"message\":\"You're on the early access list for the SDK!\"}"
    );
    let stored = store.get("wottech:email:dev@x.com").expect("record written");
    assert_eq!(
        stored.as_str(),
        "{\"source\":\"wot.technology\",\"email\":\"dev@x.com\",\"timestamp\":\"t1\",\"data\":{\"email\":\"dev@x.com\",\"github_username\":\"octo\",\"interest\":null}}",
    );
}

#[test]
fn record_escapes_json_metacharacters() {
    let mut store = KvStore::new();
    record(
        &mut store,
        "wotrocks",
        "wot.rocks",
        "a\"b\\c\nd",
        "t",
        "{\"email\":\"quoted\"}",
    );
    let stored = store.get("wotrocks:email:a\"b\\c\nd").expect("record written");
    assert_eq!(
        stored.as_str(),
        "{\"source\":\"wot.rocks\",\"email\":\"a\\\"b\\\\c\\nd\",\"timestamp\":\"t\",\"data\":{\"email\":\"quoted\"}}",
    );
}

#[test]
fn listing_unknown_source_is_refused() {
    let store = KvStore::new();
    let (code, body) = handle_list_signups(&store, "bogus");
    assert_eq!(code, 404);
    assert_eq!(body, "{\"success\":false,\"message\":\"Unknown source\"}");
}

#[test]
fn listing_returns_stored_records() {
    let mut store = KvStore::new();
    let s = WotRocksSignup {
        email: String::from("w@x.com"),
        name: None,
        use_case: None,
    };
    handle_wot_rocks_signup(&mut store, &s, "t1");
    let (code, body) = handle_list_signups(&store, "wot-rocks");
    assert_eq!(code, 200);
    assert_eq!(
        body,
        "[{\"source\":\"wot.rocks\",\"email\":\"w@x.com\",\"timestamp\":\"t1\",\"data\":{\"email\":\"w@x.com\",\"name\":null,\"use_case\":null}}]",
    );
}

#[test]
fn listing_now_pub_fails_on_bare_reverse_value() {
    // The reverse key stores the bare identifier, which is not a JSON
    // document, so listing that source reports an internal error once a
    // reservation exists.
    let mut store = KvStore::new();
    assert!(reserve(&mut store, &now_pub("alice", "e@x.com"), "t").is_ok());
    let (code, body) = handle_list_signups(&store, "now-pub");
    assert_eq!(code, 500);
    assert_eq!(body, "{\"success\":false,\"message\":\"Internal error\"}");
}

#[test]
fn cors_disallowed_origin_gets_no_allow_origin_header() {
    let headers = cors_headers("https://evil.example", "https://a.com,https://b.com");
    assert_eq!(headers.len(), 3);
    assert!(headers.iter().all(|h| h.name != "Access-Control-Allow-Origin"));
    assert_eq!(headers[0].name, "Access-Control-Allow-Methods");
    assert_eq!(headers[0].value, "GET, POST, OPTIONS");
    assert_eq!(headers[1].name, "Access-Control-Allow-Headers");
    assert_eq!(headers[1].value, "Content-Type");
    assert_eq!(headers[2].name, "Access-Control-Max-Age");
    assert_eq!(headers[2].value, "86400");
}

#[test]
fn cors_allowed_origin_is_echoed() {
    let headers = cors_headers("https://a.com", "https://a.com,https://b.com");
    assert_eq!(headers.len(), 4);
    assert_eq!(headers[0].name, "Access-Control-Allow-Origin");
    assert_eq!(headers[0].value, "https://a.com");
}

#[test]
fn cors_entries_are_trimmed_and_wildcard_matches() {
    assert!(origin_is_allowed("https://b.com", " https://a.com , https://b.com "));
    assert!(origin_is_allowed("https://anything.example", "https://a.com, *"));
    assert!(!origin_is_allowed("https://a.com.evil", "https://a.com"));
    assert!(!origin_is_allowed("https://a.com", ""));
}

#[test]
fn lowercasing_is_ascii_only() {
    assert_eq!(to_lower("AbC-9Z"), "abc-9z");
    assert_eq!(to_lower("already"), "already");
}

#[test]
fn routes_are_matched_exactly() {
    assert!(matches!(route(Method::Get, "/"), Route::Root));
    assert!(matches!(route(Method::Get, "/health"), Route::Health));
    assert!(matches!(route(Method::Post, "/api/now-pub/signup"), Route::NowPubSignup));
    assert!(matches!(route(Method::Post, "/api/wot-rocks/signup"), Route::WotRocksSignup));
    assert!(matches!(
        route(Method::Post, "/api/wot-technology/signup"),
        Route::WotTechnologySignup
    ));
    assert!(matches!(route(Method::Options, "/api/now-pub/signup"), Route::Preflight));
    assert!(matches!(route(Method::Get, "/api/now-pub/signup"), Route::NotFound));
    assert!(matches!(route(Method::Post, "/health"), Route::NotFound));
    assert!(matches!(route(Method::Other, "/"), Route::NotFound));
    match route(Method::Get, "/api/signups/now-pub") {
        Route::ListSignups(src) => assert_eq!(src, "now-pub"),
        _ => panic!("expected the listing route"),
    }
    assert!(matches!(route(Method::Get, "/api/signups/"), Route::NotFound));
    assert!(matches!(route(Method::Get, "/api/signups/a/b"), Route::NotFound));
}

#[test]
fn banner_and_health() {
    let (c1, b1) = handle_root();
    assert_eq!(c1, 200);
    assert_eq!(b1, "WoT Form Worker v0.1.0");
    let (c2, b2) = handle_health();
    assert_eq!(c2, 200);
    assert_eq!(b2, "{\"status\":\"healthy\"}");
}

#[test]
fn stored_records_parse_as_json() {
    let mut store = KvStore::new();
    let signup = NowPubSignup {
        subdomain: String::from("abc"),
        email: String::from("q\"uo@x.com"),
        pubkey: Some(String::from("line\nbreak\u{1}")),
    };
    assert!(reserve(&mut store, &signup, "ts").is_ok());
    let stored = store.get("nowpub:subdomain:abc").unwrap();
    let value: serde_json::Value = serde_json::from_str(stored.as_str()).expect("valid JSON");
    assert_eq!(value["email"], serde_json::Value::String(String::from("q\"uo@x.com")));
    assert_eq!(
        value["data"]["pubkey"],
        serde_json::Value::String(String::from("line\nbreak\u{1}"))
    );
    assert_eq!(
        value["data"]["subdomain"],
        serde_json::Value::String(String::from("abc"))
    );
}
