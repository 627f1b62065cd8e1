//! The HTTP façade: route matching, CORS header computation, and the
//! per-route handlers that turn an operation's outcome into a status code
//! and a JSON body.

use vstd::prelude::*;
use crate::json::{
    api_response_json, build_api_response, json_array, join_commas, json_is_wf, json_wf,
};
use crate::service::{
    reserve, reserve_map, reserve_result, record, record_store_key, wot_rocks_record,
    wot_technology_record, NowPubSignup, ReserveError, WotRocksSignup, WotTechnologySignup,
};
use crate::store::{listing_of, KvStore};
use crate::text::{
    chars_eq, chars_of, origin_allowed, push_all, string_from_chars, split_commas_chars,
    trim_chars,
};

verus! {

/// The request methods the façade distinguishes.
#[derive(Clone, Copy, Debug, PartialEq, Eq, Structural)]
pub enum Method {
    Get,
    Post,
    Options,
    Other,
}

/// Where a request is dispatched.
pub enum Route {
    /// The banner page.
    Root,
    /// The health check.
    Health,
    /// A CORS preflight request, answered before any store access.
    Preflight,
    /// An identity-name reservation submission.
    NowPubSignup,
    /// A waitlist submission.
    WotRocksSignup,
    /// An SDK early-access submission.
    WotTechnologySignup,
    /// The listing endpoint, with its source route parameter.
    ListSignups(String),
    /// No route matches.
    NotFound,
}

/// One response header.
pub struct Header {
    pub name: String,
    pub value: String,
}

/// Whether two strings hold the same characters.
pub fn str_eq(a: &str, b: &str) -> (r: bool)
    ensures
        r == (a@ == b@),
{
    let ca = chars_of(a);
    let cb = chars_of(b);
    chars_eq(&ca, &cb)
}

/// Whether the path names the listing endpoint: the fixed prefix followed by
/// one non-empty source segment.
pub open spec fn is_list_path(path: Seq<char>) -> bool {
    path.len() > 13 && path.take(13) == "/api/signups/"@ && (forall|i: int|
        13 <= i < path.len() ==> path[i] != '/')
}

/// The source route parameter of a listing path.
pub open spec fn list_source(path: Seq<char>) -> Seq<char> {
    path.skip(13)
}

fn parse_list_path(path: &str) -> (r: Option<String>)
    ensures
        match r {
            Option::Some(src) => is_list_path(path@) && src@ == list_source(path@),
            Option::None => !is_list_path(path@),
        },
{
    proof {
        reveal_strlit("/api/signups/");
    }
    let cs = chars_of(path);
    let prefix = chars_of("/api/signups/");
    let n = cs.len();
    if n <= 13 {
        return Option::None;
    }
    let mut i: usize = 0;
    while i < 13
        invariant
            i <= 13,
            n == cs@.len() > 13,
            cs@ == path@,
            prefix@ == "/api/signups/"@,
            prefix@.len() == 13,
            forall|j: int| 0 <= j < i ==> cs@[j] == prefix@[j],
        decreases 13 - i,
    {
        if cs[i] != prefix[i] {
            proof {
                assert(path@.take(13)[i as int] != "/api/signups/"@[i as int]);
            }
            return Option::None;
        }
        i += 1;
    }
    proof {
        assert(path@.take(13) =~= "/api/signups/"@);
    }
    let mut src: Vec<char> = Vec::new();
    let mut j: usize = 13;
    while j < n
        invariant
            13 <= j <= n,
            n == cs@.len(),
            cs@ == path@,
            src@ == path@.subrange(13, j as int),
            forall|k: int| 13 <= k < j ==> path@[k] != '/',
        decreases n - j,
    {
        if cs[j] == '/' {
            return Option::None;
        }
        src.push(cs[j]);
        proof {
            assert(src@ =~= path@.subrange(13, j + 1));
        }
        j += 1;
    }
    proof {
        assert(src@ =~= list_source(path@));
    }
    Option::Some(string_from_chars(&src))
}

/// Maps a request's method and path to its route.
///
/// A preflight request is answered whatever its path; the remaining routes
/// are matched exactly.
pub fn route(method: Method, path: &str) -> (r: Route)
    ensures
        match r {
            Route::Preflight => method is Options,
            Route::Root => method is Get && path@ == "/"@,
            Route::Health => method is Get && path@ == "/health"@,
            Route::NowPubSignup => method is Post && path@ == "/api/now-pub/signup"@,
            Route::WotRocksSignup => method is Post && path@ == "/api/wot-rocks/signup"@,
            Route::WotTechnologySignup => method is Post && path@ == "/api/wot-technology/signup"@,
            Route::ListSignups(src) => method is Get && is_list_path(path@) && src@ == list_source(
                path@,
            ),
            Route::NotFound => !(method is Options) && !(method is Get && (path@ == "/"@ || path@
                == "/health"@ || is_list_path(path@))) && !(method is Post && (path@
                == "/api/now-pub/signup"@ || path@ == "/api/wot-rocks/signup"@ || path@
                == "/api/wot-technology/signup"@)),
        },
{
    match method {
        Method::Options => Route::Preflight,
        Method::Get => {
            if str_eq(path, "/") {
                Route::Root
            } else if str_eq(path, "/health") {
                Route::Health
            } else {
                match parse_list_path(path) {
                    Option::Some(src) => Route::ListSignups(src),
                    Option::None => Route::NotFound,
                }
            }
        },
        Method::Post => {
            if str_eq(path, "/api/now-pub/signup") {
                Route::NowPubSignup
            } else if str_eq(path, "/api/wot-rocks/signup") {
                Route::WotRocksSignup
            } else if str_eq(path, "/api/wot-technology/signup") {
                Route::WotTechnologySignup
            } else {
                Route::NotFound
            }
        },
        Method::Other => Route::NotFound,
    }
}

/// Computes the CORS headers for a request: the origin is echoed only when
/// the allow-list admits it, and the fixed headers always follow.
pub fn cors_headers(origin: &str, allowed_origins: &str) -> (r: Vec<Header>)
    ensures
        origin_allowed(origin@, allowed_origins@) ==> r@.len() == 4 && r@[0].name@
            == "Access-Control-Allow-Origin"@ && r@[0].value@ == origin@,
        !origin_allowed(origin@, allowed_origins@) ==> r@.len() == 3,
        r@[r@.len() - 3].name@ == "Access-Control-Allow-Methods"@ && r@[r@.len() - 3].value@
            == "GET, POST, OPTIONS"@,
        r@[r@.len() - 2].name@ == "Access-Control-Allow-Headers"@ && r@[r@.len() - 2].value@
            == "Content-Type"@,
        r@[r@.len() - 1].name@ == "Access-Control-Max-Age"@ && r@[r@.len() - 1].value@
            == "86400"@,
{
    let mut r: Vec<Header> = Vec::new();
    if origin_is_allowed(origin, allowed_origins) {
        r.push(
            Header {
                name: String::from_str("Access-Control-Allow-Origin"),
                value: String::from_str(origin),
            },
        );
    }
    r.push(
        Header {
            name: String::from_str("Access-Control-Allow-Methods"),
            value: String::from_str("GET, POST, OPTIONS"),
        },
    );
    r.push(
        Header {
            name: String::from_str("Access-Control-Allow-Headers"),
            value: String::from_str("Content-Type"),
        },
    );
    r.push(
        Header { name: String::from_str("Access-Control-Max-Age"), value: String::from_str("86400") },
    );
    r
}

/// The banner page.
pub fn handle_root() -> (r: (u16, String))
    ensures
        r.0 == 200,
        r.1@ == "WoT Form Worker v0.1.0"@,
{
    (200, String::from_str("WoT Form Worker v0.1.0"))
}

/// The health check.
pub fn handle_health() -> (r: (u16, String))
    ensures
        r.0 == 200,
        r.1@ == "{\"status\":\"healthy\"}"@,
{
    (200, String::from_str("{\"status\":\"healthy\"}"))
}

/// The status code a reservation submission is answered with.
pub open spec fn now_pub_status(m: Map<Seq<char>, Seq<char>>, s: NowPubSignup) -> u16 {
    match reserve_result(m, s) {
        Result::Ok(_) => 200,
        Result::Err(ReserveError::AlreadyReserved) => 409,
        Result::Err(_) => 400,
    }
}

/// The JSON body a reservation submission is answered with.
pub open spec fn now_pub_body(m: Map<Seq<char>, Seq<char>>, s: NowPubSignup) -> Seq<char> {
    match reserve_result(m, s) {
        Result::Ok(msg) => api_response_json(true, msg),
        Result::Err(ReserveError::InvalidLength) => api_response_json(
            false,
            "Subdomain must be 3-30 characters"@,
        ),
        Result::Err(ReserveError::InvalidCharset) => api_response_json(
            false,
            "Subdomain can only contain letters, numbers, and hyphens"@,
        ),
        Result::Err(ReserveError::AlreadyReserved) => api_response_json(
            false,
            "This subdomain is already reserved"@,
        ),
    }
}

/// The status code a refused reservation is answered with.
pub open spec fn reserve_error_status(e: ReserveError) -> u16 {
    match e {
        ReserveError::AlreadyReserved => 409,
        _ => 400,
    }
}

/// The message a refused reservation is answered with.
pub open spec fn reserve_error_message(e: ReserveError) -> Seq<char> {
    match e {
        ReserveError::InvalidLength => "Subdomain must be 3-30 characters"@,
        ReserveError::InvalidCharset => "Subdomain can only contain letters, numbers, and hyphens"@,
        ReserveError::AlreadyReserved => "This subdomain is already reserved"@,
    }
}

/// Builds the response answering a refused reservation.
pub fn now_pub_error_response(e: ReserveError) -> (r: (u16, String))
    ensures
        r.0 == reserve_error_status(e),
        r.1@ == api_response_json(false, reserve_error_message(e)),
{
    match e {
        ReserveError::InvalidLength => (
            400,
            build_api_response(false, "Subdomain must be 3-30 characters"),
        ),
        ReserveError::InvalidCharset => (
            400,
            build_api_response(false, "Subdomain can only contain letters, numbers, and hyphens"),
        ),
        ReserveError::AlreadyReserved => (
            409,
            build_api_response(false, "This subdomain is already reserved"),
        ),
    }
}

/// Builds the response answering an accepted submission.
pub fn success_response(message: &str) -> (r: (u16, String))
    ensures
        r.0 == 200,
        r.1@ == api_response_json(true, message@),
{
    (200, build_api_response(true, message))
}

/// Builds the response answering a waitlist submission.
pub fn wot_rocks_response() -> (r: (u16, String))
    ensures
        r.0 == 200,
        r.1@ == api_response_json(true, "You're on the waitlist! We'll be in touch."@),
{
    success_response("You're on the waitlist! We'll be in touch.")
}

/// Builds the response answering an SDK early-access submission.
pub fn wot_technology_response() -> (r: (u16, String))
    ensures
        r.0 == 200,
        r.1@ == api_response_json(true, "You're on the early access list for the SDK!"@),
{
    success_response("You're on the early access list for the SDK!")
}

/// Builds the response answering a listing request for an unknown source.
pub fn unknown_source_response() -> (r: (u16, String))
    ensures
        r.0 == 404,
        r.1@ == api_response_json(false, "Unknown source"@),
{
    (404, build_api_response(false, "Unknown source"))
}

/// Builds the response answering a request the service cannot complete.
pub fn internal_error_response() -> (r: (u16, String))
    ensures
        r.0 == 500,
        r.1@ == api_response_json(false, "Internal error"@),
{
    (500, build_api_response(false, "Internal error"))
}

/// Answers a reservation submission: runs `reserve` and maps its outcome to
/// a status code and a JSON body.
pub fn handle_now_pub_signup(store: &mut KvStore, signup: &NowPubSignup, timestamp: &str) -> (r: (
    u16,
    String,
))
    requires
        old(store).wf(),
    ensures
        final(store).wf(),
        final(store)@ == reserve_map(old(store)@, *signup, timestamp@),
        r.0 == now_pub_status(old(store)@, *signup),
        r.1@ == now_pub_body(old(store)@, *signup),
{
    match reserve(store, signup, timestamp) {
        Result::Ok(msg) => success_response(msg.as_str()),
        Result::Err(e) => now_pub_error_response(e),
    }
}

/// Answers a waitlist submission: records it and confirms.
pub fn handle_wot_rocks_signup(store: &mut KvStore, signup: &WotRocksSignup, timestamp: &str) -> (r:
    (u16, String))
    requires
        old(store).wf(),
    ensures
        final(store).wf(),
        final(store)@ == old(store)@.insert(
            record_store_key("wotrocks"@, signup.email@),
            wot_rocks_record(*signup, timestamp@),
        ),
        r.0 == 200,
        r.1@ == api_response_json(true, "You're on the waitlist! We'll be in touch."@),
{
    let data = crate::service::build_wot_rocks_data(signup);
    record(store, "wotrocks", "wot.rocks", signup.email.as_str(), timestamp, data.as_str());
    wot_rocks_response()
}

/// Answers an SDK early-access submission: records it and confirms.
pub fn handle_wot_technology_signup(
    store: &mut KvStore,
    signup: &WotTechnologySignup,
    timestamp: &str,
) -> (r: (u16, String))
    requires
        old(store).wf(),
    ensures
        final(store).wf(),
        final(store)@ == old(store)@.insert(
            record_store_key("wottech"@, signup.email@),
            wot_technology_record(*signup, timestamp@),
        ),
        r.0 == 200,
        r.1@ == api_response_json(true, "You're on the early access list for the SDK!"@),
{
    let data = crate::service::build_wot_technology_data(signup);
    record(store, "wottech", "wot.technology", signup.email.as_str(), timestamp, data.as_str());
    wot_technology_response()
}

/// The store prefix a listing source parameter names, if it is known.
pub open spec fn source_prefix_spec(source: Seq<char>) -> Option<Seq<char>> {
    if source == "now-pub"@ {
        Option::Some("nowpub:"@)
    } else if source == "wot-rocks"@ {
        Option::Some("wotrocks:"@)
    } else if source == "wot-technology"@ {
        Option::Some("wottech:"@)
    } else {
        Option::None
    }
}

/// Maps a listing source parameter to its store prefix.
pub fn source_prefix(source: &str) -> (r: Option<String>)
    ensures
        match r {
            Option::Some(p) => source_prefix_spec(source@) == Option::Some(p@),
            Option::None => source_prefix_spec(source@) is None,
        },
{
    if str_eq(source, "now-pub") {
        Option::Some(String::from_str("nowpub:"))
    } else if str_eq(source, "wot-rocks") {
        Option::Some(String::from_str("wotrocks:"))
    } else if str_eq(source, "wot-technology") {
        Option::Some(String::from_str("wottech:"))
    } else {
        Option::None
    }
}

/// The second components of the listed pairs.
pub open spec fn listed_values(ps: Seq<(Seq<char>, Seq<char>)>) -> Seq<Seq<char>> {
    ps.map(|i: int, p: (Seq<char>, Seq<char>)| p.1)
}

/// What the listing endpoint answers for a known source, given some
/// enumeration `ps` of the stored pairs under its prefix: the values as a
/// JSON array when each of them still parses as JSON, and an internal error
/// otherwise.
pub open spec fn listing_outcome(
    m: Map<Seq<char>, Seq<char>>,
    prefix: Seq<char>,
    ps: Seq<(Seq<char>, Seq<char>)>,
    status: u16,
    body: Seq<char>,
) -> bool {
    listing_of(m, prefix, ps) && if (forall|i: int|
        0 <= i < ps.len() ==> json_wf((#[trigger] ps[i]).1)) {
        status == 200 && body == json_array(listed_values(ps))
    } else {
        status == 500 && body == api_response_json(false, "Internal error"@)
    }
}

/// What the listing endpoint answers: a refusal for an unknown source, and
/// the outcome over some enumeration of the stored pairs for a known one.
pub open spec fn list_response(
    m: Map<Seq<char>, Seq<char>>,
    source: Seq<char>,
    status: u16,
    body: Seq<char>,
) -> bool {
    if source_prefix_spec(source) is None {
        status == 404 && body == api_response_json(false, "Unknown source"@)
    } else {
        exists|ps: Seq<(Seq<char>, Seq<char>)>|
            #[trigger] listing_outcome(m, source_prefix_spec(source)->Some_0, ps, status, body)
    }
}

/// Answers the listing endpoint: an unknown source is refused, and for a
/// known one the stored records under its prefix are returned as a JSON
/// array, provided every stored value still parses as JSON.
pub fn handle_list_signups(store: &KvStore, source: &str) -> (r: (u16, String))
    requires
        store.wf(),
    ensures
        list_response(store@, source@, r.0, r.1@),
{
    let prefix = match source_prefix(source) {
        Option::None => {
            let resp = unknown_source_response();
            proof {
                assert(list_response(store@, source@, 404u16, resp.1@));
            }
            return resp;
        },
        Option::Some(p) => p,
    };
    let pairs = store.list_with_prefix(prefix.as_str());
    let ghost ps = pairs@.map(|i: int, p: (String, String)| (p.0@, p.1@));
    proof {
        assert forall|i: int, j: int| 0 <= i < j < ps.len() implies (#[trigger] ps[i]).0 != (
        #[trigger] ps[j]).0 by {
            assert(ps[i].0 == pairs@[i].0@ && ps[j].0 == pairs@[j].0@);
        }
        assert forall|k: Seq<char>|
            store@.contains_key(k) && prefix@.is_prefix_of(k) implies exists|i: int|
            0 <= i < ps.len() && (#[trigger] ps[i]).0 == k by {
            let a = choose|a: int| 0 <= a < pairs@.len() && (#[trigger] pairs@[a]).0@ == k;
            assert(ps[a].0 == k);
        }
        assert(listing_of(store@, prefix@, ps));
    }
    let n = pairs.len();
    let mut body: Vec<char> = Vec::new();
    body.push('[');
    let mut i: usize = 0;
    proof {
        reveal_strlit("[");
        assert(body@ =~= "["@ + join_commas(listed_values(ps).take(0)));
    }
    while i < n
        invariant
            i <= n,
            n == pairs@.len(),
            store.wf(),
            source_prefix_spec(source@) == Option::Some(prefix@),
            ps == pairs@.map(|j: int, p: (String, String)| (p.0@, p.1@)),
            listing_of(store@, prefix@, ps),
            forall|j: int| 0 <= j < i ==> json_wf((#[trigger] ps[j]).1),
            body@ == "["@ + join_commas(listed_values(ps).take(i as int)),
        decreases n - i,
    {
        if !json_is_wf(pairs[i].1.as_str()) {
            let resp = internal_error_response();
            proof {
                assert((ps[i as int]).1 == pairs@[i as int].1@);
                assert(!(forall|j: int| 0 <= j < ps.len() ==> json_wf((#[trigger] ps[j]).1)));
                assert(prefix@ == source_prefix_spec(source@)->Some_0);
                assert(listing_outcome(
                    store@,
                    source_prefix_spec(source@)->Some_0,
                    ps,
                    500u16,
                    resp.1@,
                ));
                assert(list_response(store@, source@, 500u16, resp.1@));
            }
            return resp;
        }
        if i > 0 {
            body.push(',');
        }
        let vc = chars_of(pairs[i].1.as_str());
        push_all(&mut body, &vc);
        proof {
            reveal_strlit(",");
            let vals = listed_values(ps);
            assert(vals[i as int] == pairs@[i as int].1@);
            assert(vals.take(i + 1).drop_last() =~= vals.take(i as int));
            assert(vals.take(i + 1).last() == vals[i as int]);
            if i == 0 {
                assert(join_commas(vals.take(1)) == vals[0]);
                assert(body@ =~= "["@ + join_commas(vals.take(1)));
            } else {
                assert(join_commas(vals.take(i + 1)) == join_commas(vals.take(i as int)) + ","@
                    + vals[i as int]);
                assert(body@ =~= "["@ + join_commas(vals.take(i + 1)));
            }
        }
        i += 1;
    }
    body.push(']');
    proof {
        reveal_strlit("]");
        assert(listed_values(ps).take(n as int) =~= listed_values(ps));
        assert(body@ =~= json_array(listed_values(ps)));
    }
    let out = string_from_chars(&body);
    proof {
        assert(prefix@ == source_prefix_spec(source@)->Some_0);
        assert(listing_outcome(store@, source_prefix_spec(source@)->Some_0, ps, 200u16, out@));
        assert(list_response(store@, source@, 200u16, out@));
    }
    (200, out)
}

/// Whether the allow-list admits the origin: some comma-separated entry,
/// once trimmed, equals the origin or is the wildcard.
pub fn origin_is_allowed(origin: &str, allowed_origins: &str) -> (r: bool)
    ensures
        r == origin_allowed(origin@, allowed_origins@),
{
    proof {
        reveal_strlit("*");
    }
    let origin_chars = chars_of(origin);
    let star = chars_of("*");
    let list_chars = chars_of(allowed_origins);
    let segments = split_commas_chars(&list_chars);
    let n = segments.len();
    let ghost segs = crate::text::split_commas(allowed_origins@);
    let mut i: usize = 0;
    while i < n
        invariant
            i <= n,
            n == segs.len(),
            segs == crate::text::split_commas(allowed_origins@),
            origin_chars@ == origin@,
            star@ == "*"@,
            crate::text::views_of(segments@) == segs,
            forall|j: int|
                0 <= j < i ==> crate::text::trimmed(#[trigger] segs[j]) != origin@
                    && crate::text::trimmed(segs[j]) != "*"@,
        decreases n - i,
    {
        let t = trim_chars(&segments[i]);
        proof {
            assert(segments@[i as int]@ == segs[i as int]);
        }
        if chars_eq(&t, &origin_chars) || chars_eq(&t, &star) {
            proof {
                let ghost w = i as int;
                assert(crate::text::trimmed(
                    crate::text::split_commas(allowed_origins@)[w],
                ) == origin@ || crate::text::trimmed(
                    crate::text::split_commas(allowed_origins@)[w],
                ) == "*"@);
            }
            return true;
        }
        i += 1;
    }
    proof {
        assert(!origin_allowed(origin@, allowed_origins@));
    }
    false
}

} // verus!
