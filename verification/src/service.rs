//! The reservation service and the generic signup recorder: validation,
//! the uniqueness check against the store, and the dual-key write.

use vstd::prelude::*;
use crate::json::{
    build_record_json, json_quote, json_quote_opt, json_str, opt_json, record_json,
};
use crate::store::KvStore;
use crate::text::{chars_of, lower, to_lower};
use crate::validate::{check_charset, check_length, valid_charset, valid_identifier, valid_length};

verus! {

/// A submission asking to reserve an identity name.
pub struct NowPubSignup {
    pub subdomain: String,
    pub email: String,
    pub pubkey: Option<String>,
}

/// A waitlist submission.
pub struct WotRocksSignup {
    pub email: String,
    pub name: Option<String>,
    pub use_case: Option<String>,
}

/// An SDK early-access submission.
pub struct WotTechnologySignup {
    pub email: String,
    pub github_username: Option<String>,
    pub interest: Option<String>,
}

/// Why a reservation was refused.
#[derive(Clone, Copy, Debug, PartialEq, Eq, Structural)]
pub enum ReserveError {
    /// The identifier's length is outside the accepted range.
    InvalidLength,
    /// The identifier holds a character outside the accepted charset.
    InvalidCharset,
    /// The identifier is already reserved, in some case variant.
    AlreadyReserved,
}

/// The forward key a reservation is stored under.
pub open spec fn forward_key(subdomain: Seq<char>) -> Seq<char> {
    "nowpub:subdomain:"@ + lower(subdomain)
}

/// The reverse key mapping the reserving e-mail to its identifier.
pub open spec fn reverse_key(email: Seq<char>) -> Seq<char> {
    "nowpub:email:"@ + lower(email)
}

/// The submitted reservation payload as a JSON value.
pub open spec fn now_pub_data_json(s: NowPubSignup) -> Seq<char> {
    "{\"subdomain\":"@ + json_str(s.subdomain@) + ",\"email\":"@ + json_str(s.email@)
        + ",\"pubkey\":"@ + opt_json(s.pubkey) + "}"@
}

/// The full record a reservation persists under its forward key.
pub open spec fn now_pub_record(s: NowPubSignup, timestamp: Seq<char>) -> Seq<char> {
    record_json("now.pub"@, s.email@, timestamp, now_pub_data_json(s))
}

/// The confirmation message a successful reservation returns.
pub open spec fn reserve_message(subdomain: Seq<char>) -> Seq<char> {
    subdomain + ".now.pub has been reserved!"@
}

/// What `reserve` returns, as a function of the store contents and the
/// submission: the first failed validation step, a conflict, or the
/// confirmation message.
pub open spec fn reserve_result(m: Map<Seq<char>, Seq<char>>, s: NowPubSignup) -> Result<
    Seq<char>,
    ReserveError,
> {
    if !valid_length(s.subdomain@) {
        Result::Err(ReserveError::InvalidLength)
    } else if !valid_charset(s.subdomain@) {
        Result::Err(ReserveError::InvalidCharset)
    } else if m.contains_key(forward_key(s.subdomain@)) {
        Result::Err(ReserveError::AlreadyReserved)
    } else {
        Result::Ok(reserve_message(s.subdomain@))
    }
}

/// The store contents after `reserve`: both keys written on success, nothing
/// touched on failure.
pub open spec fn reserve_map(
    m: Map<Seq<char>, Seq<char>>,
    s: NowPubSignup,
    timestamp: Seq<char>,
) -> Map<Seq<char>, Seq<char>> {
    if reserve_result(m, s) is Ok {
        m.insert(forward_key(s.subdomain@), now_pub_record(s, timestamp)).insert(
            reverse_key(s.email@),
            s.subdomain@,
        )
    } else {
        m
    }
}

/// Runs the validation steps on a requested identifier, in order, returning
/// the first failure.
pub fn validate_identifier_checks(subdomain: &str) -> (r: Option<ReserveError>)
    ensures
        match r {
            Option::Some(e) => (e == ReserveError::InvalidLength && !valid_length(subdomain@)) || (
            e == ReserveError::InvalidCharset && valid_length(subdomain@) && !valid_charset(
                subdomain@,
            )),
            Option::None => valid_identifier(subdomain@),
        },
{
    let cs = chars_of(subdomain);
    if !check_length(&cs) {
        Option::Some(ReserveError::InvalidLength)
    } else if !check_charset(&cs) {
        Option::Some(ReserveError::InvalidCharset)
    } else {
        Option::None
    }
}

/// Builds the forward key of a requested identifier.
pub fn forward_key_of(subdomain: &str) -> (r: String)
    ensures
        r@ == forward_key(subdomain@),
{
    let lowered = to_lower(subdomain);
    let mut key = String::from_str("nowpub:subdomain:");
    key.append(lowered.as_str());
    key
}

/// Builds the reverse key of a reserving e-mail.
pub fn reverse_key_of(email: &str) -> (r: String)
    ensures
        r@ == reverse_key(email@),
{
    let lowered = to_lower(email);
    let mut key = String::from_str("nowpub:email:");
    key.append(lowered.as_str());
    key
}

/// Builds the key a generic signup is recorded under.
pub fn record_key_of(prefix: &str, email: &str) -> (r: String)
    ensures
        r@ == record_store_key(prefix@, email@),
{
    let lowered = to_lower(email);
    let mut key = String::from_str(prefix);
    key.append(":email:");
    key.append(lowered.as_str());
    key
}

/// Builds the confirmation message of a successful reservation.
pub fn reserve_message_of(subdomain: &str) -> (r: String)
    ensures
        r@ == reserve_message(subdomain@),
{
    let mut msg = String::from_str(subdomain);
    msg.append(".now.pub has been reserved!");
    msg
}

/// Builds the submitted reservation payload as a JSON value.
pub fn build_now_pub_data(s: &NowPubSignup) -> (r: String)
    ensures
        r@ == now_pub_data_json(*s),
{
    let mut out = String::from_str("{\"subdomain\":");
    let q_sub = json_quote(s.subdomain.as_str());
    out.append(q_sub.as_str());
    out.append(",\"email\":");
    let q_email = json_quote(s.email.as_str());
    out.append(q_email.as_str());
    out.append(",\"pubkey\":");
    let q_pk = json_quote_opt(&s.pubkey);
    out.append(q_pk.as_str());
    out.append("}");
    out
}

/// Validates the requested identifier, checks uniqueness against the store,
/// and reserves it by writing the forward and the reverse key.
///
/// Validation short-circuits on the first failure, and a failed call leaves
/// the store untouched. Exclusive access to the store makes the uniqueness
/// check and the two writes one atomic step here; handlers sharing a remote
/// store without a conditional-write primitive get no such exclusivity, and
/// there the first-writer-wins invariant is only advisory.
pub fn reserve(store: &mut KvStore, signup: &NowPubSignup, timestamp: &str) -> (r: Result<
    String,
    ReserveError,
>)
    requires
        old(store).wf(),
    ensures
        final(store).wf(),
        final(store)@ == reserve_map(old(store)@, *signup, timestamp@),
        match r {
            Result::Ok(msg) => reserve_result(old(store)@, *signup) == Result::<
                Seq<char>,
                ReserveError,
            >::Ok(msg@),
            Result::Err(e) => reserve_result(old(store)@, *signup) == Result::<
                Seq<char>,
                ReserveError,
            >::Err(e),
        },
{
    match validate_identifier_checks(signup.subdomain.as_str()) {
        Option::Some(e) => {
            return Result::Err(e);
        },
        Option::None => {},
    }
    let key = forward_key_of(signup.subdomain.as_str());
    if store.get(key.as_str()).is_some() {
        return Result::Err(ReserveError::AlreadyReserved);
    }
    let data = build_now_pub_data(signup);
    let record = build_record_json("now.pub", signup.email.as_str(), timestamp, data.as_str());
    store.put(key.as_str(), record.as_str());
    let email_key = reverse_key_of(signup.email.as_str());
    store.put(email_key.as_str(), signup.subdomain.as_str());
    Result::Ok(reserve_message_of(signup.subdomain.as_str()))
}

/// The key a generic signup is recorded under.
pub open spec fn record_store_key(prefix: Seq<char>, email: Seq<char>) -> Seq<char> {
    prefix + ":email:"@ + lower(email)
}

/// Records a signup under its source prefix, keyed by the lower-cased
/// e-mail, unconditionally overwriting any prior record for that e-mail.
pub fn record(store: &mut KvStore, prefix: &str, source: &str, email: &str, timestamp: &str, data_json: &str)
    requires
        old(store).wf(),
    ensures
        final(store).wf(),
        final(store)@ == old(store)@.insert(
            record_store_key(prefix@, email@),
            record_json(source@, email@, timestamp@, data_json@),
        ),
{
    let key = record_key_of(prefix, email);
    let value = build_record_json(source, email, timestamp, data_json);
    store.put(key.as_str(), value.as_str());
}

/// The submitted waitlist payload as a JSON value.
pub open spec fn wot_rocks_data_json(s: WotRocksSignup) -> Seq<char> {
    "{\"email\":"@ + json_str(s.email@) + ",\"name\":"@ + opt_json(s.name) + ",\"use_case\":"@
        + opt_json(s.use_case) + "}"@
}

/// The full record a waitlist signup persists.
pub open spec fn wot_rocks_record(s: WotRocksSignup, timestamp: Seq<char>) -> Seq<char> {
    record_json("wot.rocks"@, s.email@, timestamp, wot_rocks_data_json(s))
}

/// Builds the submitted waitlist payload as a JSON value.
pub fn build_wot_rocks_data(s: &WotRocksSignup) -> (r: String)
    ensures
        r@ == wot_rocks_data_json(*s),
{
    let mut out = String::from_str("{\"email\":");
    let q_email = json_quote(s.email.as_str());
    out.append(q_email.as_str());
    out.append(",\"name\":");
    let q_name = json_quote_opt(&s.name);
    out.append(q_name.as_str());
    out.append(",\"use_case\":");
    let q_use = json_quote_opt(&s.use_case);
    out.append(q_use.as_str());
    out.append("}");
    out
}

/// The submitted SDK early-access payload as a JSON value.
pub open spec fn wot_technology_data_json(s: WotTechnologySignup) -> Seq<char> {
    "{\"email\":"@ + json_str(s.email@) + ",\"github_username\":"@ + opt_json(s.github_username)
        + ",\"interest\":"@ + opt_json(s.interest) + "}"@
}

/// The full record an SDK early-access signup persists.
pub open spec fn wot_technology_record(s: WotTechnologySignup, timestamp: Seq<char>) -> Seq<char> {
    record_json("wot.technology"@, s.email@, timestamp, wot_technology_data_json(s))
}

/// Builds the submitted SDK early-access payload as a JSON value.
pub fn build_wot_technology_data(s: &WotTechnologySignup) -> (r: String)
    ensures
        r@ == wot_technology_data_json(*s),
{
    let mut out = String::from_str("{\"email\":");
    let q_email = json_quote(s.email.as_str());
    out.append(q_email.as_str());
    out.append(",\"github_username\":");
    let q_gh = json_quote_opt(&s.github_username);
    out.append(q_gh.as_str());
    out.append(",\"interest\":");
    let q_int = json_quote_opt(&s.interest);
    out.append(q_int.as_str());
    out.append("}");
    out
}

} // verus!
