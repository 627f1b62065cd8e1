//! Laws of the reservation service and the recorder, proved over the spec
//! functions their contracts are stated with.

use vstd::prelude::*;
use crate::service::{
    forward_key, now_pub_record, record_store_key, reserve_map, reserve_result, reverse_key,
    NowPubSignup, ReserveError,
};
use crate::text::{lower, lower_char};
use crate::validate::{ident_char, valid_charset, valid_identifier};

verus! {

/// Lower-casing keeps a character inside (and outside) the identifier
/// charset.
proof fn lemma_lower_preserves_ident(c: char)
    ensures
        ident_char(c) <==> ident_char(lower_char(c)),
{
    if 'A' <= c && c <= 'Z' {
        let l = ((c as u8) + 32) as char;
        assert('a' <= l && l <= 'z');
    }
}

/// Two strings with the same lower-casing have the same length, and if one
/// is charset-valid, so is the other.
proof fn lemma_lower_eq_charset(a: Seq<char>, b: Seq<char>)
    requires
        lower(a) == lower(b),
        valid_charset(a),
    ensures
        a.len() == b.len(),
        valid_charset(b),
{
    assert(lower(a).len() == a.len());
    assert(lower(b).len() == b.len());
    assert forall|i: int| 0 <= i < b.len() implies ident_char(#[trigger] b[i]) by {
        assert(lower(a)[i] == lower_char(a[i]));
        assert(lower(b)[i] == lower_char(b[i]));
        lemma_lower_preserves_ident(a[i]);
        lemma_lower_preserves_ident(b[i]);
    }
}

/// Law: rejection is idempotent. A reservation with an invalid identifier
/// fails, leaves the store unchanged, and a second call with the same
/// identifier yields the same error against the same store.
pub proof fn lemma_rejection_idempotent(
    m: Map<Seq<char>, Seq<char>>,
    s: NowPubSignup,
    ts1: Seq<char>,
    ts2: Seq<char>,
)
    requires
        !valid_identifier(s.subdomain@),
    ensures
        reserve_result(m, s) is Err,
        reserve_map(m, s, ts1) == m,
        reserve_result(reserve_map(m, s, ts1), s) == reserve_result(m, s),
        reserve_map(reserve_map(m, s, ts1), s, ts2) == m,
{
}

/// Law: uniqueness. Once a reservation succeeds, a reservation of any case
/// variant of the same identifier is refused with a conflict and leaves the
/// store unchanged.
pub proof fn lemma_uniqueness(
    m: Map<Seq<char>, Seq<char>>,
    s1: NowPubSignup,
    s2: NowPubSignup,
    ts1: Seq<char>,
    ts2: Seq<char>,
)
    requires
        reserve_result(m, s1) is Ok,
        lower(s2.subdomain@) == lower(s1.subdomain@),
    ensures
        reserve_result(reserve_map(m, s1, ts1), s2) == Result::<Seq<char>, ReserveError>::Err(
            ReserveError::AlreadyReserved,
        ),
        reserve_map(reserve_map(m, s1, ts1), s2, ts2) == reserve_map(m, s1, ts1),
{
    lemma_lower_eq_charset(s1.subdomain@, s2.subdomain@);
    assert(forward_key(s2.subdomain@) == forward_key(s1.subdomain@));
    assert(reserve_map(m, s1, ts1).contains_key(forward_key(s1.subdomain@)));
}

/// Law: round trip. After a successful reservation, the store maps the
/// forward key of the lower-cased identifier to the record of this very
/// submission — the record embedding the original-case identifier and the
/// submitted e-mail — and the reverse key of the e-mail to the
/// original-case identifier.
pub proof fn lemma_reserve_round_trip(m: Map<Seq<char>, Seq<char>>, s: NowPubSignup, ts: Seq<char>)
    requires
        reserve_result(m, s) is Ok,
    ensures
        reserve_map(m, s, ts).contains_key(forward_key(s.subdomain@)),
        reserve_map(m, s, ts)[forward_key(s.subdomain@)] == now_pub_record(s, ts),
        reserve_map(m, s, ts).contains_key(reverse_key(s.email@)),
        reserve_map(m, s, ts)[reverse_key(s.email@)] == s.subdomain@,
{
    reveal_strlit("nowpub:subdomain:");
    reveal_strlit("nowpub:email:");
    assert(forward_key(s.subdomain@)[7] == 's');
    assert(reverse_key(s.email@)[7] == 'e');
    assert(forward_key(s.subdomain@) != reverse_key(s.email@));
}

/// Law: overwrite. Recording twice for the same source and e-mail leaves
/// only the latest record retrievable under that key.
pub proof fn lemma_record_overwrite(
    m: Map<Seq<char>, Seq<char>>,
    prefix: Seq<char>,
    email: Seq<char>,
    v1: Seq<char>,
    v2: Seq<char>,
)
    ensures
        m.insert(record_store_key(prefix, email), v1).insert(record_store_key(prefix, email), v2)
            == m.insert(record_store_key(prefix, email), v2),
{
    let k = record_store_key(prefix, email);
    assert(m.insert(k, v1).insert(k, v2) =~= m.insert(k, v2));
}

} // verus!
