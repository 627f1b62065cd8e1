//! JSON framing for the records the service persists and the responses it
//! returns: string escaping, quoting, and object assembly, with the produced
//! text pinned down character by character.

use vstd::prelude::*;
use crate::text::{chars_of, string_from_chars};

verus! {

/// The hexadecimal digit for a value below 16, in lower case.
pub open spec fn hex_digit(n: int) -> char {
    if n == 0 {
        '0'
    } else if n == 1 {
        '1'
    } else if n == 2 {
        '2'
    } else if n == 3 {
        '3'
    } else if n == 4 {
        '4'
    } else if n == 5 {
        '5'
    } else if n == 6 {
        '6'
    } else if n == 7 {
        '7'
    } else if n == 8 {
        '8'
    } else if n == 9 {
        '9'
    } else if n == 10 {
        'a'
    } else if n == 11 {
        'b'
    } else if n == 12 {
        'c'
    } else if n == 13 {
        'd'
    } else if n == 14 {
        'e'
    } else {
        'f'
    }
}

/// How one character appears inside a JSON string literal: quote and
/// backslash are escaped, control characters get their short escape or a
/// `\u00XX` escape, and everything else stands as itself.
pub open spec fn escape_char(c: char) -> Seq<char> {
    if c == '"' {
        seq!['\\', '"']
    } else if c == '\\' {
        seq!['\\', '\\']
    } else if c == '\u{8}' {
        seq!['\\', 'b']
    } else if c == '\t' {
        seq!['\\', 't']
    } else if c == '\n' {
        seq!['\\', 'n']
    } else if c == '\u{C}' {
        seq!['\\', 'f']
    } else if c == '\r' {
        seq!['\\', 'r']
    } else if (c as u32) < 32 {
        seq!['\\', 'u', '0', '0', hex_digit((c as u32) as int / 16), hex_digit((c as u32) as int % 16)]
    } else {
        seq![c]
    }
}

/// The body of a JSON string literal holding the given characters.
pub open spec fn escape(s: Seq<char>) -> Seq<char>
    decreases s.len(),
{
    if s.len() == 0 {
        Seq::<char>::empty()
    } else {
        escape(s.drop_last()) + escape_char(s.last())
    }
}

/// The JSON string literal holding the given characters.
pub open spec fn json_str(s: Seq<char>) -> Seq<char> {
    seq!['"'] + escape(s) + seq!['"']
}

/// The JSON form of an optional string field: a string literal or `null`.
pub open spec fn opt_json(o: Option<String>) -> Seq<char> {
    match o {
        Option::None => "null"@,
        Option::Some(s) => json_str(s@),
    }
}

fn hex_digit_exec(n: u32) -> (r: char)
    requires
        n < 16,
    ensures
        r == hex_digit(n as int),
{
    if n == 0 {
        '0'
    } else if n == 1 {
        '1'
    } else if n == 2 {
        '2'
    } else if n == 3 {
        '3'
    } else if n == 4 {
        '4'
    } else if n == 5 {
        '5'
    } else if n == 6 {
        '6'
    } else if n == 7 {
        '7'
    } else if n == 8 {
        '8'
    } else if n == 9 {
        '9'
    } else if n == 10 {
        'a'
    } else if n == 11 {
        'b'
    } else if n == 12 {
        'c'
    } else if n == 13 {
        'd'
    } else if n == 14 {
        'e'
    } else {
        'f'
    }
}

fn push_escaped(out: &mut Vec<char>, c: char)
    ensures
        final(out)@ == old(out)@ + escape_char(c),
{
    if c == '"' {
        out.push('\\');
        out.push('"');
    } else if c == '\\' {
        out.push('\\');
        out.push('\\');
    } else if c == '\u{8}' {
        out.push('\\');
        out.push('b');
    } else if c == '\t' {
        out.push('\\');
        out.push('t');
    } else if c == '\n' {
        out.push('\\');
        out.push('n');
    } else if c == '\u{C}' {
        out.push('\\');
        out.push('f');
    } else if c == '\r' {
        out.push('\\');
        out.push('r');
    } else if (c as u32) < 32 {
        out.push('\\');
        out.push('u');
        out.push('0');
        out.push('0');
        out.push(hex_digit_exec((c as u32) / 16));
        out.push(hex_digit_exec((c as u32) % 16));
    } else {
        out.push(c);
    }
    proof {
        assert(out@ =~= old(out)@ + escape_char(c));
    }
}

/// Builds the JSON string literal holding the characters of `s`.
pub fn json_quote(s: &str) -> (r: String)
    ensures
        r@ == json_str(s@),
{
    let cs = chars_of(s);
    let n = cs.len();
    let mut out: Vec<char> = Vec::new();
    out.push('"');
    proof {
        assert(out@ =~= seq!['"'] + escape(cs@.take(0)));
    }
    let mut i: usize = 0;
    while i < n
        invariant
            i <= n,
            n == cs@.len(),
            cs@ == s@,
            out@ == seq!['"'] + escape(cs@.take(i as int)),
        decreases n - i,
    {
        proof {
            assert(cs@.take(i + 1).drop_last() =~= cs@.take(i as int));
            assert(cs@.take(i + 1).last() == cs@[i as int]);
        }
        push_escaped(&mut out, cs[i]);
        proof {
            assert(out@ =~= seq!['"'] + escape(cs@.take(i + 1)));
        }
        i += 1;
    }
    out.push('"');
    proof {
        assert(cs@.take(n as int) =~= cs@);
        assert(out@ =~= json_str(s@));
    }
    string_from_chars(&out)
}

/// Builds the JSON form of an optional string field.
pub fn json_quote_opt(o: &Option<String>) -> (r: String)
    ensures
        r@ == opt_json(*o),
{
    match o {
        Option::None => String::from_str("null"),
        Option::Some(s) => json_quote(s.as_str()),
    }
}

/// The JSON response body the façade returns: a success flag and a message.
pub open spec fn api_response_json(success: bool, message: Seq<char>) -> Seq<char> {
    "{\"success\":"@ + (if success {
        "true"@
    } else {
        "false"@
    }) + ",\"message\":"@ + json_str(message) + "}"@
}

/// Builds the JSON response body out of a success flag and a message.
pub fn build_api_response(success: bool, message: &str) -> (r: String)
    ensures
        r@ == api_response_json(success, message@),
{
    let mut out = String::from_str("{\"success\":");
    if success {
        out.append("true");
    } else {
        out.append("false");
    }
    out.append(",\"message\":");
    let quoted = json_quote(message);
    out.append(quoted.as_str());
    out.append("}");
    out
}

/// The JSON record persisted for a signup: source tag, e-mail, timestamp, and
/// the submitted payload as a nested JSON value.
pub open spec fn record_json(
    source: Seq<char>,
    email: Seq<char>,
    timestamp: Seq<char>,
    data: Seq<char>,
) -> Seq<char> {
    "{\"source\":"@ + json_str(source) + ",\"email\":"@ + json_str(email) + ",\"timestamp\":"@
        + json_str(timestamp) + ",\"data\":"@ + data + "}"@
}

/// Builds the JSON record persisted for a signup.
pub fn build_record_json(source: &str, email: &str, timestamp: &str, data: &str) -> (r: String)
    ensures
        r@ == record_json(source@, email@, timestamp@, data@),
{
    let mut out = String::from_str("{\"source\":");
    let q_source = json_quote(source);
    out.append(q_source.as_str());
    out.append(",\"email\":");
    let q_email = json_quote(email);
    out.append(q_email.as_str());
    out.append(",\"timestamp\":");
    let q_ts = json_quote(timestamp);
    out.append(q_ts.as_str());
    out.append(",\"data\":");
    out.append(data);
    out.append("}");
    out
}

/// The values joined by commas, in order.
pub open spec fn join_commas(vs: Seq<Seq<char>>) -> Seq<char>
    decreases vs.len(),
{
    if vs.len() == 0 {
        Seq::<char>::empty()
    } else if vs.len() == 1 {
        vs[0]
    } else {
        join_commas(vs.drop_last()) + ","@ + vs.last()
    }
}

/// The JSON array holding the given already-serialized values, in order.
pub open spec fn json_array(vs: Seq<Seq<char>>) -> Seq<char> {
    "["@ + join_commas(vs) + "]"@
}

/// Whether serde_json accepts the text as a well-formed JSON document.
pub uninterp spec fn json_wf(s: Seq<char>) -> bool;

/// Relies on `serde_json::from_str::<serde_json::Value>`: it returns `Ok`
/// exactly on text that parses as a JSON document, which depends on the text
/// alone.
#[verifier::external_body]
pub(crate) fn json_is_wf(s: &str) -> (r: bool)
    ensures
        r == json_wf(s@),
{
    serde_json::from_str::<serde_json::Value>(s).is_ok()
}

} // verus!
