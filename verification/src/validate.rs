//! Validation of requested identifiers: length and charset checks.

use vstd::prelude::*;

verus! {

/// A character the identifier charset admits: ASCII letters, digits, hyphen.
pub open spec fn ident_char(c: char) -> bool {
    ('a' <= c && c <= 'z') || ('A' <= c && c <= 'Z') || ('0' <= c && c <= '9') || c == '-'
}

/// Whether the identifier's length lies in the accepted range.
pub open spec fn valid_length(id: Seq<char>) -> bool {
    3 <= id.len() <= 30
}

/// Whether every character of the identifier is in the accepted charset.
pub open spec fn valid_charset(id: Seq<char>) -> bool {
    forall|i: int| 0 <= i < id.len() ==> ident_char(#[trigger] id[i])
}

/// Whether the identifier passes both validation checks.
pub open spec fn valid_identifier(id: Seq<char>) -> bool {
    valid_length(id) && valid_charset(id)
}

fn ident_char_exec(c: char) -> (r: bool)
    ensures
        r == ident_char(c),
{
    ('a' <= c && c <= 'z') || ('A' <= c && c <= 'Z') || ('0' <= c && c <= '9') || c == '-'
}

/// Whether the identifier's length lies in the accepted range.
pub fn check_length(id: &Vec<char>) -> (r: bool)
    ensures
        r == valid_length(id@),
{
    3 <= id.len() && id.len() <= 30
}

/// Whether every character of the identifier is in the accepted charset.
pub fn check_charset(id: &Vec<char>) -> (r: bool)
    ensures
        r == valid_charset(id@),
{
    let n = id.len();
    let mut i: usize = 0;
    while i < n
        invariant
            i <= n,
            n == id@.len(),
            forall|j: int| 0 <= j < i ==> ident_char(#[trigger] id@[j]),
        decreases n - i,
    {
        if !ident_char_exec(id[i]) {
            return false;
        }
        i += 1;
    }
    true
}

} // verus!
