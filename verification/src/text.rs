//! Character-level text utilities: lowercasing, trimming, comma-splitting.
//!
//! All operations work on sequences of characters so that their contracts can
//! be stated exactly over `Seq<char>` views.

use vstd::prelude::*;

verus! {

/// Lower-cases one ASCII letter; leaves every other character alone.
pub open spec fn lower_char(c: char) -> char {
    if 'A' <= c && c <= 'Z' {
        ((c as u8) + 32) as char
    } else {
        c
    }
}

/// Lower-cases the ASCII letters of a string, character by character.
pub open spec fn lower(s: Seq<char>) -> Seq<char> {
    s.map(|i: int, c: char| lower_char(c))
}

/// Whitespace as it appears around entries of a configuration string.
pub open spec fn is_space(c: char) -> bool {
    c == ' ' || c == '\t' || c == '\n' || c == '\r' || c == '\u{B}' || c == '\u{C}'
}

/// The string without its leading whitespace.
pub open spec fn trim_start_s(s: Seq<char>) -> Seq<char>
    decreases s.len(),
{
    if s.len() > 0 && is_space(s[0]) {
        trim_start_s(s.drop_first())
    } else {
        s
    }
}

/// The string without its trailing whitespace.
pub open spec fn trim_end_s(s: Seq<char>) -> Seq<char>
    decreases s.len(),
{
    if s.len() > 0 && is_space(s.last()) {
        trim_end_s(s.drop_last())
    } else {
        s
    }
}

/// The string without leading or trailing whitespace.
pub open spec fn trimmed(s: Seq<char>) -> Seq<char> {
    trim_end_s(trim_start_s(s))
}

/// The segments of a string split at commas; a string with no comma is one
/// segment, and every comma separates two (possibly empty) segments.
pub open spec fn split_commas(s: Seq<char>) -> Seq<Seq<char>>
    decreases s.len(),
{
    if s.len() == 0 {
        seq![Seq::<char>::empty()]
    } else if s.last() == ',' {
        split_commas(s.drop_last()).push(Seq::<char>::empty())
    } else {
        let r = split_commas(s.drop_last());
        r.update(r.len() - 1, r.last().push(s.last()))
    }
}

/// The views of a sequence of character vectors.
pub open spec fn views_of(vs: Seq<Vec<char>>) -> Seq<Seq<char>> {
    vs.map(|i: int, v: Vec<char>| v@)
}

/// Whether an allow-list admits an origin: some comma-separated entry, once
/// trimmed of surrounding whitespace, equals the origin exactly or is the
/// wildcard entry.
pub open spec fn origin_allowed(origin: Seq<char>, allow_list: Seq<char>) -> bool {
    exists|i: int|
        0 <= i < split_commas(allow_list).len() && (trimmed(#[trigger] split_commas(allow_list)[i])
            == origin || trimmed(split_commas(allow_list)[i]) == "*"@)
}

/// The characters of a string, in order.
pub fn chars_of(s: &str) -> (r: Vec<char>)
    ensures
        r@ == s@,
{
    let n = s.unicode_len();
    let mut r: Vec<char> = Vec::new();
    let mut i: usize = 0;
    while i < n
        invariant
            i <= n,
            n == s@.len(),
            r@ == s@.take(i as int),
        decreases n - i,
    {
        r.push(s.get_char(i));
        proof {
            assert(r@ =~= s@.take(i + 1));
        }
        i += 1;
    }
    proof {
        assert(r@ =~= s@);
    }
    r
}

/// Builds a string out of a vector of characters.
///
/// Relies on `String`'s `FromIterator<char>` implementation: collecting an
/// iterator of characters yields a string holding exactly those characters.
#[verifier::external_body]
pub(crate) fn string_from_chars(cs: &Vec<char>) -> (r: String)
    ensures
        r@ == cs@,
{
    cs.iter().collect()
}

/// Whether two character vectors hold the same characters.
pub fn chars_eq(a: &Vec<char>, b: &Vec<char>) -> (r: bool)
    ensures
        r == (a@ == b@),
{
    if a.len() != b.len() {
        proof {
            assert(a@ != b@);
        }
        return false;
    }
    let n = a.len();
    let mut i: usize = 0;
    while i < n
        invariant
            i <= n,
            n == a@.len() == b@.len(),
            forall|j: int| 0 <= j < i ==> a@[j] == b@[j],
        decreases n - i,
    {
        if a[i] != b[i] {
            return false;
        }
        i += 1;
    }
    proof {
        assert(a@ =~= b@);
    }
    true
}

/// Lower-cases the ASCII letters of a character vector.
pub fn lower_chars(cs: &Vec<char>) -> (r: Vec<char>)
    ensures
        r@ == lower(cs@),
{
    let n = cs.len();
    let mut r: Vec<char> = Vec::new();
    let mut i: usize = 0;
    while i < n
        invariant
            i <= n,
            n == cs@.len(),
            r@ == lower(cs@.take(i as int)),
        decreases n - i,
    {
        let c = cs[i];
        if 'A' <= c && c <= 'Z' {
            r.push(((c as u8) + 32) as char);
        } else {
            r.push(c);
        }
        proof {
            assert(r@ =~= lower(cs@.take(i + 1)));
        }
        i += 1;
    }
    proof {
        assert(r@ =~= lower(cs@));
    }
    r
}

/// Lower-cases the ASCII letters of a string.
pub fn to_lower(s: &str) -> (r: String)
    ensures
        r@ == lower(s@),
{
    let cs = chars_of(s);
    let lowered = lower_chars(&cs);
    string_from_chars(&lowered)
}

/// Appends all characters of `cs` to `out`.
pub fn push_all(out: &mut Vec<char>, cs: &Vec<char>)
    ensures
        final(out)@ == old(out)@ + cs@,
{
    let n = cs.len();
    let mut i: usize = 0;
    proof {
        assert(out@ =~= old(out)@ + cs@.take(0));
    }
    while i < n
        invariant
            i <= n,
            n == cs@.len(),
            out@ == old(out)@ + cs@.take(i as int),
        decreases n - i,
    {
        out.push(cs[i]);
        proof {
            assert(out@ =~= old(out)@ + cs@.take(i + 1));
        }
        i += 1;
    }
    proof {
        assert(out@ =~= old(out)@ + cs@);
    }
}

fn is_space_exec(c: char) -> (r: bool)
    ensures
        r == is_space(c),
{
    c == ' ' || c == '\t' || c == '\n' || c == '\r' || c == '\u{B}' || c == '\u{C}'
}

/// Removes leading and trailing whitespace from a character vector.
pub fn trim_chars(cs: &Vec<char>) -> (r: Vec<char>)
    ensures
        r@ == trimmed(cs@),
{
    let n = cs.len();
    let mut lo: usize = 0;
    proof {
        assert(cs@.skip(0) =~= cs@);
    }
    while lo < n && is_space_exec(cs[lo])
        invariant
            lo <= n,
            n == cs@.len(),
            trim_start_s(cs@) == trim_start_s(cs@.skip(lo as int)),
        decreases n - lo,
    {
        proof {
            assert(cs@.skip(lo as int).drop_first() =~= cs@.skip(lo + 1));
        }
        lo += 1;
    }
    proof {
        if lo < n {
            assert(trim_start_s(cs@.skip(lo as int)) == cs@.skip(lo as int));
        } else {
            assert(cs@.skip(lo as int) =~= Seq::<char>::empty());
        }
        assert(trim_start_s(cs@) == cs@.skip(lo as int));
    }
    let mut hi: usize = n;
    while hi > lo && is_space_exec(cs[hi - 1])
        invariant
            lo <= hi <= n,
            n == cs@.len(),
            trim_start_s(cs@) == cs@.skip(lo as int),
            trim_end_s(cs@.subrange(lo as int, n as int)) == trim_end_s(
                cs@.subrange(lo as int, hi as int),
            ),
        decreases hi,
    {
        proof {
            assert(cs@.subrange(lo as int, hi as int).drop_last() =~= cs@.subrange(
                lo as int,
                hi - 1,
            ));
        }
        hi -= 1;
    }
    proof {
        assert(cs@.skip(lo as int) =~= cs@.subrange(lo as int, n as int));
        if hi > lo {
            assert(trim_end_s(cs@.subrange(lo as int, hi as int)) == cs@.subrange(
                lo as int,
                hi as int,
            ));
        } else {
            assert(cs@.subrange(lo as int, hi as int) =~= Seq::<char>::empty());
        }
        assert(trimmed(cs@) == cs@.subrange(lo as int, hi as int));
    }
    let mut r: Vec<char> = Vec::new();
    let mut i: usize = lo;
    while i < hi
        invariant
            lo <= i <= hi <= n,
            n == cs@.len(),
            r@ == cs@.subrange(lo as int, i as int),
        decreases hi - i,
    {
        r.push(cs[i]);
        proof {
            assert(r@ =~= cs@.subrange(lo as int, i + 1));
        }
        i += 1;
    }
    proof {
        assert(r@ == trimmed(cs@));
    }
    r
}

/// Splits a character vector at commas.
pub fn split_commas_chars(cs: &Vec<char>) -> (r: Vec<Vec<char>>)
    ensures
        views_of(r@) == split_commas(cs@),
{
    let n = cs.len();
    let mut r: Vec<Vec<char>> = Vec::new();
    r.push(Vec::new());
    proof {
        assert(views_of(r@) =~= split_commas(cs@.take(0)));
    }
    let mut i: usize = 0;
    while i < n
        invariant
            i <= n,
            n == cs@.len(),
            r@.len() >= 1,
            views_of(r@) == split_commas(cs@.take(i as int)),
        decreases n - i,
    {
        let c = cs[i];
        proof {
            assert(cs@.take(i + 1).drop_last() =~= cs@.take(i as int));
            assert(cs@.take(i + 1).last() == cs@[i as int]);
        }
        if c == ',' {
            r.push(Vec::new());
            proof {
                assert(views_of(r@) =~= split_commas(cs@.take(i as int)).push(
                    Seq::<char>::empty(),
                ));
            }
        } else {
            let last_idx = r.len() - 1;
            let mut seg = r.remove(last_idx);
            let ghost old_views = split_commas(cs@.take(i as int));
            seg.push(c);
            r.push(seg);
            proof {
                assert(seg@ =~= old_views.last().push(cs@[i as int]));
                assert(views_of(r@) =~= old_views.update(
                    old_views.len() - 1,
                    old_views.last().push(cs@[i as int]),
                ));
            }
        }
        i += 1;
    }
    proof {
        assert(cs@.take(n as int) =~= cs@);
    }
    r
}

} // verus!
