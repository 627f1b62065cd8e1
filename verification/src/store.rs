//! In-memory model of the durable key-value store the service writes into:
//! a mapping from string key to string value with get, unconditional put,
//! and prefix listing.

use vstd::prelude::*;

verus! {

struct Entry {
    key: String,
    value: String,
}

/// Whether `ps` enumerates exactly the stored pairs whose key starts with
/// `prefix`: each pair is in the store under the prefix, no key repeats, and
/// no such key is missing.
pub open spec fn listing_of(
    m: Map<Seq<char>, Seq<char>>,
    prefix: Seq<char>,
    ps: Seq<(Seq<char>, Seq<char>)>,
) -> bool {
    (forall|i: int|
        0 <= i < ps.len() ==> prefix.is_prefix_of((#[trigger] ps[i]).0) && m.contains_key(ps[i].0)
            && m[ps[i].0] == ps[i].1) && (forall|i: int, j: int|
        0 <= i < j < ps.len() ==> (#[trigger] ps[i]).0 != (#[trigger] ps[j]).0) && (forall|
        k: Seq<char>,
    |
        m.contains_key(k) && prefix.is_prefix_of(k) ==> exists|i: int|
            0 <= i < ps.len() && (#[trigger] ps[i]).0 == k)
}

/// A key-value store: a mapping from string key to string value.
pub struct KvStore {
    entries: Vec<Entry>,
}

/// Whether the entries hold pairwise distinct keys.
spec fn distinct_keys(entries: Seq<Entry>) -> bool {
    forall|i: int, j: int|
        0 <= i < j < entries.len() ==> (#[trigger] entries[i]).key@ != (#[trigger] entries[j]).key@
}

spec fn has_key(entries: Seq<Entry>, k: Seq<char>) -> bool {
    exists|i: int| 0 <= i < entries.len() && (#[trigger] entries[i]).key@ == k
}

spec fn value_of(entries: Seq<Entry>, k: Seq<char>) -> Seq<char> {
    entries[choose|i: int| 0 <= i < entries.len() && (#[trigger] entries[i]).key@ == k].value@
}

impl View for KvStore {
    type V = Map<Seq<char>, Seq<char>>;

    closed spec fn view(&self) -> Map<Seq<char>, Seq<char>> {
        Map::new(|k: Seq<char>| has_key(self.entries@, k), |k: Seq<char>| value_of(self.entries@, k))
    }
}

impl KvStore {
    /// The store is well formed: no key appears twice.
    pub closed spec fn wf(&self) -> bool {
        distinct_keys(self.entries@)
    }

    /// An empty store.
    pub fn new() -> (r: Self)
        ensures
            r.wf(),
            r@ == Map::<Seq<char>, Seq<char>>::empty(),
    {
        let r = KvStore { entries: Vec::new() };
        proof {
            assert(r@ =~= Map::<Seq<char>, Seq<char>>::empty());
        }
        r
    }

    fn find(&self, key: &str) -> (r: Option<usize>)
        ensures
            match r {
                Option::Some(i) => i < self.entries@.len() && self.entries@[i as int].key@ == key@,
                Option::None => !has_key(self.entries@, key@),
            },
    {
        let key_string = String::from_str(key);
        let n = self.entries.len();
        let mut i: usize = 0;
        while i < n
            invariant
                i <= n,
                n == self.entries@.len(),
                key_string@ == key@,
                forall|j: int| 0 <= j < i ==> (#[trigger] self.entries@[j]).key@ != key@,
            decreases n - i,
        {
            if self.entries[i].key == key_string {
                return Some(i);
            }
            i += 1;
        }
        None
    }

    /// Looks a key up; the result is the value the store maps it to, if any.
    pub fn get(&self, key: &str) -> (r: Option<&String>)
        requires
            self.wf(),
        ensures
            match r {
                Option::Some(v) => self@.contains_key(key@) && self@[key@] == v@,
                Option::None => !self@.contains_key(key@),
            },
    {
        match self.find(key) {
            Some(i) => {
                proof {
                    let w = choose|j: int|
                        0 <= j < self.entries@.len() && (#[trigger] self.entries@[j]).key@ == key@;
                    assert(self.entries@[w].key@ == key@);
                    assert(w == i);
                }
                Some(&self.entries[i].value)
            },
            None => None,
        }
    }

    /// Writes a value under a key, unconditionally overwriting any prior one.
    pub fn put(&mut self, key: &str, value: &str)
        requires
            old(self).wf(),
        ensures
            final(self).wf(),
            final(self)@ == old(self)@.insert(key@, value@),
    {
        let ghost pre = self.entries@;
        match self.find(key) {
            Some(i) => {
                self.entries.remove(i);
                proof {
                    let mid = self.entries@;
                    assert(mid =~= pre.subrange(0, i as int) + pre.subrange(
                        i + 1,
                        pre.len() as int,
                    ));
                    assert forall|a: int, b: int| 0 <= a < b < mid.len() implies (
                    #[trigger] mid[a]).key@ != (#[trigger] mid[b]).key@ by {
                        let a0 = if a < i { a } else { a + 1 };
                        let b0 = if b < i { b } else { b + 1 };
                        assert(mid[a] == pre[a0]);
                        assert(mid[b] == pre[b0]);
                    }
                    assert forall|k: Seq<char>| has_key(mid, k) implies has_key(pre, k) && k
                        != key@ by {
                        let j = choose|j: int| 0 <= j < mid.len() && (#[trigger] mid[j]).key@ == k;
                        let j0 = if j < i { j } else { j + 1 };
                        assert(mid[j] == pre[j0]);
                        assert(pre[j0].key@ == k);
                        if k == key@ {
                            assert(pre[i as int].key@ == key@);
                        }
                    }
                    assert forall|k: Seq<char>| has_key(pre, k) && k != key@ implies has_key(
                        mid,
                        k,
                    ) by {
                        let j0 = choose|j: int| 0 <= j < pre.len() && (#[trigger] pre[j]).key@ == k;
                        assert(pre[i as int].key@ == key@);
                        let j = if j0 < i {
                            j0
                        } else {
                            j0 - 1
                        };
                        assert(mid[j] == pre[j0]);
                    }
                    assert forall|k: Seq<char>| has_key(mid, k) implies value_of(mid, k)
                        == value_of(pre, k) by {
                        let j = choose|j: int| 0 <= j < mid.len() && (#[trigger] mid[j]).key@ == k;
                        let w = choose|w: int|
                            0 <= w < mid.len() && (#[trigger] mid[w]).key@ == k;
                        assert(mid[w].key@ == k);
                        let w0 = if w < i { w } else { w + 1 };
                        assert(mid[w] == pre[w0]);
                        let u0 = choose|u: int| 0 <= u < pre.len() && (#[trigger] pre[u]).key@ == k;
                        assert(pre[u0].key@ == k && pre[w0].key@ == k);
                        assert(u0 == w0);
                    }
                }
            },
            None => {},
        }
        let ghost mid = self.entries@;
        self.entries.push(Entry { key: String::from_str(key), value: String::from_str(value) });
        proof {
            let post = self.entries@;
            assert(post.last().key@ == key@);
            assert(post.drop_last() =~= mid);
            assert(!has_key(mid, key@));
            assert forall|a: int, b: int| 0 <= a < b < post.len() implies (
            #[trigger] post[a]).key@ != (#[trigger] post[b]).key@ by {
                if b < post.len() - 1 {
                    assert(post[a] == mid[a] && post[b] == mid[b]);
                } else {
                    assert(post[a] == mid[a]);
                    if post[a].key@ == key@ {
                        assert(has_key(mid, key@));
                    }
                }
            }
            assert(final(self).wf());
            assert forall|k: Seq<char>| true implies (has_key(post, k) <==> (has_key(mid, k) || k
                == key@)) by {
                if has_key(post, k) {
                    let j = choose|j: int| 0 <= j < post.len() && (#[trigger] post[j]).key@ == k;
                    if j < post.len() - 1 {
                        assert(post[j] == mid[j]);
                    }
                }
                if has_key(mid, k) {
                    let j = choose|j: int| 0 <= j < mid.len() && (#[trigger] mid[j]).key@ == k;
                    assert(post[j] == mid[j]);
                }
                if k == key@ {
                    assert(post[post.len() - 1].key@ == k);
                }
            }
            assert forall|k: Seq<char>| has_key(post, k) implies value_of(post, k) == (if k == key@ {
                value@
            } else {
                value_of(mid, k)
            }) by {
                let w = choose|w: int| 0 <= w < post.len() && (#[trigger] post[w]).key@ == k;
                assert(post[w].key@ == k);
                if k == key@ {
                    if w < post.len() - 1 {
                        assert(post[w] == mid[w]);
                        assert(has_key(mid, key@));
                    }
                    assert(post[w].value@ == value@);
                } else {
                    assert(w < post.len() - 1);
                    assert(post[w] == mid[w]);
                    let u = choose|u: int| 0 <= u < mid.len() && (#[trigger] mid[u]).key@ == k;
                    assert(mid[u].key@ == k && mid[w].key@ == k);
                    assert(u == w);
                }
            }
            assert(final(self)@ =~= old(self)@.insert(key@, value@));
        }
    }

    /// Lists the stored pairs whose key starts with a prefix: every returned
    /// pair is in the store, their keys are distinct, and every stored key
    /// with the prefix is returned.
    pub fn list_with_prefix(&self, prefix: &str) -> (r: Vec<(String, String)>)
        requires
            self.wf(),
        ensures
            forall|i: int|
                0 <= i < r@.len() ==> prefix@.is_prefix_of((#[trigger] r@[i]).0@)
                    && self@.contains_key(r@[i].0@) && self@[r@[i].0@] == r@[i].1@,
            forall|i: int, j: int| 0 <= i < j < r@.len() ==> (#[trigger] r@[i]).0@ != (
            #[trigger] r@[j]).0@,
            forall|k: Seq<char>|
                self@.contains_key(k) && prefix@.is_prefix_of(k) ==> exists|i: int|
                    0 <= i < r@.len() && (#[trigger] r@[i]).0@ == k,
    {
        let n = self.entries.len();
        let mut r: Vec<(String, String)> = Vec::new();
        let mut i: usize = 0;
        while i < n
            invariant
                i <= n,
                n == self.entries@.len(),
                self.wf(),
                forall|a: int|
                    0 <= a < r@.len() ==> prefix@.is_prefix_of((#[trigger] r@[a]).0@) && exists|
                        j: int,
                    |
                        0 <= j < i && (#[trigger] self.entries@[j]).key@ == r@[a].0@
                            && self.entries@[j].value@ == r@[a].1@,
                forall|a: int, b: int| 0 <= a < b < r@.len() ==> (#[trigger] r@[a]).0@ != (
                #[trigger] r@[b]).0@,
                forall|j: int|
                    0 <= j < i && prefix@.is_prefix_of((#[trigger] self.entries@[j]).key@)
                        ==> exists|a: int|
                        0 <= a < r@.len() && (#[trigger] r@[a]).0@ == self.entries@[j].key@,
            decreases n - i,
        {
            let has_pref = self.key_has_prefix(i, prefix);
            let ghost r_old = r@;
            if has_pref {
                let entry = &self.entries[i];
                let pair = (entry.key.clone(), entry.value.clone());
                proof {
                    assert forall|a: int| 0 <= a < r@.len() implies (#[trigger] r@[a]).0@
                        != self.entries@[i as int].key@ by {
                        let j = choose|j: int|
                            0 <= j < i && (#[trigger] self.entries@[j]).key@ == r@[a].0@;
                        assert(self.entries@[j].key@ != self.entries@[i as int].key@);
                    }
                }
                r.push(pair);
                proof {
                    assert(r@[r@.len() - 1].0@ == self.entries@[i as int].key@);
                    assert(r@[r@.len() - 1].1@ == self.entries@[i as int].value@);
                }
            }
            proof {
                assert forall|j: int|
                    0 <= j < i + 1 && prefix@.is_prefix_of(
                        (#[trigger] self.entries@[j]).key@,
                    ) implies exists|a: int|
                    0 <= a < r@.len() && (#[trigger] r@[a]).0@ == self.entries@[j].key@ by {
                    if j < i {
                        let a = choose|a: int|
                            0 <= a < r_old.len() && (#[trigger] r_old[a]).0@
                                == self.entries@[j].key@;
                        assert(r@[a].0@ == self.entries@[j].key@);
                    } else {
                        assert(r@[r@.len() - 1].0@ == self.entries@[j].key@);
                    }
                }
            }
            i += 1;
        }
        proof {
            assert forall|a: int| 0 <= a < r@.len() implies self@.contains_key(
                (#[trigger] r@[a]).0@,
            ) && self@[r@[a].0@] == r@[a].1@ by {
                let j = choose|j: int|
                    0 <= j < i && (#[trigger] self.entries@[j]).key@ == r@[a].0@
                        && self.entries@[j].value@ == r@[a].1@;
                assert(has_key(self.entries@, r@[a].0@));
                let w = choose|w: int|
                    0 <= w < self.entries@.len() && (#[trigger] self.entries@[w]).key@ == r@[a].0@;
                assert(w == j);
            }
            assert forall|k: Seq<char>| self@.contains_key(k) && prefix@.is_prefix_of(
                k,
            ) implies exists|a: int| 0 <= a < r@.len() && (#[trigger] r@[a]).0@ == k by {
                let j = choose|j: int|
                    0 <= j < self.entries@.len() && (#[trigger] self.entries@[j]).key@ == k;
            }
        }
        r
    }

    fn key_has_prefix(&self, i: usize, prefix: &str) -> (r: bool)
        requires
            i < self.entries@.len(),
        ensures
            r == prefix@.is_prefix_of(self.entries@[i as int].key@),
    {
        let key = &self.entries[i].key;
        let p_len = prefix.unicode_len();
        let k_len = key.as_str().unicode_len();
        if p_len > k_len {
            proof {
                assert(!prefix@.is_prefix_of(key@));
            }
            return false;
        }
        let mut j: usize = 0;
        while j < p_len
            invariant
                j <= p_len,
                p_len == prefix@.len(),
                k_len == key@.len(),
                p_len <= k_len,
                key@ == self.entries@[i as int].key@,
                forall|a: int| 0 <= a < j ==> prefix@[a] == key@[a],
            decreases p_len - j,
        {
            if prefix.get_char(j) != key.as_str().get_char(j) {
                proof {
                    assert(!prefix@.is_prefix_of(key@));
                }
                return false;
            }
            j += 1;
        }
        proof {
            assert(prefix@ =~= key@.subrange(0, p_len as int));
        }
        true
    }
}

} // verus!
