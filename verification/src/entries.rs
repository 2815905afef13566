//! Association lists: sequences of key/value pairs whose keys are distinct,
//! read as finite maps. The loaded-entry tables of the stores and the
//! offset-to-substate table produced when a node is flattened are kept in
//! this form.
use vstd::prelude::*;

use crate::types::{bytes_eq, copy_bytes};

verus! {

/// No key occurs twice.
pub open spec fn keys_distinct<K, V>(s: Seq<(K, V)>) -> bool {
    forall|i: int, j: int|
        #![trigger s[i], s[j]]
        0 <= i < s.len() && 0 <= j < s.len() && i != j ==> s[i].0 != s[j].0
}

/// `k` is the key of some pair.
pub open spec fn has_key<K, V>(s: Seq<(K, V)>, k: K) -> bool {
    exists|i: int| 0 <= i < s.len() && #[trigger] s[i].0 == k
}

/// The keys, in order.
pub open spec fn keys_of<K, V>(s: Seq<(K, V)>) -> Seq<K> {
    s.map_values(|p: (K, V)| p.0)
}

/// The map that an association list stands for.
pub open spec fn pairs_view<K, V>(s: Seq<(K, V)>) -> Map<K, V> {
    Map::new(
        |k: K| has_key(s, k),
        |k: K| s[choose|i: int| 0 <= i < s.len() && #[trigger] s[i].0 == k].1,
    )
}

/// In a list with distinct keys, the pair at `i` is what the map holds for its key.
pub proof fn lemma_pairs_view_index<K, V>(s: Seq<(K, V)>, i: int)
    requires
        keys_distinct(s),
        0 <= i < s.len(),
    ensures
        pairs_view(s).contains_key(s[i].0),
        pairs_view(s)[s[i].0] == s[i].1,
{
    assert(has_key(s, s[i].0));
    let j = choose|j: int| 0 <= j < s.len() && #[trigger] s[j].0 == s[i].0;
    assert(s[j].0 == s[i].0);
}

/// Appending a pair with a fresh key inserts it into the map.
pub proof fn lemma_pairs_view_push<K, V>(s: Seq<(K, V)>, k: K, v: V)
    requires
        keys_distinct(s),
        !has_key(s, k),
    ensures
        keys_distinct(s.push((k, v))),
        pairs_view(s.push((k, v))) == pairs_view(s).insert(k, v),
{
    let t = s.push((k, v));
    assert forall|i: int, j: int|
        #![trigger t[i], t[j]]
        0 <= i < t.len() && 0 <= j < t.len() && i != j implies t[i].0 != t[j].0 by {
        if i < s.len() && j < s.len() {
            assert(t[i] == s[i] && t[j] == s[j]);
        } else if i < s.len() {
            assert(t[i] == s[i]);
        } else {
            assert(t[j] == s[j]);
        }
    }
    assert forall|x: K| #[trigger] has_key(t, x) <==> has_key(s, x) || x == k by {
        if has_key(s, x) {
            let i = choose|i: int| 0 <= i < s.len() && #[trigger] s[i].0 == x;
            assert(t[i].0 == x);
        }
        if x == k {
            assert(t[s.len() as int].0 == x);
        }
        if has_key(t, x) && x != k {
            let i = choose|i: int| 0 <= i < t.len() && #[trigger] t[i].0 == x;
            assert(s[i].0 == x);
        }
    }
    assert forall|x: K| #[trigger] pairs_view(t).contains_key(x) implies pairs_view(t)[x] == pairs_view(
        s,
    ).insert(k, v)[x] by {
        let i = choose|i: int| 0 <= i < t.len() && #[trigger] t[i].0 == x;
        lemma_pairs_view_index(t, i);
        if x != k {
            assert(i < s.len());
            assert(t[i] == s[i]);
            lemma_pairs_view_index(s, i);
        }
    }
    assert(pairs_view(t) =~= pairs_view(s).insert(k, v));
}

/// Replacing the value of the pair at `i` updates the map at its key.
pub proof fn lemma_pairs_view_update<K, V>(s: Seq<(K, V)>, i: int, v: V)
    requires
        keys_distinct(s),
        0 <= i < s.len(),
    ensures
        keys_distinct(s.update(i, (s[i].0, v))),
        pairs_view(s.update(i, (s[i].0, v))) == pairs_view(s).insert(s[i].0, v),
{
    let t = s.update(i, (s[i].0, v));
    assert forall|a: int, b: int|
        #![trigger t[a], t[b]]
        0 <= a < t.len() && 0 <= b < t.len() && a != b implies t[a].0 != t[b].0 by {
        assert(t[a].0 == s[a].0 && t[b].0 == s[b].0);
    }
    assert forall|x: K| #[trigger] has_key(t, x) <==> has_key(s, x) by {
        if has_key(s, x) {
            let j = choose|j: int| 0 <= j < s.len() && #[trigger] s[j].0 == x;
            assert(t[j].0 == x);
        }
        if has_key(t, x) {
            let j = choose|j: int| 0 <= j < t.len() && #[trigger] t[j].0 == x;
            assert(s[j].0 == x);
        }
    }
    assert(has_key(s, s[i].0)) by {
        assert(s[i].0 == s[i].0);
    }
    assert forall|x: K| #[trigger] pairs_view(t).contains_key(x) implies pairs_view(t)[x]
        == pairs_view(s).insert(s[i].0, v)[x] by {
        let j = choose|j: int| 0 <= j < t.len() && #[trigger] t[j].0 == x;
        lemma_pairs_view_index(t, j);
        if j != i {
            assert(t[j] == s[j]);
            lemma_pairs_view_index(s, j);
        }
    }
    assert(pairs_view(t) =~= pairs_view(s).insert(s[i].0, v));
}

/// Replacing the value at `i` by any value updates the map at its key.
pub proof fn lemma_pairs_view_update_any<K, V>(s: Seq<(K, V)>, i: int)
    requires
        keys_distinct(s),
        0 <= i < s.len(),
    ensures
        forall|v: V|
            #![trigger s.update(i, (s[i].0, v))]
            keys_distinct(s.update(i, (s[i].0, v))) && pairs_view(s.update(i, (s[i].0, v)))
                == pairs_view(s).insert(s[i].0, v),
{
    assert forall|v: V|
        #![trigger s.update(i, (s[i].0, v))]
        keys_distinct(s.update(i, (s[i].0, v))) && pairs_view(s.update(i, (s[i].0, v)))
            == pairs_view(s).insert(s[i].0, v) by {
        lemma_pairs_view_update(s, i, v);
    }
}

/// Two lists with distinct keys, the same keys in the same order and the
/// same map are the same list.
pub proof fn lemma_same_keys_same_map<K, V>(s: Seq<(K, V)>, t: Seq<(K, V)>)
    requires
        keys_distinct(s),
        keys_distinct(t),
        keys_of(s) == keys_of(t),
        pairs_view(s) == pairs_view(t),
    ensures
        s == t,
{
    assert(s.len() == keys_of(s).len());
    assert(t.len() == keys_of(t).len());
    assert forall|i: int| 0 <= i < s.len() implies s[i] == t[i] by {
        assert(keys_of(s)[i] == s[i].0);
        assert(keys_of(t)[i] == t[i].0);
        lemma_pairs_view_index(s, i);
        lemma_pairs_view_index(t, i);
        assert(s[i].1 == t[i].1);
    }
    assert(s =~= t);
}

/// A key that is a string of bytes.
pub trait ByteKey: Sized + View<V = Seq<u8>> {
    /// The bytes of the key.
    fn key_bytes(&self) -> (r: &[u8])
        ensures
            r@ == self@,
    ;

    /// A copy of the key.
    fn copy_key(&self) -> (r: Self)
        ensures
            r@ == self@,
    ;
}

impl ByteKey for Vec<u8> {
    fn key_bytes(&self) -> (r: &[u8]) {
        self.as_slice()
    }

    fn copy_key(&self) -> (r: Self) {
        copy_bytes(self)
    }
}

/// The pairs, keys taken as byte strings.
pub open spec fn byte_keyed<K: View<V = Seq<u8>>, V>(s: Seq<(K, V)>) -> Seq<(Seq<u8>, V)> {
    s.map_values(|e: (K, V)| (e.0@, e.1))
}

/// The pairs once `key` is loaded: an absent key is added with `fresh` after
/// the others.
pub open spec fn after_load<V>(s: Seq<(Seq<u8>, V)>, key: Seq<u8>, fresh: V) -> Seq<(Seq<u8>, V)> {
    if has_key(s, key) {
        s
    } else {
        s.push((key, fresh))
    }
}

/// The position of `key` among the pairs.
pub fn find_key<K: ByteKey, V>(entries: &Vec<(K, V)>, key: &K) -> (r: Option<usize>)
    ensures
        match r {
            Some(i) => i < entries@.len() && byte_keyed(entries@)[i as int].0 == key@,
            None => !has_key(byte_keyed(entries@), key@),
        },
{
    let n = entries.len();
    let mut i: usize = 0;
    while i < n
        invariant
            n == entries@.len(),
            i <= n,
            forall|j: int| 0 <= j < i ==> (#[trigger] byte_keyed(entries@)[j]).0 != key@,
        decreases n - i,
    {
        if bytes_eq(entries[i].0.key_bytes(), key.key_bytes()) {
            return Some(i);
        }
        i += 1;
    }
    assert forall|j: int| 0 <= j < byte_keyed(entries@).len() implies #[trigger] byte_keyed(entries@)[j].0
        != key@ by {}
    None
}

/// Loads `key`, adding it with `fresh` when absent; returns its position.
pub fn load_key<K: ByteKey, V>(entries: &mut Vec<(K, V)>, key: &K, fresh: V) -> (r: usize)
    requires
        keys_distinct(byte_keyed(old(entries)@)),
    ensures
        keys_distinct(byte_keyed(final(entries)@)),
        byte_keyed(final(entries)@) == after_load(byte_keyed(old(entries)@), key@, fresh),
        pairs_view(byte_keyed(final(entries)@)) == (if has_key(byte_keyed(old(entries)@), key@) {
            pairs_view(byte_keyed(old(entries)@))
        } else {
            pairs_view(byte_keyed(old(entries)@)).insert(key@, fresh)
        }),
        r < final(entries)@.len(),
        byte_keyed(final(entries)@)[r as int].0 == key@,
{
    match find_key(entries, key) {
        Some(i) => i,
        None => {
            let ghost before = byte_keyed(entries@);
            let ghost fresh_value = fresh;
            let k = key.copy_key();
            entries.push((k, fresh));
            proof {
                assert(byte_keyed(entries@) =~= before.push((key@, fresh_value)));
                lemma_pairs_view_push(before, key@, fresh_value);
            }
            entries.len() - 1
        },
    }
}

/// The value at position `i`, for writing.
pub fn value_mut<K: View<V = Seq<u8>>, V>(entries: &mut Vec<(K, V)>, i: usize) -> (r: &mut V)
    requires
        keys_distinct(byte_keyed(old(entries)@)),
        i < old(entries)@.len(),
    ensures
        *r == old(entries)@[i as int].1,
        keys_distinct(byte_keyed(final(entries)@)),
        byte_keyed(final(entries)@) == byte_keyed(old(entries)@).update(
            i as int,
            (byte_keyed(old(entries)@)[i as int].0, *final(r)),
        ),
        pairs_view(byte_keyed(final(entries)@)) == pairs_view(byte_keyed(old(entries)@)).insert(
            byte_keyed(old(entries)@)[i as int].0,
            *final(r),
        ),
{
    let ghost before = byte_keyed(entries@);
    let ghost k = entries@[i as int].0;
    proof {
        lemma_pairs_view_update_any(before, i as int);
        assert forall|v: V|
            #![trigger entries@.update(i as int, (k, v))]
            byte_keyed(entries@.update(i as int, (k, v))) == before.update(i as int, (before[i as int].0, v)) by {
            assert(byte_keyed(entries@.update(i as int, (k, v))) =~= before.update(
                i as int,
                (before[i as int].0, v),
            ));
        }
    }
    &mut entries[i].1
}

} // verus!
