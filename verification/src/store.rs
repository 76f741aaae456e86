//! The sharded actor store.
//!
//! A mapping from actor identifier to handler, partitioned into a fixed
//! number of shards. An identifier's shard is a deterministic hash of its
//! bytes, so every operation touches exactly one shard; under the real
//! server each shard sits behind its own lock, which bounds contention
//! between connection threads without a single global lock. The store's
//! mathematical value is the map from identifier to handler; an identifier
//! is looked up only in its own shard.

use vstd::prelude::*;
use vstd::string::StringSliceAdditionalSpecFns;

verus! {

/// How many shards the store is partitioned into; a power of two.
pub const SHARD_COUNT: usize = 8;

/// The running hash of a byte string: a polynomial hash kept below 2^32.
pub open spec fn hash_bytes(bs: Seq<u8>) -> nat
    decreases bs.len(),
{
    if bs.len() == 0 {
        5381
    } else {
        (hash_bytes(bs.drop_last()) * 31 + bs.last() as nat) % (0x1_0000_0000 as nat)
    }
}

/// The shard an identifier belongs to.
pub open spec fn shard_of(key: Seq<char>) -> nat {
    hash_bytes(vstd::utf8::encode_utf8(key)) % (SHARD_COUNT as nat)
}

/// The running hash stays below 2^32.
pub proof fn lemma_hash_bytes_bound(bs: Seq<u8>)
    ensures
        hash_bytes(bs) < 0x1_0000_0000,
    decreases bs.len(),
{
    if bs.len() > 0 {
        lemma_hash_bytes_bound(bs.drop_last());
    }
}

/// The shard of an identifier, computed from its bytes.
pub fn shard_index(key: &str) -> (r: usize)
    ensures
        r == shard_of(key@),
        r < SHARD_COUNT,
{
    let bytes = key.as_bytes();
    let n = bytes.len();
    let mut h: u64 = 5381;
    let mut i: usize = 0;
    proof {
        assert(bytes@.subrange(0, 0) =~= Seq::<u8>::empty());
    }
    while i < n
        invariant
            n == bytes@.len(),
            i <= n,
            bytes@ == key.spec_bytes(),
            h == hash_bytes(bytes@.subrange(0, i as int)),
            h < 0x1_0000_0000,
        decreases n - i,
    {
        let b = bytes[i];
        h = (h * 31 + b as u64) % 0x1_0000_0000;
        proof {
            let pre = bytes@.subrange(0, i as int);
            let now = bytes@.subrange(0, i + 1 as int);
            assert(now.drop_last() =~= pre);
            assert(now.last() == bytes@[i as int]);
        }
        i = i + 1;
    }
    proof {
        assert(bytes@.subrange(0, n as int) =~= bytes@);
    }
    (h % SHARD_COUNT as u64) as usize
}

/// Whether the identifiers of a shard's entries are pairwise distinct.
pub open spec fn keys_unique<V>(s: Seq<(String, V)>) -> bool {
    forall|i: int, j: int| 0 <= i < j < s.len() ==> (#[trigger] s[i]).0@ != (#[trigger] s[j]).0@
}

/// The mapping a single shard holds.
pub open spec fn shard_map<V>(s: Seq<(String, V)>) -> Map<Seq<char>, V>
    decreases s.len(),
{
    if s.len() == 0 {
        Map::empty()
    } else {
        shard_map(s.drop_last()).insert(s.last().0@, s.last().1)
    }
}

/// A shard's map contains exactly the identifiers of its entries.
pub proof fn lemma_shard_map_contains<V>(s: Seq<(String, V)>, k: Seq<char>)
    ensures
        shard_map(s).contains_key(k) <==> exists|i: int| 0 <= i < s.len() && (#[trigger] s[i]).0@
            == k,
    decreases s.len(),
{
    if s.len() > 0 {
        lemma_shard_map_contains(s.drop_last(), k);
        if s.last().0@ == k {
            assert(s[s.len() - 1].0@ == k);
        } else {
            if shard_map(s).contains_key(k) {
                let i = choose|i: int| 0 <= i < s.drop_last().len() && (#[trigger] s.drop_last()[i]).0@ == k;
                assert(s[i].0@ == k);
            }
            if exists|i: int| 0 <= i < s.len() && (#[trigger] s[i]).0@ == k {
                let i = choose|i: int| 0 <= i < s.len() && (#[trigger] s[i]).0@ == k;
                assert(s.drop_last()[i].0@ == k);
            }
        }
    }
}

/// In a shard without repeated identifiers, the map binds each identifier to
/// the handler stored beside it.
pub proof fn lemma_shard_map_at<V>(s: Seq<(String, V)>, i: int)
    requires
        keys_unique(s),
        0 <= i < s.len(),
    ensures
        shard_map(s).contains_key(s[i].0@),
        shard_map(s)[s[i].0@] == s[i].1,
    decreases s.len(),
{
    lemma_shard_map_contains(s, s[i].0@);
    if i == s.len() - 1 {
    } else {
        assert(s.drop_last()[i] == s[i]);
        lemma_shard_map_at(s.drop_last(), i);
        assert(s[i].0@ != s.last().0@);
    }
}

/// Appending an entry with a fresh identifier inserts its binding.
pub proof fn lemma_shard_map_push<V>(s: Seq<(String, V)>, name: String, v: V)
    ensures
        shard_map(s.push((name, v))) == shard_map(s).insert(name@, v),
{
    assert(s.push((name, v)).drop_last() =~= s);
    assert(s.push((name, v)).last() == (name, v));
}

/// Replacing the entry at an index rebinds only its identifier.
pub proof fn lemma_shard_map_update<V>(s: Seq<(String, V)>, i: int, name: String, v: V)
    requires
        keys_unique(s),
        0 <= i < s.len(),
        s[i].0@ == name@,
    ensures
        shard_map(s.update(i, (name, v))) =~= shard_map(s).insert(name@, v),
        keys_unique(s.update(i, (name, v))),
    decreases s.len(),
{
    let t = s.update(i, (name, v));
    assert forall|k: Seq<char>| #[trigger] shard_map(t).contains_key(k)
        <==> shard_map(s).insert(name@, v).contains_key(k) by {
        lemma_shard_map_contains(t, k);
        lemma_shard_map_contains(s, k);
        if shard_map(t).contains_key(k) {
            let ix = choose|ix: int| 0 <= ix < t.len() && (#[trigger] t[ix]).0@ == k;
            if ix != i {
                assert(s[ix].0@ == k);
            }
        }
        if shard_map(s).contains_key(k) {
            let ix = choose|ix: int| 0 <= ix < s.len() && (#[trigger] s[ix]).0@ == k;
            if ix != i {
                assert(t[ix].0@ == k);
            }
        }
    }
    assert forall|k: Seq<char>| shard_map(t).contains_key(k) implies #[trigger] shard_map(t)[k]
        == shard_map(s).insert(name@, v)[k] by {
        lemma_shard_map_contains(t, k);
        let ix = choose|ix: int| 0 <= ix < t.len() && (#[trigger] t[ix]).0@ == k;
        lemma_shard_map_at(t, ix);
        if k == name@ {
            assert(t[i].0@ == k);
            lemma_shard_map_at(t, i);
        } else {
            assert(ix != i);
            assert(s[ix].0@ == k);
            lemma_shard_map_at(s, ix);
        }
    }
}

/// Removing the entry at an index unbinds only its identifier.
pub proof fn lemma_shard_map_remove<V>(s: Seq<(String, V)>, i: int)
    requires
        keys_unique(s),
        0 <= i < s.len(),
    ensures
        shard_map(s.remove(i)) =~= shard_map(s).remove(s[i].0@),
        keys_unique(s.remove(i)),
{
    let t = s.remove(i);
    assert forall|j: int, l: int| 0 <= j < l < t.len() implies (#[trigger] t[j]).0@ != (
    #[trigger] t[l]).0@ by {
        let sj = if j < i {
            j
        } else {
            j + 1
        };
        let sl = if l < i {
            l
        } else {
            l + 1
        };
        assert(t[j] == s[sj]);
        assert(t[l] == s[sl]);
    }
    assert forall|k: Seq<char>| #[trigger] shard_map(t).contains_key(k) <==> shard_map(s).remove(
        s[i].0@,
    ).contains_key(k) by {
        lemma_shard_map_contains(t, k);
        lemma_shard_map_contains(s, k);
        if shard_map(t).contains_key(k) {
            let ix = choose|ix: int| 0 <= ix < t.len() && (#[trigger] t[ix]).0@ == k;
            let sx = if ix < i {
                ix
            } else {
                ix + 1
            };
            assert(s[sx].0@ == k);
            assert(k != s[i].0@);
        }
        if shard_map(s).remove(s[i].0@).contains_key(k) {
            let sx = choose|sx: int| 0 <= sx < s.len() && (#[trigger] s[sx]).0@ == k;
            assert(sx != i);
            let ix = if sx < i {
                sx
            } else {
                sx - 1
            };
            assert(t[ix] == s[sx]);
        }
    }
    assert forall|k: Seq<char>| shard_map(t).contains_key(k) implies #[trigger] shard_map(t)[k]
        == shard_map(s).remove(s[i].0@)[k] by {
        lemma_shard_map_contains(t, k);
        let ix = choose|ix: int| 0 <= ix < t.len() && (#[trigger] t[ix]).0@ == k;
        lemma_shard_map_at(t, ix);
        let sx = if ix < i {
            ix
        } else {
            ix + 1
        };
        assert(t[ix] == s[sx]);
        lemma_shard_map_at(s, sx);
    }
}

/// Two shards whose entries agree pairwise on identifiers and relate
/// pairwise by a relation hold maps that agree on domain and relate on
/// every binding.
pub proof fn lemma_shard_map_pointwise<V>(
    s1: Seq<(String, V)>,
    s2: Seq<(String, V)>,
    rel: spec_fn(V, V) -> bool,
)
    requires
        keys_unique(s1),
        s2.len() == s1.len(),
        forall|i: int|
            0 <= i < s1.len() ==> (#[trigger] s2[i]).0@ == s1[i].0@ && rel(s1[i].1, s2[i].1),
    ensures
        keys_unique(s2),
        forall|k: Seq<char>| #[trigger] shard_map(s2).contains_key(k) == shard_map(
            s1,
        ).contains_key(k),
        forall|k: Seq<char>|
            shard_map(s1).contains_key(k) ==> rel(
                #[trigger] shard_map(s1)[k],
                shard_map(s2)[k],
            ),
{
    assert forall|i: int, j: int|
        0 <= i < j < s2.len() implies (#[trigger] s2[i]).0@ != (#[trigger] s2[j]).0@ by {
        assert(s1[i].0@ != s1[j].0@);
    }
    assert forall|k: Seq<char>| #[trigger] shard_map(s2).contains_key(k) == shard_map(
        s1,
    ).contains_key(k) by {
        lemma_shard_map_contains(s1, k);
        lemma_shard_map_contains(s2, k);
        if shard_map(s1).contains_key(k) {
            let i = choose|i: int| 0 <= i < s1.len() && (#[trigger] s1[i]).0@ == k;
            assert(s2[i].0@ == k);
        }
        if shard_map(s2).contains_key(k) {
            let i = choose|i: int| 0 <= i < s2.len() && (#[trigger] s2[i]).0@ == k;
            assert(s1[i].0@ == k);
        }
    }
    assert forall|k: Seq<char>| shard_map(s1).contains_key(k) implies rel(
        #[trigger] shard_map(s1)[k],
        shard_map(s2)[k],
    ) by {
        lemma_shard_map_contains(s1, k);
        let i = choose|i: int| 0 <= i < s1.len() && (#[trigger] s1[i]).0@ == k;
        lemma_shard_map_at(s1, i);
        lemma_shard_map_at(s2, i);
    }
}

/// A sharded mapping from actor identifier to handler.
pub struct ActorStore<V> {
    /// The shards; an entry lives in the shard its identifier hashes to.
    pub shards: Vec<Vec<(String, V)>>,
}

impl<V> ActorStore<V> {
    /// Whether the partition is intact: the right number of shards, every
    /// entry in the shard its identifier hashes to, and no identifier twice
    /// in one shard.
    pub open spec fn wf(&self) -> bool {
        &&& self.shards@.len() == SHARD_COUNT
        &&& forall|s: int, i: int|
            0 <= s < self.shards@.len() && 0 <= i < self.shards@[s]@.len() ==> shard_of(
                (#[trigger] self.shards@[s]@[i]).0@,
            ) == s
        &&& forall|s: int| 0 <= s < self.shards@.len() ==> keys_unique(#[trigger] self.shards@[s]@)
    }

    /// The mapping this store holds.
    pub open spec fn view(&self) -> Map<Seq<char>, V> {
        Map::new(
            |k: Seq<char>|
                shard_of(k) < self.shards@.len() && shard_map(
                    self.shards@[shard_of(k) as int]@,
                ).contains_key(k),
            |k: Seq<char>| shard_map(self.shards@[shard_of(k) as int]@)[k],
        )
    }

    /// An empty store.
    pub fn new() -> (r: ActorStore<V>)
        ensures
            r.wf(),
            r@ =~= Map::<Seq<char>, V>::empty(),
    {
        let mut shards: Vec<Vec<(String, V)>> = Vec::new();
        let mut s: usize = 0;
        while s < SHARD_COUNT
            invariant
                s <= SHARD_COUNT,
                shards@.len() == s,
                forall|i: int| 0 <= i < s ==> (#[trigger] shards@[i])@.len() == 0,
            decreases SHARD_COUNT - s,
        {
            shards.push(Vec::new());
            s = s + 1;
        }
        let r = ActorStore { shards };
        proof {
            assert forall|k: Seq<char>| !(#[trigger] r@.contains_key(k)) by {
                if shard_of(k) < r.shards@.len() {
                    lemma_shard_map_contains(r.shards@[shard_of(k) as int]@, k);
                }
            }
        }
        r
    }

    /// Binds an identifier to a handler, replacing any previous binding.
    #[verifier::loop_isolation(false)]
    pub fn insert(&mut self, name: String, v: V)
        requires
            old(self).wf(),
        ensures
            final(self).wf(),
            final(self)@ =~= old(self)@.insert(name@, v),
    {
        let s = shard_index(name.as_str());
        let ghost olds = self.shards@[s as int]@;
        let shard = &mut self.shards[s];
        let n = shard.len();
        let mut i: usize = 0;
        while i < n
            invariant
                n == shard@.len(),
                i <= n,
                shard@ == olds,
                forall|j: int| 0 <= j < i ==> (#[trigger] olds[j]).0@ != name@,
            decreases n - i,
        {
            if shard[i].0 == name {
                let ghost pre = shard@;
                shard[i] = (name, v);
                proof {
                    assert(keys_unique(pre));
                    lemma_shard_map_update(pre, i as int, name, v);
                    assert(shard@ == pre.update(i as int, (name, v)));
                    lemma_store_view_shard_change(*old(self), *self, s as int, name@, v);
                }
                return ;
            }
            i = i + 1;
        }
        let ghost pre = shard@;
        shard.push((name, v));
        proof {
            lemma_shard_map_push(pre, name, v);
            assert forall|j: int, l: int|
                0 <= j < l < shard@.len() implies (#[trigger] shard@[j]).0@ != (
            #[trigger] shard@[l]).0@ by {
                if l == shard@.len() - 1 {
                    assert(shard@[j] == olds[j]);
                }
            }
            lemma_store_view_shard_change(*old(self), *self, s as int, name@, v);
        }
    }

    /// The handler bound to an identifier, if any.
    pub fn get<'a>(&'a self, name: &str) -> (r: Option<&'a V>)
        requires
            self.wf(),
        ensures
            match r {
                Some(v) => self@.contains_key(name@) && self@[name@] == *v,
                None => !self@.contains_key(name@),
            },
    {
        let s = shard_index(name);
        let shard = &self.shards[s];
        let name_owned: String = name.to_owned();
        let n = shard.len();
        let mut i: usize = 0;
        while i < n
            invariant
                n == shard@.len(),
                i <= n,
                forall|j: int| 0 <= j < i ==> (#[trigger] shard@[j]).0@ != name@,
                name_owned@ == name@,
                shard == &self.shards[s as int],
                s == shard_of(name@),
                s < self.shards@.len(),
                self.wf(),
            decreases n - i,
        {
            let pair = &shard[i];
            if pair.0 == name_owned {
                proof {
                    lemma_shard_map_at(shard@, i as int);
                }
                return Some(&pair.1);
            }
            i = i + 1;
        }
        proof {
            lemma_shard_map_contains(shard@, name@);
        }
        None
    }

    /// Whether an identifier is bound.
    pub fn contains(&self, name: &str) -> (r: bool)
        requires
            self.wf(),
        ensures
            r == self@.contains_key(name@),
    {
        self.get(name).is_some()
    }

    /// Unbinds an identifier, handing back what it was bound to.
    #[verifier::loop_isolation(false)]
    pub fn take(&mut self, name: &str) -> (r: Option<V>)
        requires
            old(self).wf(),
        ensures
            final(self).wf(),
            match r {
                Some(v) => old(self)@.contains_key(name@) && old(self)@[name@] == v
                    && final(self)@ =~= old(self)@.remove(name@),
                None => !old(self)@.contains_key(name@) && final(self)@ =~= old(self)@,
            },
    {
        let s = shard_index(name);
        let ghost olds = self.shards@[s as int]@;
        let name_owned: String = name.to_owned();
        let shard = &mut self.shards[s];
        let n = shard.len();
        let mut i: usize = 0;
        while i < n
            invariant
                n == shard@.len(),
                i <= n,
                shard@ == olds,
                forall|j: int| 0 <= j < i ==> (#[trigger] olds[j]).0@ != name@,
                name_owned@ == name@,
            decreases n - i,
        {
            if shard[i].0 == name_owned {
                proof {
                    assert(keys_unique(olds));
                    lemma_shard_map_at(olds, i as int);
                    lemma_shard_map_remove(olds, i as int);
                }
                let pair = shard.remove(i);
                proof {
                    lemma_store_view_shard_removal(*old(self), *self, s as int, name@);
                }
                return Some(pair.1);
            }
            i = i + 1;
        }
        proof {
            lemma_shard_map_contains(olds, name@);
            assert(final(self)@ =~= old(self)@);
        }
        None
    }
}

/// When one shard's map gains exactly one binding whose identifier hashes to
/// that shard, the whole store gains exactly that binding.
proof fn lemma_store_view_shard_change<V>(
    pre: ActorStore<V>,
    post: ActorStore<V>,
    s: int,
    key: Seq<char>,
    v: V,
)
    requires
        pre.shards@.len() == post.shards@.len(),
        0 <= s < pre.shards@.len(),
        shard_of(key) == s,
        forall|t: int| 0 <= t < pre.shards@.len() && t != s ==> post.shards@[t] == pre.shards@[t],
        shard_map(post.shards@[s]@) =~= shard_map(pre.shards@[s]@).insert(key, v),
    ensures
        post@ =~= pre@.insert(key, v),
{
}

/// When one shard's map loses exactly one binding whose identifier hashes to
/// that shard, the whole store loses exactly that binding.
proof fn lemma_store_view_shard_removal<V>(
    pre: ActorStore<V>,
    post: ActorStore<V>,
    s: int,
    key: Seq<char>,
)
    requires
        pre.shards@.len() == post.shards@.len(),
        0 <= s < pre.shards@.len(),
        shard_of(key) == s,
        forall|t: int| 0 <= t < pre.shards@.len() && t != s ==> post.shards@[t] == pre.shards@[t],
        shard_map(post.shards@[s]@) =~= shard_map(pre.shards@[s]@).remove(key),
    ensures
        post@ =~= pre@.remove(key),
{
}

} // verus!
