//! Backing storage for the registries: association lists with unique keys,
//! viewed as mathematical maps. One exec map per key type (ports, plugs,
//! cables), all proved against the shared lemmas below.

use vstd::prelude::*;
use crate::cable::CableId;
use crate::plug::PlugId;
use crate::port::PortId;

verus! {

/// The mathematical contents of an association list: later entries shadow
/// earlier ones, so the last write for a key wins.
pub open spec fn assoc_map<K, V>(s: Seq<(K, V)>) -> Map<K, V>
    decreases s.len(),
{
    if s.len() == 0 {
        Map::empty()
    } else {
        assoc_map(s.drop_last()).insert(s.last().0, s.last().1)
    }
}

/// No key occurs twice in the list.
pub open spec fn keys_unique<K, V>(s: Seq<(K, V)>) -> bool {
    forall|i: int, j: int|
        0 <= i < j < s.len() ==> (#[trigger] s[i]).0 != (#[trigger] s[j]).0
}

/// A key is in the map's domain exactly when some entry carries it.
pub proof fn lemma_assoc_map_contains<K, V>(s: Seq<(K, V)>, k: K)
    ensures
        assoc_map(s).contains_key(k) <==> exists|i: int|
            0 <= i < s.len() && (#[trigger] s[i]).0 == k,
    decreases s.len(),
{
    if s.len() > 0 {
        lemma_assoc_map_contains(s.drop_last(), k);
        if s.last().0 == k {
            assert(s[s.len() - 1].0 == k);
        } else {
            if assoc_map(s).contains_key(k) {
                let i = choose|i: int|
                    0 <= i < s.drop_last().len() && (#[trigger] s.drop_last()[i]).0 == k;
                assert(s[i].0 == k);
            }
            if exists|i: int| 0 <= i < s.len() && (#[trigger] s[i]).0 == k {
                let i = choose|i: int| 0 <= i < s.len() && (#[trigger] s[i]).0 == k;
                assert(i < s.len() - 1);
                assert(s.drop_last()[i].0 == k);
            }
        }
    }
}

/// An association list whose map is empty has no entries at all.
pub proof fn lemma_assoc_map_empty<K, V>(s: Seq<(K, V)>)
    requires
        assoc_map(s) == Map::<K, V>::empty(),
    ensures
        s.len() == 0,
{
    if s.len() > 0 {
        lemma_assoc_map_contains(s, s.last().0);
        assert(s[s.len() - 1].0 == s.last().0);
        assert(assoc_map(s).contains_key(s.last().0));
    }
}

/// Removing an entry keeps the remaining keys unique.
pub proof fn lemma_keys_unique_remove<K, V>(s: Seq<(K, V)>, i: int)
    requires
        keys_unique(s),
        0 <= i < s.len(),
    ensures
        keys_unique(s.remove(i)),
{
    s.remove_ensures(i);
    assert forall|a: int, b: int|
        0 <= a < b < s.remove(i).len() implies (#[trigger] s.remove(i)[a]).0
        != (#[trigger] s.remove(i)[b]).0 by {
        let a2: int = if a < i { a } else { a + 1 };
        let b2: int = if b < i { b } else { b + 1 };
        assert(s.remove(i)[a] == s[a2]);
        assert(s.remove(i)[b] == s[b2]);
        assert(0 <= a2 < b2 < s.len());
    }
}

/// With unique keys, dropping the entry that carries a key is the same as
/// removing that key from the map.
pub proof fn lemma_assoc_map_remove<K, V>(s: Seq<(K, V)>, i: int)
    requires
        keys_unique(s),
        0 <= i < s.len(),
    ensures
        assoc_map(s.remove(i)) == assoc_map(s).remove(s[i].0),
    decreases s.len(),
{
    let k = s[i].0;
    s.remove_ensures(i);
    if i == s.len() - 1 {
        assert(s.remove(i) =~= s.drop_last());
        lemma_assoc_map_contains(s.drop_last(), k);
        assert forall|j: int|
            0 <= j < s.drop_last().len() implies (#[trigger] s.drop_last()[j]).0 != k by {
            assert(s.drop_last()[j] == s[j]);
            assert(s[j].0 != s[i].0);
        }
        assert(!assoc_map(s.drop_last()).contains_key(k));
        assert(assoc_map(s).remove(k) =~= assoc_map(s.drop_last()));
    } else {
        let d = s.drop_last();
        assert forall|a: int, b: int|
            0 <= a < b < d.len() implies (#[trigger] d[a]).0 != (#[trigger] d[b]).0 by {
            assert(d[a] == s[a]);
            assert(d[b] == s[b]);
        }
        assert(d[i] == s[i]);
        lemma_assoc_map_remove(d, i);
        assert(s.remove(i).drop_last() =~= d.remove(i));
        assert(s.remove(i)[s.len() - 2] == s[s.len() - 1]);
        assert(s.remove(i).last() == s.last());
        assert(s[i].0 != s[s.len() - 1].0);
        assert(assoc_map(d).remove(k).insert(s.last().0, s.last().1) =~= assoc_map(d).insert(
            s.last().0,
            s.last().1,
        ).remove(k));
        assert(assoc_map(s.remove(i)) == assoc_map(s.remove(i).drop_last()).insert(
            s.remove(i).last().0,
            s.remove(i).last().1,
        ));
        assert(assoc_map(s.remove(i)) == assoc_map(s).remove(k));
    }
}

/// Replacing the entry that carries a key (drop it, append the new pair)
/// acts on the map as a plain insert, and keeps the keys unique.
pub proof fn lemma_insert_found<K, V>(s: Seq<(K, V)>, i: int, k: K, v: V)
    requires
        keys_unique(s),
        0 <= i < s.len(),
        s[i].0 == k,
    ensures
        assoc_map(s.remove(i).push((k, v))) == assoc_map(s).insert(k, v),
        keys_unique(s.remove(i).push((k, v))),
{
    lemma_assoc_map_remove(s, i);
    lemma_keys_unique_remove(s, i);
    s.remove_ensures(i);
    let t = s.remove(i).push((k, v));
    assert(t.drop_last() =~= s.remove(i));
    assert(t.last() == (k, v));
    assert(assoc_map(t) == assoc_map(s.remove(i)).insert(k, v));
    assert(assoc_map(s).remove(k).insert(k, v) =~= assoc_map(s).insert(k, v));
    assert forall|a: int, b: int|
        0 <= a < b < t.len() implies (#[trigger] t[a]).0 != (#[trigger] t[b]).0 by {
        if b == t.len() - 1 {
            let a2: int = if a < i { a } else { a + 1 };
            assert(t[a] == s.remove(i)[a]);
            assert(s.remove(i)[a] == s[a2]);
            assert(a2 != i);
            assert(s[a2].0 != s[i].0);
        } else {
            assert(t[a] == s.remove(i)[a]);
            assert(t[b] == s.remove(i)[b]);
        }
    }
}

/// Appending a pair whose key is absent acts on the map as a plain insert,
/// and keeps the keys unique.
pub proof fn lemma_insert_fresh<K, V>(s: Seq<(K, V)>, k: K, v: V)
    requires
        keys_unique(s),
        forall|j: int| 0 <= j < s.len() ==> (#[trigger] s[j]).0 != k,
    ensures
        assoc_map(s.push((k, v))) == assoc_map(s).insert(k, v),
        keys_unique(s.push((k, v))),
{
    let t = s.push((k, v));
    assert(t.drop_last() =~= s);
    assert(t.last() == (k, v));
    assert forall|a: int, b: int|
        0 <= a < b < t.len() implies (#[trigger] t[a]).0 != (#[trigger] t[b]).0 by {
        if b == t.len() - 1 {
            assert(t[a] == s[a]);
        } else {
            assert(t[a] == s[a]);
            assert(t[b] == s[b]);
        }
    }
}

/// One step of the backwards scan a lookup makes: the prefix one longer
/// either settles the key at this entry or leaves it to the shorter prefix.
pub proof fn lemma_assoc_map_take_step<K, V>(s: Seq<(K, V)>, i: int, k: K)
    requires
        0 <= i < s.len(),
    ensures
        s[i].0 == k ==> assoc_map(s.take(i + 1)).contains_key(k) && assoc_map(s.take(i + 1))[k]
            == s[i].1,
        s[i].0 != k ==> (assoc_map(s.take(i + 1)).contains_key(k) <==> assoc_map(
            s.take(i),
        ).contains_key(k)),
        s[i].0 != k && assoc_map(s.take(i + 1)).contains_key(k) ==> assoc_map(s.take(i + 1))[k]
            == assoc_map(s.take(i))[k],
{
    assert(s.take(i + 1).drop_last() =~= s.take(i));
    assert(s.take(i + 1).last() == s[i]);
    assert(assoc_map(s.take(i + 1)) == assoc_map(s.take(i)).insert(s[i].0, s[i].1));
}

/// Per-frame-persistent mapping keyed by ports.
pub struct PortMap<V> {
    entries: Vec<(PortId, V)>,
}

impl<V> View for PortMap<V> {
    type V = Map<PortId, V>;

    closed spec fn view(&self) -> Map<PortId, V> {
        assoc_map(self.entries@)
    }
}

impl<V> PortMap<V> {
    /// Well-formed: the backing list holds each key at most once.
    pub closed spec fn wf(&self) -> bool {
        keys_unique(self.entries@)
    }

    pub fn new() -> (r: Self)
        ensures
            r@ == Map::<PortId, V>::empty(),
            r.wf(),
    {
        let r = PortMap { entries: Vec::new() };
        proof {
            assert(r@ =~= Map::<PortId, V>::empty());
        }
        r
    }

    /// Overwrites (or inserts) the value stored for `k`; the last call wins.
    pub fn insert(&mut self, k: PortId, v: V)
        requires
            old(self).wf(),
        ensures
            final(self).wf(),
            final(self)@ == old(self)@.insert(k, v),
    {
        let ghost s0 = self.entries@;
        let mut i: usize = 0;
        while i < self.entries.len()
            invariant
                self.entries@ == s0,
                old(self).entries@ == s0,
                keys_unique(s0),
                i <= s0.len(),
                forall|j: int| 0 <= j < i ==> (#[trigger] s0[j]).0 != k,
            decreases s0.len() - i,
        {
            if self.entries[i].0 == k {
                self.entries.remove(i);
                self.entries.push((k, v));
                proof {
                    lemma_insert_found(s0, i as int, k, v);
                }
                return ;
            }
            i += 1;
        }
        self.entries.push((k, v));
        proof {
            lemma_insert_fresh(s0, k, v);
        }
    }

    /// Returns the most recently written value for `k`, or none if never written.
    pub fn get(&self, k: PortId) -> (r: Option<V>) where V: Copy
        ensures
            (match r {
                Some(v) => self@.contains_key(k) && v == self@[k],
                None => !self@.contains_key(k),
            }),
    {
        let ghost s = self.entries@;
        proof {
            assert(s.take(s.len() as int) =~= s);
        }
        let mut i: usize = self.entries.len();
        while i > 0
            invariant
                self.entries@ == s,
                i <= s.len(),
                assoc_map(s).contains_key(k) <==> assoc_map(s.take(i as int)).contains_key(k),
                assoc_map(s).contains_key(k) ==> assoc_map(s)[k] == assoc_map(s.take(i as int))[k],
            decreases i,
        {
            i = i - 1;
            proof {
                lemma_assoc_map_take_step(s, i as int, k);
            }
            if self.entries[i].0 == k {
                return Some(self.entries[i].1);
            }
        }
        None
    }

    /// Forgets every entry.
    pub fn clear(&mut self)
        ensures
            final(self).wf(),
            final(self)@ == Map::<PortId, V>::empty(),
    {
        self.entries.clear();
        proof {
            assert(self@ =~= Map::<PortId, V>::empty());
        }
    }
}

/// Per-frame-persistent mapping keyed by plugs.
pub struct PlugMap<V> {
    entries: Vec<(PlugId, V)>,
}

impl<V> View for PlugMap<V> {
    type V = Map<PlugId, V>;

    closed spec fn view(&self) -> Map<PlugId, V> {
        assoc_map(self.entries@)
    }
}

impl<V> PlugMap<V> {
    /// Well-formed: the backing list holds each key at most once.
    pub closed spec fn wf(&self) -> bool {
        keys_unique(self.entries@)
    }

    pub fn new() -> (r: Self)
        ensures
            r@ == Map::<PlugId, V>::empty(),
            r.wf(),
    {
        let r = PlugMap { entries: Vec::new() };
        proof {
            assert(r@ =~= Map::<PlugId, V>::empty());
        }
        r
    }

    /// Overwrites (or inserts) the value stored for `k`; the last call wins.
    pub fn insert(&mut self, k: PlugId, v: V)
        requires
            old(self).wf(),
        ensures
            final(self).wf(),
            final(self)@ == old(self)@.insert(k, v),
    {
        let ghost s0 = self.entries@;
        let mut i: usize = 0;
        while i < self.entries.len()
            invariant
                self.entries@ == s0,
                old(self).entries@ == s0,
                keys_unique(s0),
                i <= s0.len(),
                forall|j: int| 0 <= j < i ==> (#[trigger] s0[j]).0 != k,
            decreases s0.len() - i,
        {
            if self.entries[i].0 == k {
                self.entries.remove(i);
                self.entries.push((k, v));
                proof {
                    lemma_insert_found(s0, i as int, k, v);
                }
                return ;
            }
            i += 1;
        }
        self.entries.push((k, v));
        proof {
            lemma_insert_fresh(s0, k, v);
        }
    }

    /// Returns the most recently written value for `k`, or none if never written.
    pub fn get(&self, k: PlugId) -> (r: Option<V>) where V: Copy
        ensures
            (match r {
                Some(v) => self@.contains_key(k) && v == self@[k],
                None => !self@.contains_key(k),
            }),
    {
        let ghost s = self.entries@;
        proof {
            assert(s.take(s.len() as int) =~= s);
        }
        let mut i: usize = self.entries.len();
        while i > 0
            invariant
                self.entries@ == s,
                i <= s.len(),
                assoc_map(s).contains_key(k) <==> assoc_map(s.take(i as int)).contains_key(k),
                assoc_map(s).contains_key(k) ==> assoc_map(s)[k] == assoc_map(s.take(i as int))[k],
            decreases i,
        {
            i = i - 1;
            proof {
                lemma_assoc_map_take_step(s, i as int, k);
            }
            if self.entries[i].0 == k {
                return Some(self.entries[i].1);
            }
        }
        None
    }
}

/// Frame-scoped mapping keyed by cables.
pub struct CableMap<V> {
    entries: Vec<(CableId, V)>,
}

impl<V> View for CableMap<V> {
    type V = Map<CableId, V>;

    closed spec fn view(&self) -> Map<CableId, V> {
        assoc_map(self.entries@)
    }
}

impl<V> CableMap<V> {
    /// Well-formed: the backing list holds each key at most once.
    pub closed spec fn wf(&self) -> bool {
        keys_unique(self.entries@)
    }

    pub fn new() -> (r: Self)
        ensures
            r@ == Map::<CableId, V>::empty(),
            r.wf(),
    {
        let r = CableMap { entries: Vec::new() };
        proof {
            assert(r@ =~= Map::<CableId, V>::empty());
        }
        r
    }

    /// Overwrites (or inserts) the value stored for `k`; the last call wins.
    pub fn insert(&mut self, k: CableId, v: V)
        requires
            old(self).wf(),
        ensures
            final(self).wf(),
            final(self)@ == old(self)@.insert(k, v),
    {
        let ghost s0 = self.entries@;
        let mut i: usize = 0;
        while i < self.entries.len()
            invariant
                self.entries@ == s0,
                old(self).entries@ == s0,
                keys_unique(s0),
                i <= s0.len(),
                forall|j: int| 0 <= j < i ==> (#[trigger] s0[j]).0 != k,
            decreases s0.len() - i,
        {
            if self.entries[i].0 == k {
                self.entries.remove(i);
                self.entries.push((k, v));
                proof {
                    lemma_insert_found(s0, i as int, k, v);
                }
                return ;
            }
            i += 1;
        }
        self.entries.push((k, v));
        proof {
            lemma_insert_fresh(s0, k, v);
        }
    }

    /// Hands out every entry and leaves the mapping empty. With unique keys,
    /// the returned list enumerates the old map, in no promised order.
    pub fn take_entries(&mut self) -> (r: Vec<(CableId, V)>)
        requires
            old(self).wf(),
        ensures
            final(self).wf(),
            final(self)@ == Map::<CableId, V>::empty(),
            assoc_map(r@) == old(self)@,
            keys_unique(r@),
    {
        let mut r: Vec<(CableId, V)> = Vec::new();
        core::mem::swap(&mut r, &mut self.entries);
        proof {
            assert(self@ =~= Map::<CableId, V>::empty());
        }
        r
    }
}

} // verus!
