//! Small collections keyed by text, kept in the order in which their keys arrived.
use vstd::prelude::*;

use crate::text::same_text;

verus! {

/// A map from text to values.
pub struct StringMap<V> {
    entries: Vec<(String, V)>,
}

/// The map that a list of entries stands for.
closed spec fn map_of<V>(entries: Seq<(String, V)>) -> Map<Seq<char>, V>
    decreases entries.len(),
{
    if entries.len() == 0 {
        Map::empty()
    } else {
        map_of(entries.drop_last()).insert(entries.last().0@, entries.last().1)
    }
}

/// No key is listed twice.
closed spec fn distinct_keys<V>(entries: Seq<(String, V)>) -> bool {
    forall|i: int, j: int|
        0 <= i < j < entries.len() ==> (#[trigger] entries[i]).0@ != (#[trigger] entries[j]).0@
}

impl<V> View for StringMap<V> {
    type V = Map<Seq<char>, V>;

    closed spec fn view(&self) -> Map<Seq<char>, V> {
        map_of(self.entries@)
    }
}

proof fn map_of_entries<V>(entries: Seq<(String, V)>)
    requires
        distinct_keys(entries),
    ensures
        map_of(entries).dom().finite(),
        map_of(entries).dom().len() == entries.len(),
        forall|i: int|
            0 <= i < entries.len() ==> map_of(entries).contains_key(
                (#[trigger] entries[i]).0@,
            ) && map_of(entries)[entries[i].0@] == entries[i].1,
        forall|k: Seq<char>|
            #[trigger] map_of(entries).contains_key(k) ==> exists|i: int|
                0 <= i < entries.len() && (#[trigger] entries[i]).0@ == k,
    decreases entries.len(),
{
    if entries.len() > 0 {
        let front = entries.drop_last();
        map_of_entries(front);
        assert forall|i: int| 0 <= i < entries.len() implies map_of(entries).contains_key(
            (#[trigger] entries[i]).0@,
        ) && map_of(entries)[entries[i].0@] == entries[i].1 by {
            if i < front.len() {
                assert(front[i] == entries[i]);
            }
        }
        assert forall|k: Seq<char>| #[trigger] map_of(entries).contains_key(k) implies exists|i: int|
            0 <= i < entries.len() && (#[trigger] entries[i]).0@ == k by {
            if k != entries.last().0@ {
                assert(map_of(front).contains_key(k));
                let i = choose|i: int| 0 <= i < front.len() && (#[trigger] front[i]).0@ == k;
                assert(entries[i].0@ == k);
            }
        }
        assert(!map_of(front).contains_key(entries.last().0@));
        assert(map_of(entries).dom() =~= map_of(front).dom().insert(entries.last().0@));
    } else {
        assert(map_of(entries).dom() =~= Set::empty());
    }
}

/// Entries that pair the same keys with the same values stand for the same map.
proof fn map_of_unique<V>(entries: Seq<(String, V)>, m: Map<Seq<char>, V>)
    requires
        distinct_keys(entries),
        forall|i: int|
            0 <= i < entries.len() ==> m.contains_pair(
                (#[trigger] entries[i]).0@,
                entries[i].1,
            ),
        forall|k: Seq<char>|
            #[trigger] m.contains_key(k) ==> exists|i: int|
                0 <= i < entries.len() && (#[trigger] entries[i]).0@ == k,
    ensures
        map_of(entries) == m,
{
    map_of_entries(entries);
    let e = map_of(entries);
    assert forall|k: Seq<char>| e.contains_key(k) <==> m.contains_key(k) by {
        if e.contains_key(k) {
            let i = choose|i: int| 0 <= i < entries.len() && (#[trigger] entries[i]).0@ == k;
            assert(m.contains_pair(entries[i].0@, entries[i].1));
        }
        if m.contains_key(k) {
            let i = choose|i: int| 0 <= i < entries.len() && (#[trigger] entries[i]).0@ == k;
            assert(e.contains_key(entries[i].0@));
        }
    }
    assert forall|k: Seq<char>| e.contains_key(k) implies e[k] == m[k] by {
        let i = choose|i: int| 0 <= i < entries.len() && (#[trigger] entries[i]).0@ == k;
        assert(m.contains_pair(entries[i].0@, entries[i].1));
    }
    assert(e =~= m);
}

impl<V> StringMap<V> {
    #[verifier::type_invariant]
    spec fn inv(self) -> bool {
        distinct_keys(self.entries@)
    }

    /// An empty map.
    pub fn new() -> (r: Self)
        ensures
            r@ == Map::<Seq<char>, V>::empty(),
    {
        StringMap { entries: Vec::new() }
    }

    fn position(&self, key: &str) -> (r: Option<usize>)
        ensures
            match r {
                Some(i) => i < self.entries@.len() && self.entries@[i as int].0@ == key@,
                None => forall|i: int|
                    0 <= i < self.entries@.len() ==> (#[trigger] self.entries@[i]).0@ != key@,
            },
    {
        let mut i: usize = 0;
        while i < self.entries.len()
            invariant
                i <= self.entries@.len(),
                forall|j: int| 0 <= j < i ==> (#[trigger] self.entries@[j]).0@ != key@,
            decreases self.entries@.len() - i,
        {
            if same_text(self.entries[i].0.as_str(), key) {
                return Some(i);
            }
            i = i + 1;
        }
        None
    }

    /// The value stored under `key`.
    pub fn get(&self, key: &str) -> (r: Option<&V>)
        ensures
            r == (if self@.contains_key(key@) {
                Some(&self@[key@])
            } else {
                None
            }),
    {
        proof {
            use_type_invariant(self);
            map_of_entries(self.entries@);
        }
        match self.position(key) {
            Some(i) => Some(&self.entries[i].1),
            None => None,
        }
    }

    /// Is there a value under `key`?
    pub fn contains_key(&self, key: &str) -> (r: bool)
        ensures
            r == self@.contains_key(key@),
    {
        self.get(key).is_some()
    }

    /// The number of keys.
    pub fn len(&self) -> (r: usize)
        ensures
            self@.dom().finite(),
            r == self@.dom().len(),
    {
        proof {
            use_type_invariant(self);
            map_of_entries(self.entries@);
        }
        self.entries.len()
    }

    /// The keys with their values.
    pub fn entries(&self) -> (r: &Vec<(String, V)>)
        ensures
            r@.len() == self@.dom().len(),
            forall|i: int|
                0 <= i < r@.len() ==> self@.contains_pair((#[trigger] r@[i]).0@, r@[i].1),
            forall|k: Seq<char>|
                #[trigger] self@.contains_key(k) ==> exists|i: int|
                    0 <= i < r@.len() && (#[trigger] r@[i]).0@ == k,
            forall|i: int, j: int|
                0 <= i < j < r@.len() ==> (#[trigger] r@[i]).0@ != (#[trigger] r@[j]).0@,
    {
        proof {
            use_type_invariant(self);
            map_of_entries(self.entries@);
        }
        &self.entries
    }

    /// Stores `value` under `key`, in place of what stood there.
    pub fn insert(&mut self, key: String, value: V)
        ensures
            final(self)@ == old(self)@.insert(key@, value),
    {
        proof {
            use_type_invariant(&*self);
            map_of_entries(self.entries@);
        }
        let ghost before = self.entries@;
        let ghost m = self@.insert(key@, value);
        let found: Option<usize> = self.position(key.as_str());
        let mut entries: Vec<(String, V)> = Vec::new();
        std::mem::swap(&mut entries, &mut self.entries);
        match found {
            Some(p) => {
                entries.set(p, (key, value));
                proof {
                    assert(entries@ =~= before.update(p as int, (key, value)));
                    assert forall|k: Seq<char>| #[trigger] m.contains_key(k) implies exists|i: int|
                        0 <= i < entries@.len() && (#[trigger] entries@[i]).0@ == k by {
                        if k == key@ {
                            assert(entries@[p as int].0@ == k);
                        } else {
                            assert(map_of(before).contains_key(k));
                            let i = choose|i: int|
                                0 <= i < before.len() && (#[trigger] before[i]).0@ == k;
                            assert(entries@[i].0@ == k);
                        }
                    }
                }
            },
            None => {
                entries.push((key, value));
                proof {
                    assert forall|k: Seq<char>| #[trigger] m.contains_key(k) implies exists|i: int|
                        0 <= i < entries@.len() && (#[trigger] entries@[i]).0@ == k by {
                        if k == key@ {
                            assert(entries@[before.len() as int].0@ == k);
                        } else {
                            assert(map_of(before).contains_key(k));
                            let i = choose|i: int|
                                0 <= i < before.len() && (#[trigger] before[i]).0@ == k;
                            assert(entries@[i].0@ == k);
                        }
                    }
                }
            },
        }
        proof {
            map_of_unique(entries@, m);
        }
        self.entries = entries;
    }
}

impl StringMap<u64> {
    /// Drops the entries whose value lies `ttl` or more before `now`.
    pub fn retain_since(&mut self, now: u64, ttl: u64)
        ensures
            final(self)@ == old(self)@.restrict(
                Set::new(|k: Seq<char>| old(self)@.contains_key(k) && now - old(self)@[k] < ttl),
            ),
    {
        proof {
            use_type_invariant(&*self);
            map_of_entries(self.entries@);
        }
        let ghost before = self.entries@;
        let ghost m = self@.restrict(
            Set::new(|k: Seq<char>| self@.contains_key(k) && now - self@[k] < ttl),
        );
        let mut kept: Vec<(String, u64)> = Vec::new();
        let mut i: usize = 0;
        while i < self.entries.len()
            invariant
                i <= self.entries@.len(),
                self.entries@ == before,
                distinct_keys(before),
                distinct_keys(kept@),
                forall|j: int|
                    0 <= j < kept@.len() ==> now - (#[trigger] kept@[j]).1 < ttl && exists|o: int|
                        0 <= o < i && #[trigger] before[o] == kept@[j],
                forall|o: int|
                    0 <= o < i && now - (#[trigger] before[o]).1 < ttl ==> exists|j: int|
                        0 <= j < kept@.len() && #[trigger] kept@[j] == before[o],
            decreases self.entries@.len() - i,
        {
            let at: u64 = self.entries[i].1;
            if now < at || now - at < ttl {
                let ghost was = kept@;
                kept.push((self.entries[i].0.clone(), at));
                proof {
                    assert(kept@ =~= was.push(before[i as int]));
                    assert forall|j: int, l: int| 0 <= j < l < kept@.len() implies (
                    #[trigger] kept@[j]).0@ != (#[trigger] kept@[l]).0@ by {
                        let o = choose|o: int| 0 <= o < i && #[trigger] before[o] == was[j];
                        if l < was.len() {
                            assert(was[l] == kept@[l]);
                        }
                    }
                    assert forall|o: int| 0 <= o < i + 1 && now - (#[trigger] before[o]).1
                        < ttl implies exists|j: int|
                        0 <= j < kept@.len() && #[trigger] kept@[j] == before[o] by {
                        if o < i {
                            let j = choose|j: int| 0 <= j < was.len() && #[trigger] was[j] == before[o];
                            assert(kept@[j] == before[o]);
                        } else {
                            assert(kept@[was.len() as int] == before[o]);
                        }
                    }
                }
            }
            i = i + 1;
        }
        proof {
            assert forall|j: int| 0 <= j < kept@.len() implies m.contains_pair(
                (#[trigger] kept@[j]).0@,
                kept@[j].1,
            ) by {
                let o = choose|o: int| 0 <= o < before.len() && #[trigger] before[o] == kept@[j];
                assert(self@.contains_key(before[o].0@));
            }
            assert forall|k: Seq<char>| #[trigger] m.contains_key(k) implies exists|j: int|
                0 <= j < kept@.len() && (#[trigger] kept@[j]).0@ == k by {
                assert(self@.contains_key(k));
                let o = choose|o: int| 0 <= o < before.len() && (#[trigger] before[o]).0@ == k;
                let j = choose|j: int| 0 <= j < kept@.len() && #[trigger] kept@[j] == before[o];
                assert(kept@[j].0@ == k);
            }
            map_of_unique(kept@, m);
        }
        self.entries = kept;
    }
}

impl StringMap<String> {
    /// The text stored under each key.
    pub open spec fn texts(self) -> Map<Seq<char>, Seq<char>> {
        self@.map_values(|s: String| s@)
    }

    /// A copy.
    pub fn copy(&self) -> (r: Self)
        ensures
            r@ == self@,
    {
        proof {
            use_type_invariant(self);
        }
        let mut entries: Vec<(String, String)> = Vec::new();
        let mut i: usize = 0;
        while i < self.entries.len()
            invariant
                i <= self.entries@.len(),
                entries@ == self.entries@.take(i as int),
            decreases self.entries@.len() - i,
        {
            entries.push((self.entries[i].0.clone(), self.entries[i].1.clone()));
            assert(entries@ =~= self.entries@.take(i + 1));
            i = i + 1;
        }
        assert(entries@ =~= self.entries@);
        StringMap { entries }
    }
}

/// A set of texts.
pub struct StringSet {
    items: Vec<String>,
}

impl View for StringSet {
    type V = Set<Seq<char>>;

    closed spec fn view(&self) -> Set<Seq<char>> {
        Set::new(|k: Seq<char>| exists|i: int| 0 <= i < self.items@.len() && (#[trigger] self.items@[i])@ == k)
    }
}

impl StringSet {
    /// An empty set.
    pub fn new() -> (r: Self)
        ensures
            r@ == Set::<Seq<char>>::empty(),
    {
        let r = StringSet { items: Vec::new() };
        assert(r@ =~= Set::<Seq<char>>::empty());
        r
    }

    /// Adds `item`.
    pub fn insert(&mut self, item: String)
        ensures
            final(self)@ == old(self)@.insert(item@),
    {
        let ghost before = self.items@;
        self.items.push(item);
        proof {
            assert forall|k: Seq<char>| self@.contains(k) <==> old(self)@.insert(item@).contains(k) by {
                if k == item@ {
                    assert(self.items@[before.len() as int]@ == k);
                } else if old(self)@.contains(k) {
                    let i = choose|i: int| 0 <= i < before.len() && (#[trigger] before[i])@ == k;
                    assert(self.items@[i]@ == k);
                } else if self@.contains(k) {
                    let i = choose|i: int|
                        0 <= i < self.items@.len() && (#[trigger] self.items@[i])@ == k;
                    assert(before[i]@ == k);
                }
            }
            assert(self@ =~= old(self)@.insert(item@));
        }
    }

    /// Is `item` in the set?
    pub fn contains(&self, item: &str) -> (r: bool)
        ensures
            r == self@.contains(item@),
    {
        let mut i: usize = 0;
        while i < self.items.len()
            invariant
                i <= self.items@.len(),
                forall|j: int| 0 <= j < i ==> (#[trigger] self.items@[j])@ != item@,
            decreases self.items@.len() - i,
        {
            if same_text(self.items[i].as_str(), item) {
                return true;
            }
            i = i + 1;
        }
        false
    }
}

} // verus!
