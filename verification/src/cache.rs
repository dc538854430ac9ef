//! An explicitly-owned, explicitly-invalidated metadata lookup table.
//!
//! The surrounding client caches decoded chain metadata under string keys.
//! The table owns its entries, holds each key at most once, and is emptied
//! only by an explicit call.

use vstd::prelude::*;

verus! {

/// The value bound to the first entry carrying the key, if any.
pub open spec fn lookup_seq<V>(s: Seq<(String, V)>, k: Seq<char>) -> Option<V>
    decreases s.len(),
{
    if s.len() == 0 {
        None
    } else if s[0].0@ == k {
        Some(s[0].1)
    } else {
        lookup_seq(s.drop_first(), k)
    }
}

/// Entries that do not carry the key do not affect the lookup.
proof fn lemma_lookup_skip<V>(s: Seq<(String, V)>, k: Seq<char>, i: int)
    requires
        0 <= i <= s.len(),
        forall|j: int| 0 <= j < i ==> (#[trigger] s[j]).0@ != k,
    ensures
        lookup_seq(s, k) == lookup_seq(s.skip(i), k),
    decreases i,
{
    if i == 0 {
        assert(s.skip(0) =~= s);
    } else {
        let rest = s.drop_first();
        assert forall|j: int| 0 <= j < i - 1 implies (#[trigger] rest[j]).0@ != k by {
            assert(rest[j] == s[j + 1]);
        }
        lemma_lookup_skip(rest, k, i - 1);
        assert(rest.skip(i - 1) =~= s.skip(i));
    }
}

/// Replacing the entry at `i` by one carrying the same key leaves every
/// other key's lookup unchanged.
proof fn lemma_lookup_update_other<V>(s: Seq<(String, V)>, i: int, e: (String, V), k: Seq<char>)
    requires
        0 <= i < s.len(),
        e.0@ == s[i].0@,
        k != e.0@,
    ensures
        lookup_seq(s.update(i, e), k) == lookup_seq(s, k),
    decreases s.len(),
{
    let t = s.update(i, e);
    if i == 0 {
        assert(t[0] == e);
        assert(t.drop_first() =~= s.drop_first());
    } else {
        assert(t[0] == s[0]);
        assert(t.drop_first() =~= s.drop_first().update(i - 1, e));
        assert(s.drop_first()[i - 1] == s[i]);
        lemma_lookup_update_other(s.drop_first(), i - 1, e, k);
    }
}

/// After replacing the entry at `i` by one carrying the same key, looking
/// that key up finds the new value, provided no earlier entry carries it.
proof fn lemma_lookup_update_hit<V>(s: Seq<(String, V)>, i: int, e: (String, V))
    requires
        0 <= i < s.len(),
        e.0@ == s[i].0@,
        forall|j: int| 0 <= j < i ==> (#[trigger] s[j]).0@ != e.0@,
    ensures
        lookup_seq(s.update(i, e), e.0@) == Some(e.1),
    decreases i,
{
    let t = s.update(i, e);
    if i == 0 {
        assert(t[0] == e);
    } else {
        assert(t[0] == s[0]);
        assert(t.drop_first() =~= s.drop_first().update(i - 1, e));
        assert forall|j: int| 0 <= j < i - 1 implies (#[trigger] s.drop_first()[j]).0@ != e.0@ by {
            assert(s.drop_first()[j] == s[j + 1]);
        }
        assert(s.drop_first()[i - 1] == s[i]);
        lemma_lookup_update_hit(s.drop_first(), i - 1, e);
    }
}

/// Appending an entry leaves every other key's lookup unchanged, and a key
/// absent before is found at the appended entry.
proof fn lemma_lookup_push<V>(s: Seq<(String, V)>, e: (String, V), k: Seq<char>)
    ensures
        k != e.0@ ==> lookup_seq(s.push(e), k) == lookup_seq(s, k),
        (forall|j: int| 0 <= j < s.len() ==> (#[trigger] s[j]).0@ != e.0@) ==> lookup_seq(
            s.push(e),
            e.0@,
        ) == Some(e.1),
    decreases s.len(),
{
    let t = s.push(e);
    if s.len() == 0 {
        assert(t[0] == e);
        assert(t.drop_first() =~= Seq::<(String, V)>::empty());
    } else {
        assert(t[0] == s[0]);
        assert(t.drop_first() =~= s.drop_first().push(e));
        lemma_lookup_push(s.drop_first(), e, k);
        if forall|j: int| 0 <= j < s.len() ==> (#[trigger] s[j]).0@ != e.0@ {
            assert forall|j: int|
                0 <= j < s.drop_first().len() implies (#[trigger] s.drop_first()[j]).0@
                    != e.0@ by {
                assert(s.drop_first()[j] == s[j + 1]);
            }
            lemma_lookup_push(s.drop_first(), e, e.0@);
        }
    }
}

/// An owned lookup table from string keys to cached values; each key is
/// held at most once.
pub struct MetadataCache<V> {
    entries: Vec<(String, V)>,
}

impl<V> MetadataCache<V> {
    /// The stored entries.
    pub closed spec fn entries_spec(self) -> Seq<(String, V)> {
        self.entries@
    }

    /// The value cached under a key.
    pub open spec fn lookup(self, k: Seq<char>) -> Option<V> {
        lookup_seq(self.entries_spec(), k)
    }

    /// No key occurs twice.
    pub closed spec fn wf(self) -> bool {
        forall|i: int, j: int|
            0 <= i < j < self.entries@.len() ==> (#[trigger] self.entries@[i]).0@ != (
            #[trigger] self.entries@[j]).0@
    }

    /// An empty table.
    pub fn new() -> (c: MetadataCache<V>)
        ensures
            c.wf(),
            c.entries_spec().len() == 0,
    {
        MetadataCache { entries: Vec::new() }
    }

    /// How many entries are cached.
    pub fn len(&self) -> (n: usize)
        ensures
            n == self.entries_spec().len(),
    {
        self.entries.len()
    }

    /// Drop every entry.
    pub fn clear(&mut self)
        ensures
            final(self).wf(),
            final(self).entries_spec().len() == 0,
    {
        self.entries.clear();
    }

    /// The value cached under `key`, if any.
    pub fn get(&self, key: &String) -> (r: Option<&V>)
        ensures
            r is Some <==> self.lookup(key@) is Some,
            r matches Some(v) ==> self.lookup(key@) == Some(*v),
    {
        let mut i: usize = 0;
        while i < self.entries.len()
            invariant
                i <= self.entries@.len(),
                forall|j: int| 0 <= j < i ==> (#[trigger] self.entries@[j]).0@ != key@,
            decreases self.entries@.len() - i,
        {
            if self.entries[i].0 == *key {
                proof {
                    lemma_lookup_skip(self.entries@, key@, i as int);
                    assert(self.entries@.skip(i as int)[0] == self.entries@[i as int]);
                }
                return Some(&self.entries[i].1);
            }
            i += 1;
        }
        proof {
            lemma_lookup_skip(self.entries@, key@, self.entries@.len() as int);
            assert(self.entries@.skip(self.entries@.len() as int) =~= Seq::<(String, V)>::empty());
        }
        None
    }

    /// Bind `key` to `value`: a present key has its value replaced, an
    /// absent key gains a fresh entry. No other key's binding changes.
    pub fn insert(&mut self, key: String, value: V)
        requires
            old(self).wf(),
        ensures
            final(self).wf(),
            final(self).lookup(key@) == Some(value),
            forall|k: Seq<char>| k != key@ ==> final(self).lookup(k) == old(self).lookup(k),
            final(self).entries_spec().len() == old(self).entries_spec().len() + (
            if old(self).lookup(key@) is Some {
                0int
            } else {
                1int
            }),
    {
        let mut i: usize = 0;
        while i < self.entries.len()
            invariant
                old(self).wf(),
                i <= self.entries@.len(),
                self.entries@ == old(self).entries_spec(),
                forall|j: int| 0 <= j < i ==> (#[trigger] self.entries@[j]).0@ != key@,
            decreases self.entries@.len() - i,
        {
            if self.entries[i].0 == key {
                proof {
                    let s0 = old(self).entries_spec();
                    lemma_lookup_skip(s0, key@, i as int);
                    assert(s0.skip(i as int)[0] == s0[i as int]);
                }
                let entry = (key, value);
                let ghost ge = entry;
                self.entries.remove(i);
                self.entries.insert(i, entry);
                proof {
                    let s0 = old(self).entries_spec();
                    assert(self.entries@ =~= s0.update(i as int, ge));
                    lemma_lookup_update_hit(s0, i as int, ge);
                    assert forall|k: Seq<char>| k != ge.0@ implies lookup_seq(
                        s0.update(i as int, ge),
                        k,
                    ) == lookup_seq(s0, k) by {
                        lemma_lookup_update_other(s0, i as int, ge, k);
                    }
                    assert forall|a: int, b: int|
                        0 <= a < b < self.entries@.len() implies (#[trigger] self.entries@[a]).0@
                            != (#[trigger] self.entries@[b]).0@ by {
                        assert(self.entries@[a].0@ == s0[a].0@);
                        assert(self.entries@[b].0@ == s0[b].0@);
                    }
                }
                return ;
            }
            i += 1;
        }
        proof {
            let s0 = old(self).entries_spec();
            lemma_lookup_skip(s0, key@, s0.len() as int);
            assert(s0.skip(s0.len() as int) =~= Seq::<(String, V)>::empty());
        }
        let entry = (key, value);
        let ghost ge = entry;
        self.entries.push(entry);
        proof {
            let s0 = old(self).entries_spec();
            assert(self.entries@ == s0.push(ge));
            assert forall|k: Seq<char>| k != ge.0@ implies lookup_seq(s0.push(ge), k) == lookup_seq(
                s0,
                k,
            ) by {
                lemma_lookup_push(s0, ge, k);
            }
            lemma_lookup_push(s0, ge, ge.0@);
            assert forall|a: int, b: int|
                0 <= a < b < self.entries@.len() implies (#[trigger] self.entries@[a]).0@ != (
            #[trigger] self.entries@[b]).0@ by {
                if b < s0.len() {
                } else {
                    assert(self.entries@[b] == ge);
                    assert(self.entries@[a].0@ == s0[a].0@);
                }
            }
        }
    }
}

} // verus!
