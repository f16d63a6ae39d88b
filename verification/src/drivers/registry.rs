use vstd::prelude::*;
use vstd::utf8::encode_utf8;
use crate::multiaddr::{MultiAddr, all_tokens, path_values};
use crate::text::{ascii_chars, str_eq, to_lowercase, unicode_lower};

verus! {

/// The value of the first entry under `key`, if any.
pub open spec fn lookup<D>(entries: Seq<(Seq<char>, D)>, key: Seq<char>) -> Option<D>
    decreases entries.len(),
{
    if entries.len() == 0 {
        None
    } else if entries[0].0 == key {
        Some(entries[0].1)
    } else {
        lookup(entries.subrange(1, entries.len() as int), key)
    }
}

/// The entries with `key` set to `value`: the first entry under `key` is
/// replaced, or the entry is added at the end when there is none.
pub open spec fn with_entry<D>(entries: Seq<(Seq<char>, D)>, key: Seq<char>, value: D) -> Seq<(Seq<char>, D)>
    decreases entries.len(),
{
    if entries.len() == 0 {
        seq![(key, value)]
    } else if entries[0].0 == key {
        entries.update(0, (key, value))
    } else {
        seq![entries[0]] + with_entry(entries.subrange(1, entries.len() as int), key, value)
    }
}

pub(crate) proof fn lemma_lookup_at<D>(entries: Seq<(Seq<char>, D)>, key: Seq<char>, k: int)
    requires
        0 <= k <= entries.len(),
        forall|j: int| 0 <= j < k ==> entries[j].0 != key,
    ensures
        k < entries.len() && entries[k].0 == key ==> lookup(entries, key) == Some(entries[k].1)
            && with_entry(entries, key, entries[k].1) == entries,
        k == entries.len() ==> lookup(entries, key) is None,
    decreases k,
{
    if k > 0 {
        let t = entries.subrange(1, entries.len() as int);
        assert forall|j: int| 0 <= j < k - 1 implies t[j].0 != key by {
            assert(t[j] == entries[j + 1]);
        }
        lemma_lookup_at(t, key, k - 1);
        if k < entries.len() && entries[k].0 == key {
            assert(t[k - 1] == entries[k]);
            assert(seq![entries[0]] + t =~= entries);
        }
    } else if entries.len() > 0 && entries[0].0 == key {
        assert(entries.update(0, (key, entries[0].1)) =~= entries);
    }
}

pub(crate) proof fn lemma_with_entry_at<D>(entries: Seq<(Seq<char>, D)>, key: Seq<char>, value: D, k: int)
    requires
        0 <= k <= entries.len(),
        forall|j: int| 0 <= j < k ==> entries[j].0 != key,
    ensures
        k < entries.len() && entries[k].0 == key ==> with_entry(entries, key, value) == entries.update(k, (key, value)),
        k == entries.len() ==> with_entry(entries, key, value) == entries.push((key, value)),
    decreases k,
{
    if k > 0 {
        let t = entries.subrange(1, entries.len() as int);
        assert forall|j: int| 0 <= j < k - 1 implies t[j].0 != key by {
            assert(t[j] == entries[j + 1]);
        }
        lemma_with_entry_at(t, key, value, k - 1);
        if k < entries.len() && entries[k].0 == key {
            assert(t[k - 1] == entries[k]);
            assert(seq![entries[0]] + t.update(k - 1, (key, value)) =~= entries.update(k, (key, value)));
        }
        if k == entries.len() {
            assert(seq![entries[0]] + t.push((key, value)) =~= entries.push((key, value)));
        }
    }
}

/// A value set under a key is what a lookup of that key then finds, and
/// lookups of other keys find what they found before.
pub proof fn law_lookup_after_set<D>(entries: Seq<(Seq<char>, D)>, key: Seq<char>, value: D, other: Seq<char>)
    ensures
        lookup(with_entry(entries, key, value), key) == Some(value),
        other != key ==> lookup(with_entry(entries, key, value), other) == lookup(entries, other),
    decreases entries.len(),
{
    if entries.len() > 0 {
        let t = entries.subrange(1, entries.len() as int);
        if entries[0].0 == key {
            let u = entries.update(0, (key, value));
            assert(with_entry(entries, key, value) == u);
            assert(u[0] == (key, value));
            assert(u.subrange(1, u.len() as int) =~= t);
            assert(lookup(entries, key) == Some(entries[0].1));
            if other != key {
                assert(lookup(u, other) == lookup(t, other));
                assert(lookup(entries, other) == lookup(t, other));
            }
        } else {
            law_lookup_after_set(t, key, value, other);
            let w = seq![entries[0]] + with_entry(t, key, value);
            assert(with_entry(entries, key, value) == w);
            assert(w[0] == entries[0]);
            assert(w.subrange(1, w.len() as int) =~= with_entry(t, key, value));
        }
    } else {
        let one = seq![(key, value)];
        assert(one.subrange(1, 1) =~= Seq::<(Seq<char>, D)>::empty());
        assert(with_entry(entries, key, value) == one);
        assert(lookup(one.subrange(1, 1), other) is None);
        if other != key {
            assert(lookup(one, other) is None);
        }
    }
}

/// The drivers known to the runtime, by the lowercase of their names.
pub struct DriverConetxtImpl<D> {
    drivers: NamedTable<D>,
}

impl<D> DriverConetxtImpl<D> {
    /// The drivers by name, in the order they were first registered.
    pub closed spec fn entries(&self) -> Seq<(Seq<char>, D)> {
        self.drivers.entries()
    }

    /// No driver.
    pub fn new() -> (r: DriverConetxtImpl<D>)
        ensures
            r.entries() == Seq::<(Seq<char>, D)>::empty(),
    {
        DriverConetxtImpl { drivers: NamedTable::new() }
    }

    /// Registers a driver under the lowercase of its name, in place of any
    /// driver of that name.
    pub fn insert_driver(&mut self, name: &str, driver: D)
        ensures
            final(self).entries() == with_entry(old(self).entries(), unicode_lower(name@), driver),
    {
        let key = to_lowercase(name);
        self.drivers.set(key, driver);
    }

    /// The driver registered under a key, if any.
    pub fn get(&self, key: &str) -> (r: Option<&D>)
        ensures
            match lookup(self.entries(), key@) {
                Some(d) => r matches Some(x) && *x == d,
                None => r is None,
            },
    {
        self.drivers.get(key)
    }

    /// The driver for an address: the one registered under the lowercase of
    /// the address's schema; none when the address does not read as one.
    pub fn find_driver(&self, uri: &str) -> (r: Option<&D>)
        ensures
            match driver_key(uri@) {
                Some(k) => match lookup(self.entries(), k) {
                    Some(d) => r matches Some(x) && *x == d,
                    None => r is None,
                },
                None => r is None,
            },
    {
        let addr = match MultiAddr::parse(uri.as_bytes()) {
            Err(_) => return None,
            Ok(addr) => addr,
        };
        proof {
            assert(addr.values().len() == addr.paths@.len());
        }
        let schema = match addr.schema() {
            Err(_) => return None,
            Ok(s) => {
                proof {
                    assert(addr.values()[0] == addr.paths@[0].value@);
                }
                to_lowercase(s.as_str())
            },
        };
        self.get(schema.as_str())
    }
}

/// The key of the driver for an address: the lowercase of its schema, the
/// text of its first segment; none when it does not read as an address with
/// a segment.
pub open spec fn driver_key(uri: Seq<char>) -> Option<Seq<char>> {
    let b = encode_utf8(uri);
    if all_tokens(b) && path_values(b).len() > 0 {
        Some(unicode_lower(ascii_chars(path_values(b)[0])))
    } else {
        None
    }
}


/// Values by name, each name at most once, in the order the names were
/// first set.
pub struct NamedTable<V> {
    items: Vec<(String, V)>,
}

impl<V> NamedTable<V> {
    /// The values by name.
    pub closed spec fn entries(&self) -> Seq<(Seq<char>, V)> {
        self.items@.map_values(|e: (String, V)| (e.0@, e.1))
    }

    /// No value.
    pub fn new() -> (r: NamedTable<V>)
        ensures
            r.entries() == Seq::<(Seq<char>, V)>::empty(),
    {
        let r = NamedTable { items: Vec::new() };
        assert(r.entries() =~= Seq::<(Seq<char>, V)>::empty());
        r
    }

    fn position(&self, key: &str) -> (r: Option<usize>)
        ensures
            match r {
                Some(k) => k < self.entries().len() && self.entries()[k as int].0 == key@
                    && forall|j: int| 0 <= j < k ==> self.entries()[j].0 != key@,
                None => forall|j: int| 0 <= j < self.entries().len() ==> self.entries()[j].0 != key@,
            },
    {
        let mut k: usize = 0;
        while k < self.items.len()
            invariant
                k <= self.items@.len(),
                forall|j: int| 0 <= j < k ==> self.entries()[j].0 != key@,
            decreases self.items@.len() - k,
        {
            assert(self.entries()[k as int].0 == self.items@[k as int].0@);
            if str_eq(self.items[k].0.as_str(), key) {
                return Some(k);
            }
            k = k + 1;
        }
        None
    }

    /// Sets the value of a name, in place of any value it had.
    pub fn set(&mut self, key: String, value: V)
        ensures
            final(self).entries() == with_entry(old(self).entries(), key@, value),
    {
        let ghost e = old(self).entries();
        let ghost kv = key@;
        match self.position(key.as_str()) {
            Some(k) => {
                proof {
                    lemma_with_entry_at(e, kv, value, k as int);
                }
                self.items.set(k, (key, value));
                assert(self.entries() =~= e.update(k as int, (kv, value)));
            },
            None => {
                proof {
                    lemma_with_entry_at(e, kv, value, e.len() as int);
                }
                self.items.push((key, value));
                assert(self.entries() =~= e.push((kv, value)));
            },
        }
    }

    /// The value of a name, if it has one.
    pub fn get(&self, key: &str) -> (r: Option<&V>)
        ensures
            match lookup(self.entries(), key@) {
                Some(d) => r matches Some(x) && *x == d,
                None => r is None,
            },
    {
        match self.position(key) {
            Some(k) => {
                proof {
                    lemma_lookup_at(self.entries(), key@, k as int);
                }
                Some(&self.items[k].1)
            },
            None => {
                proof {
                    lemma_lookup_at(self.entries(), key@, self.entries().len() as int);
                }
                None
            },
        }
    }
}

} // verus!
