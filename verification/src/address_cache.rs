//! The address cache: for each ip, the address recorded for it.
//!
//! The cache holds at most one address per ip, and no entry is ever taken
//! out of it.

use vstd::prelude::*;

verus! {

/// A map from ip to address, kept as a list of entries with distinct ips.
#[derive(Debug)]
pub struct AddressCache {
    entries: Vec<(String, String)>,
}

impl View for AddressCache {
    type V = Map<Seq<char>, Seq<char>>;

    closed spec fn view(&self) -> Map<Seq<char>, Seq<char>> {
        Map::new(
            |ip: Seq<char>| self.holds(ip),
            |ip: Seq<char>| self.entries@[self.index_of(ip)].1@,
        )
    }
}

impl AddressCache {
    /// No ip occurs in two entries.
    #[verifier::type_invariant]
    spec fn distinct_ips(self) -> bool {
        forall|i: int, j: int|
            0 <= i < j < self.entries@.len() ==> self.entries@[i].0@ != self.entries@[j].0@
    }

    /// The entry at `i` is for `ip`.
    spec fn is_at(self, ip: Seq<char>, i: int) -> bool {
        0 <= i < self.entries@.len() && self.entries@[i].0@ == ip
    }

    /// Some entry is for `ip`.
    spec fn holds(self, ip: Seq<char>) -> bool {
        exists|i: int| self.is_at(ip, i)
    }

    /// The place of the entry for `ip`, where there is one.
    spec fn index_of(self, ip: Seq<char>) -> int {
        choose|i: int| self.is_at(ip, i)
    }

    /// The empty cache.
    pub fn new() -> (cache: AddressCache)
        ensures
            cache@ == Map::<Seq<char>, Seq<char>>::empty(),
    {
        let cache = AddressCache { entries: Vec::new() };
        assert(cache@ =~= Map::<Seq<char>, Seq<char>>::empty());
        cache
    }

    /// The place of the entry for `ip`, if the cache holds one.
    fn position(&self, ip: &String) -> (at: Option<usize>)
        ensures
            match at {
                Some(i) => self.is_at(ip@, i as int),
                None => !self.holds(ip@),
            },
    {
        let mut i: usize = 0;
        while i < self.entries.len()
            invariant
                i <= self.entries@.len(),
                forall|j: int| 0 <= j < i ==> !self.is_at(ip@, j),
            decreases self.entries@.len() - i,
        {
            if self.entries[i].0 == *ip {
                return Some(i);
            }
            i += 1;
        }
        None
    }

    /// Whether an address is recorded for `ip`.
    pub fn contains_key(&self, ip: &str) -> (found: bool)
        ensures
            found == self@.contains_key(ip@),
    {
        let key = ip.to_owned();
        self.position(&key).is_some()
    }

    /// The address recorded for `ip`, if there is one.
    pub fn get(&self, ip: &str) -> (address: Option<&String>)
        ensures
            match address {
                Some(a) => self@.contains_key(ip@) && a@ == self@[ip@],
                None => !self@.contains_key(ip@),
            },
    {
        let key = ip.to_owned();
        match self.position(&key) {
            Some(i) => {
                proof {
                    use_type_invariant(self);
                    assert(self.is_at(ip@, self.index_of(ip@)));
                }
                Some(&self.entries[i].1)
            },
            None => None,
        }
    }

    /// Records `address` for `ip`, in place of what was recorded for it
    /// before, if anything.
    pub fn insert(&mut self, ip: String, address: String)
        ensures
            final(self)@ == old(self)@.insert(ip@, address@),
    {
        proof {
            use_type_invariant(&*self);
        }
        let ghost before = *self;
        let place = self.position(&ip);
        let mut entries: Vec<(String, String)> = Vec::new();
        std::mem::swap(&mut self.entries, &mut entries);
        match place {
            Some(i) => {
                entries.set(i, (ip, address));
                self.entries = entries;
                proof {
                    assert forall|k: Seq<char>| #[trigger] self.holds(k) == before.holds(k) by {
                        if before.holds(k) {
                            assert(self.is_at(k, before.index_of(k)));
                        }
                        if self.holds(k) {
                            assert(before.is_at(k, self.index_of(k)));
                        }
                    }
                    assert forall|k: Seq<char>| self.holds(k) implies #[trigger] self@[k]
                        == before@.insert(ip@, address@)[k] by {
                        let at = self.index_of(k);
                        assert(self.is_at(k, at));
                        assert(before.is_at(k, at));
                        assert(before.is_at(k, before.index_of(k)));
                    }
                    assert(self@ =~= before@.insert(ip@, address@));
                }
            },
            None => {
                entries.push((ip, address));
                proof {
                    assert forall|i: int, j: int| 0 <= i < j < entries@.len() implies entries@[i].0@
                        != entries@[j].0@ by {
                        if j == entries@.len() - 1 {
                            assert(!before.is_at(ip@, i));
                        }
                    }
                }
                self.entries = entries;
                proof {
                    let last = self.entries@.len() - 1;
                    assert(self.is_at(ip@, last));
                    assert forall|k: Seq<char>| #[trigger] self.holds(k) == (before.holds(k) || k
                        == ip@) by {
                        if before.holds(k) {
                            assert(self.is_at(k, before.index_of(k)));
                        }
                        if self.holds(k) && k != ip@ {
                            assert(before.is_at(k, self.index_of(k)));
                        }
                    }
                    assert forall|k: Seq<char>| self.holds(k) implies #[trigger] self@[k]
                        == before@.insert(ip@, address@)[k] by {
                        let at = self.index_of(k);
                        assert(self.is_at(k, at));
                        if k != ip@ {
                            assert(before.is_at(k, at));
                            assert(before.is_at(k, before.index_of(k)));
                        }
                    }
                    assert(self@ =~= before@.insert(ip@, address@));
                }
            },
        }
    }
}

} // verus!
