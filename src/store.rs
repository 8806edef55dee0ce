use crate::name::DnsName;
use crate::record::{models, names_match, set_wf, type_of, types_match, Record, RecordModel, RecordSet, RecordType};
use vstd::prelude::*;

verus! {

/// The key of a record set: its owner name and its type.
pub type RrKey = (Seq<u8>, RecordType);

/// What a store holds: the records of each key it has.
pub type Zone = Map<RrKey, Seq<RecordModel>>;

pub open spec fn key_of(s: RecordSet) -> RrKey {
    (s.name@, s.rtype)
}

/// Why an update was refused.
#[derive(Clone, Copy, Debug, PartialEq, Eq, Structural)]
pub enum StoreError {
    /// The record set has no records.
    EmptySet,
    /// A record's data is not of the set's type.
    TypeMismatch,
    /// A record's owner name is not the set's name.
    NameMismatch,
    /// The owner name lies outside the zone.
    OutOfZone,
}

/// The error, if any, that an update of `name` and `rtype` with `records`
/// meets.
pub open spec fn set_error(name: Seq<u8>, rtype: RecordType, records: Seq<RecordModel>) -> Option<StoreError> {
    if records.len() == 0 {
        Some(StoreError::EmptySet)
    } else if !types_match(rtype, records) {
        Some(StoreError::TypeMismatch)
    } else if !names_match(name, records) {
        Some(StoreError::NameMismatch)
    } else {
        None
    }
}

/// Checks a record set before it is written: `None` where it may be.
pub fn check_set(name: &DnsName, rtype: RecordType, records: &Vec<Record>) -> (r: Option<StoreError>)
    ensures
        r == set_error(name@, rtype, models(records@)),
{
    let ghost m = models(records@);
    if records.len() == 0 {
        return Some(StoreError::EmptySet);
    }
    let mut i: usize = 0;
    while i < records.len()
        invariant
            i <= records@.len(),
            records@.len() > 0,
            m == models(records@),
            forall|j: int| 0 <= j < i ==> type_of(#[trigger] m[j].data) == rtype,
        decreases records@.len() - i,
    {
        proof {
            assert(m[i as int] == records@[i as int]@);
        }
        if records[i].data.record_type() != rtype {
            assert(m.len() == records@.len());
            assert(type_of(m[i as int].data) != rtype);
            return Some(StoreError::TypeMismatch);
        }
        i = i + 1;
    }
    let mut i: usize = 0;
    while i < records.len()
        invariant
            i <= records@.len(),
            records@.len() > 0,
            m == models(records@),
            types_match(rtype, m),
            forall|j: int| 0 <= j < i ==> (#[trigger] m[j]).name == name@,
        decreases records@.len() - i,
    {
        proof {
            assert(m[i as int] == records@[i as int]@);
        }
        if !records[i].name.same_name(name) {
            assert(m.len() == records@.len());
            assert(m[i as int].name != name@);
            return Some(StoreError::NameMismatch);
        }
        i = i + 1;
    }
    None
}

/// The record sets of one zone, one per key, in the order in which their
/// keys were first written.
pub struct RecordStore {
    entries: Vec<RecordSet>,
    version: u64,
    contents: Ghost<Zone>,
}

impl View for RecordStore {
    type V = Zone;

    closed spec fn view(&self) -> Zone {
        self.contents@
    }
}

impl RecordStore {
    /// Keys are unique, every set is well formed, and the map holds exactly
    /// the entries.
    pub closed spec fn wf(&self) -> bool {
        &&& forall|i: int, j: int|
            0 <= i < j < self.entries@.len() ==> key_of(#[trigger] self.entries@[i]) != key_of(
                #[trigger] self.entries@[j],
            )
        &&& forall|i: int|
            0 <= i < self.entries@.len() ==> {
                &&& set_wf(self.entries@[i].name@, self.entries@[i].rtype, models(#[trigger] self.entries@[i].records@))
                &&& self.contents@.contains_key(key_of(self.entries@[i]))
                &&& self.contents@[key_of(self.entries@[i])] == models(self.entries@[i].records@)
            }
        &&& forall|k: RrKey|
            #[trigger] self.contents@.contains_key(k) ==> exists|i: int|
                0 <= i < self.entries@.len() && key_of(#[trigger] self.entries@[i]) == k
    }

    /// The version number of the last update.
    pub closed spec fn last_version(&self) -> u64 {
        self.version
    }

    /// An empty store.
    pub fn new() -> (r: RecordStore)
        ensures
            r.wf(),
            r@ == Map::<RrKey, Seq<RecordModel>>::empty(),
            r.last_version() == 0,
    {
        RecordStore { entries: Vec::new(), version: 0, contents: Ghost(Map::empty()) }
    }

    /// The version number of the last update.
    pub fn version(&self) -> (r: u64)
        ensures
            r == self.last_version(),
    {
        self.version
    }

    /// The number of record sets held.
    pub fn len(&self) -> (r: usize)
        requires
            self.wf(),
        ensures
            r == self@.len(),
    {
        proof { self.lemma_len(); }
        self.entries.len()
    }

    proof fn lemma_len(&self)
        requires
            self.wf(),
        ensures
            self@.dom().finite(),
            self@.len() == self.entries@.len(),
        decreases self.entries@.len(),
    {
        let keys = self.entries@.map_values(|s: RecordSet| key_of(s));
        assert(keys.no_duplicates()) by {
            assert forall|i: int, j: int| 0 <= i < keys.len() && 0 <= j < keys.len() && i != j
                implies keys[i] != keys[j] by {
                assert(keys[i] == key_of(self.entries@[i]));
                assert(keys[j] == key_of(self.entries@[j]));
                if i < j {
                    assert(key_of(self.entries@[i]) != key_of(self.entries@[j]));
                } else {
                    assert(key_of(self.entries@[j]) != key_of(self.entries@[i]));
                }
            }
        }
        assert(self@.dom() =~= keys.to_set()) by {
            assert forall|k: RrKey| self@.dom().contains(k) implies keys.to_set().contains(k) by {
                let i = choose|i: int| 0 <= i < self.entries@.len() && key_of(#[trigger] self.entries@[i]) == k;
                assert(keys[i] == key_of(self.entries@[i]));
            }
            assert forall|k: RrKey| keys.to_set().contains(k) implies self@.dom().contains(k) by {
                let i = choose|i: int| 0 <= i < keys.len() && keys[i] == k;
                assert(keys[i] == key_of(self.entries@[i]));
                assert(set_wf(self.entries@[i].name@, self.entries@[i].rtype, models(self.entries@[i].records@)));
            }
        }
        keys.unique_seq_to_set();
    }

    /// The record set of `name` and `rtype`, if the store has one.
    pub fn lookup(&self, name: &DnsName, rtype: RecordType) -> (r: Option<&RecordSet>)
        requires
            self.wf(),
        ensures
            r matches Some(s) ==> {
                &&& self@.contains_key((name@, rtype))
                &&& models(s.records@) == self@[(name@, rtype)]
                &&& set_wf(name@, rtype, models(s.records@))
                &&& s.name@ == name@
                &&& s.rtype == rtype
            },
            r is None ==> !self@.contains_key((name@, rtype)),
    {
        match self.find(name, rtype) {
            Some(i) => {
                proof {
                    assert(set_wf(self.entries@[i as int].name@, self.entries@[i as int].rtype, models(self.entries@[i as int].records@)));
                }
                Some(&self.entries[i])
            },
            None => None,
        }
    }

    fn find(&self, name: &DnsName, rtype: RecordType) -> (r: Option<usize>)
        requires
            self.wf(),
        ensures
            r matches Some(i) ==> i < self.entries@.len() && key_of(self.entries@[i as int]) == (
            name@,
            rtype,
            ),
            r is None ==> !self@.contains_key((name@, rtype)),
    {
        let mut i: usize = 0;
        while i < self.entries.len()
            invariant
                self.wf(),
                i <= self.entries@.len(),
                forall|j: int| 0 <= j < i ==> key_of(#[trigger] self.entries@[j]) != (name@, rtype),
            decreases self.entries@.len() - i,
        {
            let e = &self.entries[i];
            if e.rtype == rtype && e.name.same_name(name) {
                return Some(i);
            }
            i = i + 1;
        }
        None
    }

    /// Inserts `set` in place of the record set of its key, or refuses it
    /// where it is empty or holds a record of another type.
    pub fn upsert(&mut self, set: RecordSet, version: u64) -> (r: Result<(), StoreError>)
        requires
            old(self).wf(),
        ensures
            final(self).wf(),
            r matches Err(e) ==> set_error(set.name@, set.rtype, models(set.records@)) == Some(e),
            r is Ok ==> set_error(set.name@, set.rtype, models(set.records@)) is None,
            r is Ok ==> final(self)@ == old(self)@.insert(key_of(set), models(set.records@)),
            r is Ok ==> final(self).last_version() == version,
            r is Err ==> final(self)@ == old(self)@ && final(self).last_version() == old(self).last_version(),
    {
        match check_set(&set.name, set.rtype, &set.records) {
            Some(e) => {
                return Err(e);
            },
            None => {},
        }
        let ghost k = key_of(set);
        let ghost recs = models(set.records@);
        let found = self.find(&set.name, set.rtype);
        match found {
            Some(i) => {
                self.entries.set(i, set);
                proof {
                    self.contents@ = self.contents@.insert(k, recs);
                    assert forall|x: int| 0 <= x < self.entries@.len() implies key_of(#[trigger] self.entries@[x])
                        == key_of(old(self).entries@[x]) by {}
                    assert forall|x: int| 0 <= x < self.entries@.len() && x != i implies key_of(#[trigger] self.entries@[x]) != k by {
                        if x < i {
                            assert(key_of(old(self).entries@[x]) != key_of(old(self).entries@[i as int]));
                        } else {
                            assert(key_of(old(self).entries@[i as int]) != key_of(old(self).entries@[x]));
                        }
                    }
                    assert forall|x: int| 0 <= x < self.entries@.len() implies {
                        &&& set_wf(self.entries@[x].name@, self.entries@[x].rtype, models(#[trigger] self.entries@[x].records@))
                        &&& self.contents@.contains_key(key_of(self.entries@[x]))
                        &&& self.contents@[key_of(self.entries@[x])] == models(self.entries@[x].records@)
                    } by {
                        if x != i {
                            assert(set_wf(old(self).entries@[x].name@, old(self).entries@[x].rtype, models(old(self).entries@[x].records@)));
                        }
                    }
                    assert forall|kk: RrKey| #[trigger] self.contents@.contains_key(kk) implies exists|j: int|
                        0 <= j < self.entries@.len() && key_of(#[trigger] self.entries@[j]) == kk by {
                        if kk != k {
                            let j = choose|j: int| 0 <= j < old(self).entries@.len() && key_of(#[trigger] old(self).entries@[j]) == kk;
                            assert(key_of(self.entries@[j]) == kk);
                        } else {
                            assert(key_of(self.entries@[i as int]) == kk);
                        }
                    }
                }
            },
            None => {
                self.entries.push(set);
                proof {
                    self.contents@ = self.contents@.insert(k, recs);
                    let n = self.entries@.len() - 1;
                    assert(key_of(self.entries@[n]) == k);
                    assert forall|x: int| 0 <= x < n implies key_of(#[trigger] self.entries@[x]) != k by {
                        assert(set_wf(old(self).entries@[x].name@, old(self).entries@[x].rtype, models(old(self).entries@[x].records@)));
                    }
                    assert forall|x: int| 0 <= x < self.entries@.len() implies {
                        &&& set_wf(self.entries@[x].name@, self.entries@[x].rtype, models(#[trigger] self.entries@[x].records@))
                        &&& self.contents@.contains_key(key_of(self.entries@[x]))
                        &&& self.contents@[key_of(self.entries@[x])] == models(self.entries@[x].records@)
                    } by {
                        if x != n {
                            assert(set_wf(old(self).entries@[x].name@, old(self).entries@[x].rtype, models(old(self).entries@[x].records@)));
                        }
                    }
                    assert forall|kk: RrKey| #[trigger] self.contents@.contains_key(kk) implies exists|j: int|
                        0 <= j < self.entries@.len() && key_of(#[trigger] self.entries@[j]) == kk by {
                        if kk != k {
                            let j = choose|j: int| 0 <= j < old(self).entries@.len() && key_of(#[trigger] old(self).entries@[j]) == kk;
                            assert(key_of(self.entries@[j]) == kk);
                        } else {
                            assert(key_of(self.entries@[n]) == kk);
                        }
                    }
                }
            },
        }
        self.version = version;
        Ok(())
    }
}

} // verus!
