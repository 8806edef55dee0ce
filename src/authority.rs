use crate::name::{in_zone, DnsName};
use crate::record::{canonical_type, models, set_wf, type_of, DataModel, RData, RecordModel, RecordSet, RecordType, CLASS_IN};
use crate::store::{key_of, set_error, RecordStore, StoreError, Zone};
use vstd::prelude::*;

verus! {

/// An instruction that changes the override zone.
#[derive(Debug)]
pub enum Mutation {
    /// Make `data`, an Internet record with time to live `ttl`, the one
    /// record of its type at `name`; `serial` is the version number of the change.
    Add { name: DnsName, ttl: u32, data: RData, serial: u64 },
}

/// The error, if any, that writing a set of `name` meets in the zone of
/// `origin`.
pub open spec fn upsert_error(origin: Seq<u8>, name: Seq<u8>, rtype: RecordType, records: Seq<RecordModel>) -> Option<StoreError> {
    if !in_zone(name, origin) {
        Some(StoreError::OutOfZone)
    } else {
        set_error(name, rtype, records)
    }
}

/// The zone after `Add { name, ttl, data, .. }` in the zone of `origin`.
pub open spec fn zone_after_add(z: Zone, origin: Seq<u8>, name: Seq<u8>, ttl: u32, data: DataModel) -> Zone {
    if in_zone(name, origin) {
        z.insert((name, type_of(data)), seq![RecordModel { name, class: CLASS_IN, ttl, data }])
    } else {
        z
    }
}

/// The locally writable zone: a record store whose names all lie under the
/// zone's origin.
pub struct OverrideAuthority {
    origin: DnsName,
    store: RecordStore,
}

impl View for OverrideAuthority {
    type V = Zone;

    closed spec fn view(&self) -> Zone {
        self.store@
    }
}

impl OverrideAuthority {
    pub closed spec fn wf(&self) -> bool {
        &&& self.store.wf()
        &&& forall|k: (Seq<u8>, RecordType)| #[trigger] self.store@.contains_key(k) ==> in_zone(k.0, self.origin@)
    }

    /// The text of the zone's origin.
    pub closed spec fn origin_text(&self) -> Seq<u8> {
        self.origin@
    }

    /// The version number of the last change applied.
    pub closed spec fn serial(&self) -> u64 {
        self.store.last_version()
    }

    /// An empty zone with origin `origin`.
    pub fn new(origin: DnsName) -> (r: OverrideAuthority)
        ensures
            r.wf(),
            r@ == Map::<(Seq<u8>, RecordType), Seq<RecordModel>>::empty(),
            r.origin_text() == origin@,
            r.serial() == 0,
    {
        OverrideAuthority { origin, store: RecordStore::new() }
    }

    /// The zone's origin.
    pub fn origin(&self) -> (r: &DnsName)
        ensures
            r@ == self.origin_text(),
    {
        &self.origin
    }

    /// The version number of the last change applied.
    pub fn version(&self) -> (r: u64)
        ensures
            r == self.serial(),
    {
        self.store.version()
    }

    /// The number of record sets in the zone.
    pub fn len(&self) -> (r: usize)
        requires
            self.wf(),
        ensures
            r == self@.len(),
    {
        self.store.len()
    }

    /// The record set of `name` and `rtype`, if the zone has one; `rtype`
    /// is read in its one spelling.
    pub fn lookup(&self, name: &DnsName, rtype: RecordType) -> (r: Option<&RecordSet>)
        requires
            self.wf(),
        ensures
            r matches Some(s) ==> {
                &&& self@.contains_key((name@, canonical_type(rtype)))
                &&& models(s.records@) == self@[(name@, canonical_type(rtype))]
                &&& set_wf(name@, canonical_type(rtype), models(s.records@))
                &&& s.name@ == name@
                &&& s.rtype == canonical_type(rtype)
            },
            r is None ==> !self@.contains_key((name@, canonical_type(rtype))),
    {
        self.store.lookup(name, rtype.canonical())
    }

    /// Puts `set` in place of the record set of its key; refuses a set whose
    /// name lies outside the zone, an empty set, and one with a record of
    /// another type.
    pub fn upsert(&mut self, set: RecordSet, version: u64) -> (r: Result<(), StoreError>)
        requires
            old(self).wf(),
        ensures
            final(self).wf(),
            final(self).origin_text() == old(self).origin_text(),
            r matches Err(e) ==> upsert_error(old(self).origin_text(), set.name@, set.rtype, models(set.records@)) == Some(e),
            r is Ok ==> upsert_error(old(self).origin_text(), set.name@, set.rtype, models(set.records@)) is None,
            r is Ok ==> final(self)@ == old(self)@.insert(key_of(set), models(set.records@)),
            r is Ok ==> final(self).serial() == version,
            r is Err ==> final(self)@ == old(self)@ && final(self).serial() == old(self).serial(),
    {
        if !set.name.is_within(&self.origin) {
            return Err(StoreError::OutOfZone);
        }
        let ghost k = key_of(set);
        let r = self.store.upsert(set, version);
        proof {
            if r is Ok {
                assert forall|kk: (Seq<u8>, RecordType)| #[trigger] self.store@.contains_key(kk) implies in_zone(kk.0, self.origin@) by {
                    if kk != k {
                        assert(old(self).store@.contains_key(kk));
                    }
                }
            }
        }
        r
    }

    /// Applies one mutation instruction.
    pub fn apply(&mut self, m: Mutation) -> (r: Result<(), StoreError>)
        requires
            old(self).wf(),
        ensures
            final(self).wf(),
            final(self).origin_text() == old(self).origin_text(),
            match m {
                Mutation::Add { name, ttl, data, serial } => {
                    &&& final(self)@ == zone_after_add(old(self)@, old(self).origin_text(), name@, ttl, data@)
                    &&& r is Ok <==> in_zone(name@, old(self).origin_text())
                    &&& r is Err ==> r == Err::<(), StoreError>(StoreError::OutOfZone)
                    &&& final(self).serial() == if r is Ok { serial } else { old(self).serial() }
                },
            },
    {
        match m {
            Mutation::Add { name, ttl, data, serial } => {
                let set = RecordSet::single(name, ttl, data);
                proof {
                    assert(set_wf(set.name@, set.rtype, models(set.records@)));
                }
                self.upsert(set, serial)
            },
        }
    }
}

} // verus!
