use crate::name::{copy_bytes, DnsName};
use vstd::prelude::*;

verus! {

/// The type of a resource record: the two address types, and any other type
/// by its numeric code.
#[derive(Clone, Copy, Debug, PartialEq, Eq, Structural)]
pub enum RecordType {
    A,
    Aaaa,
    Other(u16),
}

/// The numeric codes of types A and AAAA.
pub const TYPE_A: u16 = 1;
pub const TYPE_AAAA: u16 = 28;

/// The record type with numeric code `c`: the codes of A and AAAA name those
/// types, and never `Other`.
pub open spec fn type_from_code(c: u16) -> RecordType {
    if c == TYPE_A {
        RecordType::A
    } else if c == TYPE_AAAA {
        RecordType::Aaaa
    } else {
        RecordType::Other(c)
    }
}

/// The one spelling of a record type: `Other(1)` is `A`, `Other(28)` is
/// `Aaaa`, and every other type is itself.
pub open spec fn canonical_type(t: RecordType) -> RecordType {
    match t {
        RecordType::Other(c) => type_from_code(c),
        _ => t,
    }
}

impl RecordType {
    /// The record type with numeric code `c`.
    pub fn from_code(c: u16) -> (r: RecordType)
        ensures
            r == type_from_code(c),
    {
        if c == TYPE_A {
            RecordType::A
        } else if c == TYPE_AAAA {
            RecordType::Aaaa
        } else {
            RecordType::Other(c)
        }
    }

    /// The one spelling of this type.
    pub fn canonical(&self) -> (r: RecordType)
        ensures
            r == canonical_type(*self),
    {
        match self {
            RecordType::Other(c) => RecordType::from_code(*c),
            RecordType::A => RecordType::A,
            RecordType::Aaaa => RecordType::Aaaa,
        }
    }
}

/// The class of Internet records.
pub const CLASS_IN: u16 = 1;

/// Record data: an IPv4 address or an IPv6 address, as an integer in network
/// byte order, or the data of any other type in its wire form.
#[derive(Debug, PartialEq, Eq)]
pub enum RData {
    A(u32),
    Aaaa(u128),
    Other { rtype: u16, wire: Vec<u8> },
}

/// What a piece of record data holds.
pub enum DataModel {
    A(u32),
    Aaaa(u128),
    Other(u16, Seq<u8>),
}

impl View for RData {
    type V = DataModel;

    open spec fn view(&self) -> DataModel {
        match self {
            RData::A(v) => DataModel::A(*v),
            RData::Aaaa(v) => DataModel::Aaaa(*v),
            RData::Other { rtype, wire } => DataModel::Other(*rtype, wire@),
        }
    }
}

/// The record type that a piece of record data belongs to, in its one
/// spelling.
pub open spec fn type_of(d: DataModel) -> RecordType {
    match d {
        DataModel::A(_) => RecordType::A,
        DataModel::Aaaa(_) => RecordType::Aaaa,
        DataModel::Other(t, _) => type_from_code(t),
    }
}

impl RData {
    /// The IPv4 address `a.b.c.d`.
    pub fn ipv4(a: u8, b: u8, c: u8, d: u8) -> (r: RData)
        ensures
            r == RData::A((a * 16777216 + b * 65536 + c * 256 + d) as u32),
    {
        RData::A((a as u32) * 16777216 + (b as u32) * 65536 + (c as u32) * 256 + d as u32)
    }

    pub fn record_type(&self) -> (r: RecordType)
        ensures
            r == type_of(self@),
    {
        match self {
            RData::A(_) => RecordType::A,
            RData::Aaaa(_) => RecordType::Aaaa,
            RData::Other { rtype, .. } => RecordType::from_code(*rtype),
        }
    }

    /// A copy of the data.
    pub fn duplicate(&self) -> (r: RData)
        ensures
            r@ == self@,
    {
        match self {
            RData::A(v) => RData::A(*v),
            RData::Aaaa(v) => RData::Aaaa(*v),
            RData::Other { rtype, wire } => RData::Other { rtype: *rtype, wire: copy_bytes(wire) },
        }
    }
}

/// A resource record: owner name, class, time to live and data; its type is
/// the type of its data.
#[derive(Debug, PartialEq, Eq)]
pub struct Record {
    pub name: DnsName,
    pub class: u16,
    pub ttl: u32,
    pub data: RData,
}

/// What a resource record holds.
pub struct RecordModel {
    pub name: Seq<u8>,
    pub class: u16,
    pub ttl: u32,
    pub data: DataModel,
}

impl View for Record {
    type V = RecordModel;

    open spec fn view(&self) -> RecordModel {
        RecordModel { name: self.name@, class: self.class, ttl: self.ttl, data: self.data@ }
    }
}

impl Record {
    /// A copy of the record.
    pub fn duplicate(&self) -> (r: Record)
        ensures
            r@ == self@,
    {
        Record { name: self.name.duplicate(), class: self.class, ttl: self.ttl, data: self.data.duplicate() }
    }
}

/// What a sequence of records holds.
pub open spec fn models(v: Seq<Record>) -> Seq<RecordModel> {
    v.map_values(|r: Record| r@)
}

/// All records of one owner name and one type.
#[derive(Debug)]
pub struct RecordSet {
    pub name: DnsName,
    pub rtype: RecordType,
    pub records: Vec<Record>,
}

/// A well-formed record set is not empty, and each record has the set's
/// owner name and type.
pub open spec fn set_wf(name: Seq<u8>, rtype: RecordType, records: Seq<RecordModel>) -> bool {
    &&& records.len() > 0
    &&& types_match(rtype, records)
    &&& names_match(name, records)
}

/// Every record is of type `rtype`.
pub open spec fn types_match(rtype: RecordType, records: Seq<RecordModel>) -> bool {
    forall|i: int| 0 <= i < records.len() ==> type_of(#[trigger] records[i].data) == rtype
}

/// Every record has the owner name `name`.
pub open spec fn names_match(name: Seq<u8>, records: Seq<RecordModel>) -> bool {
    forall|i: int| 0 <= i < records.len() ==> (#[trigger] records[i]).name == name
}

/// A copy of a sequence of records.
pub fn copy_records(v: &Vec<Record>) -> (r: Vec<Record>)
    ensures
        models(r@) == models(v@),
{
    let mut out: Vec<Record> = Vec::new();
    let mut i: usize = 0;
    while i < v.len()
        invariant
            i <= v@.len(),
            out@.len() == i,
            forall|j: int| 0 <= j < i ==> (#[trigger] out@[j])@ == v@[j]@,
        decreases v@.len() - i,
    {
        out.push(v[i].duplicate());
        i = i + 1;
    }
    assert(models(out@) =~= models(v@));
    out
}

impl RecordSet {
    /// A record set that holds the one Internet record `ttl`, `data` of `name`.
    pub fn single(name: DnsName, ttl: u32, data: RData) -> (r: RecordSet)
        ensures
            r.name@ == name@,
            r.rtype == type_of(data@),
            models(r.records@) == seq![RecordModel { name: name@, class: CLASS_IN, ttl, data: data@ }],
    {
        let rtype = data.record_type();
        let mut records: Vec<Record> = Vec::new();
        records.push(Record { name: name.duplicate(), class: CLASS_IN, ttl, data });
        assert(models(records@) =~= seq![RecordModel { name: name@, class: CLASS_IN, ttl, data: data@ }]);
        RecordSet { name, rtype, records }
    }
}

} // verus!
