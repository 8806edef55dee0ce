use crate::authority::zone_after_add;
use crate::handler::{decide, resolved, supported, upstream_reply, MessageType, OpCode, Outcome, ResponseCode, UpstreamError};
use crate::name::in_zone;
use crate::record::{canonical_type, type_of, DataModel, RecordModel, RecordType, CLASS_IN};
use crate::store::Zone;
use vstd::prelude::*;

verus! {

/// A supported query whose key (its type in its one spelling) the override
/// zone has is answered with that record set verbatim, whatever the upstream resolver would have returned.
pub proof fn lemma_override_answers_verbatim(
    z: Zone,
    name: Seq<u8>,
    qtype: RecordType,
    upstream: Result<Seq<RecordModel>, UpstreamError>,
)
    requires
        z.contains_key((name, canonical_type(qtype))),
    ensures
        decide(z, name, qtype, OpCode::Query, MessageType::Query) == Outcome::Reply(ResponseCode::NoError, z[(name, canonical_type(qtype))]),
        resolved(z, name, qtype, OpCode::Query, MessageType::Query, upstream) == Outcome::Reply(
            ResponseCode::NoError,
            z[(name, canonical_type(qtype))],
        ),
{
}

/// A supported query whose key (its type in its one spelling) the override
/// zone lacks is forwarded, and the
/// reply is then the one its upstream result gives, whatever the zone holds.
pub proof fn lemma_miss_forwards(
    z: Zone,
    name: Seq<u8>,
    qtype: RecordType,
    upstream: Result<Seq<RecordModel>, UpstreamError>,
)
    requires
        !z.contains_key((name, canonical_type(qtype))),
    ensures
        decide(z, name, qtype, OpCode::Query, MessageType::Query) == Outcome::Forward,
        resolved(z, name, qtype, OpCode::Query, MessageType::Query, upstream) == upstream_reply(upstream),
{
}

/// Once `Add { name, ttl, data }` is applied in the zone, a query for `name`
/// and the type of `data` is answered with exactly that one Internet record; applying
/// the same addition twice leaves the zone as applying it once.
pub proof fn lemma_add_then_query(z: Zone, origin: Seq<u8>, name: Seq<u8>, ttl: u32, data: DataModel)
    requires
        in_zone(name, origin),
    ensures
        decide(zone_after_add(z, origin, name, ttl, data), name, type_of(data), OpCode::Query, MessageType::Query)
            == Outcome::Reply(ResponseCode::NoError, seq![RecordModel { name, class: CLASS_IN, ttl, data }]),
        zone_after_add(zone_after_add(z, origin, name, ttl, data), origin, name, ttl, data)
            == zone_after_add(z, origin, name, ttl, data),
{
    let z1 = zone_after_add(z, origin, name, ttl, data);
    assert(zone_after_add(z1, origin, name, ttl, data) =~= z1);
}

/// A request that is not a standard query, sent as a query, fails with
/// ServFail and no answers, whatever the override zone holds and whatever
/// the upstream resolver would have returned.
pub proof fn lemma_unsupported_fails(
    z: Zone,
    name: Seq<u8>,
    qtype: RecordType,
    op_code: OpCode,
    message_type: MessageType,
    upstream: Result<Seq<RecordModel>, UpstreamError>,
)
    requires
        !supported(op_code, message_type),
    ensures
        decide(z, name, qtype, op_code, message_type) == Outcome::Reply(ResponseCode::ServFail, Seq::<RecordModel>::empty()),
        resolved(z, name, qtype, op_code, message_type, upstream) == Outcome::Reply(
            ResponseCode::ServFail,
            Seq::<RecordModel>::empty(),
        ),
{
}

/// Whatever state of the override zone a supported query observes, before or
/// after any change, the zone never makes it fail: it is answered from the
/// zone or forwarded.
pub proof fn lemma_zone_state_never_fails(z: Zone, name: Seq<u8>, qtype: RecordType)
    ensures
        decide(z, name, qtype, OpCode::Query, MessageType::Query) == Outcome::Forward
            || decide(z, name, qtype, OpCode::Query, MessageType::Query) == Outcome::Reply(
            ResponseCode::NoError,
            z[(name, canonical_type(qtype))],
        ),
{
}

/// An upstream timeout or transport failure gives ServFail; an upstream
/// negative answer gives NXDomain, which is not ServFail.
pub proof fn lemma_upstream_failure_codes()
    ensures
        upstream_reply(Err(UpstreamError::Timeout)) == Outcome::Reply(ResponseCode::ServFail, Seq::<RecordModel>::empty()),
        upstream_reply(Err(UpstreamError::TransportFailure)) == Outcome::Reply(ResponseCode::ServFail, Seq::<RecordModel>::empty()),
        upstream_reply(Err(UpstreamError::NotFound)) == Outcome::Reply(ResponseCode::NXDomain, Seq::<RecordModel>::empty()),
        ResponseCode::NXDomain != ResponseCode::ServFail,
{
}

} // verus!
