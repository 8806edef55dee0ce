use crate::authority::OverrideAuthority;
use crate::name::DnsName;
use crate::record::{canonical_type, copy_records, models, Record, RecordModel, RecordType};
use crate::store::Zone;
use vstd::prelude::*;

verus! {

/// The operation a message asks for.
#[derive(Clone, Copy, Debug, PartialEq, Eq, Structural)]
pub enum OpCode {
    Query,
    Status,
    Notify,
    Update,
    Unknown(u8),
}

/// Whether a message is a query or a response.
#[derive(Clone, Copy, Debug, PartialEq, Eq, Structural)]
pub enum MessageType {
    Query,
    Response,
}

/// An inbound question: the name and type asked for, and the header fields
/// that decide whether it is served.
#[derive(Debug)]
pub struct Query {
    pub name: DnsName,
    pub query_type: RecordType,
    pub op_code: OpCode,
    pub message_type: MessageType,
}

/// The response code of an answer.
#[derive(Clone, Copy, Debug, PartialEq, Eq, Structural)]
pub enum ResponseCode {
    NoError,
    ServFail,
    NXDomain,
}

/// How the upstream resolver failed.
#[derive(Clone, Copy, Debug, PartialEq, Eq, Structural)]
pub enum UpstreamError {
    /// The upstream server answered that the name does not exist.
    NotFound,
    Timeout,
    TransportFailure,
}

/// How an upstream lookup failed, as the resolver reports it.
#[derive(Clone, Copy, Debug, PartialEq, Eq, Structural)]
pub enum LookupFailure {
    /// The upstream server answered with no records, under this response
    /// code.
    NoRecords(u16),
    /// The upstream server did not answer in time.
    Timeout,
    /// Any other failure: no connection, an I/O error, a malformed message.
    Transport,
}

/// The response codes NoError and NXDomain.
pub const RCODE_NO_ERROR: u16 = 0;
pub const RCODE_NX_DOMAIN: u16 = 3;

/// What a failed lookup means: an empty answer where the name exists with no
/// records of the type, a negative answer where the name does not exist, a
/// timeout, and a transport failure for everything else.
pub open spec fn failure_result(f: LookupFailure) -> Result<Seq<RecordModel>, UpstreamError> {
    match f {
        LookupFailure::NoRecords(code) => if code == RCODE_NO_ERROR {
            Ok(Seq::empty())
        } else if code == RCODE_NX_DOMAIN {
            Err(UpstreamError::NotFound)
        } else {
            Err(UpstreamError::TransportFailure)
        },
        LookupFailure::Timeout => Err(UpstreamError::Timeout),
        LookupFailure::Transport => Err(UpstreamError::TransportFailure),
    }
}

/// An outbound answer: its response code and the records of its answer
/// section.
#[derive(Debug)]
pub struct Response {
    pub code: ResponseCode,
    pub answers: Vec<Record>,
}

/// What the pipeline does with a query once the override zone is consulted.
#[derive(Debug)]
pub enum Step {
    /// Send this response; no upstream call is made.
    Respond(Response),
    /// Ask the upstream resolver for the query's name and type once, and
    /// answer with `finish` of its result.
    Forward,
}

/// The meaning of a `Step`: a reply with its code and answers, or a forward.
pub enum Outcome {
    Reply(ResponseCode, Seq<RecordModel>),
    Forward,
}

/// The outcome of a `Step`.
pub open spec fn outcome_of(s: Step) -> Outcome {
    match s {
        Step::Respond(r) => Outcome::Reply(r.code, models(r.answers@)),
        Step::Forward => Outcome::Forward,
    }
}

/// Only a standard query, sent as a query, is served.
pub open spec fn supported(op_code: OpCode, message_type: MessageType) -> bool {
    op_code == OpCode::Query && message_type == MessageType::Query
}

/// What the pipeline decides for a query on `name` and `qtype` against the
/// override zone `z`: a failure for an unsupported request, the zone's
/// records where it has the key (the type in its one spelling), else a
/// forward.
pub open spec fn decide(z: Zone, name: Seq<u8>, qtype: RecordType, op_code: OpCode, message_type: MessageType) -> Outcome {
    if !supported(op_code, message_type) {
        Outcome::Reply(ResponseCode::ServFail, Seq::empty())
    } else if z.contains_key((name, canonical_type(qtype))) {
        Outcome::Reply(ResponseCode::NoError, z[(name, canonical_type(qtype))])
    } else {
        Outcome::Forward
    }
}

/// The reply that an upstream result gives: its records, a negative answer
/// for a name that does not exist, and a failure for any other error.
pub open spec fn upstream_reply(upstream: Result<Seq<RecordModel>, UpstreamError>) -> Outcome {
    match upstream {
        Ok(records) => Outcome::Reply(ResponseCode::NoError, records),
        Err(UpstreamError::NotFound) => Outcome::Reply(ResponseCode::NXDomain, Seq::empty()),
        Err(_) => Outcome::Reply(ResponseCode::ServFail, Seq::empty()),
    }
}

/// The reply to a query, given what the upstream resolver would return for
/// it: the upstream result is used only where the decision is to forward.
pub open spec fn resolved(
    z: Zone,
    name: Seq<u8>,
    qtype: RecordType,
    op_code: OpCode,
    message_type: MessageType,
    upstream: Result<Seq<RecordModel>, UpstreamError>,
) -> Outcome {
    match decide(z, name, qtype, op_code, message_type) {
        Outcome::Forward => upstream_reply(upstream),
        reply => reply,
    }
}

/// The upstream result with its records viewed as a sequence.
pub open spec fn upstream_view(upstream: Result<Vec<Record>, UpstreamError>) -> Result<Seq<RecordModel>, UpstreamError> {
    match upstream {
        Ok(v) => Ok(models(v@)),
        Err(e) => Err(e),
    }
}

/// Whether a query is served at all.
pub fn is_supported(op_code: OpCode, message_type: MessageType) -> (r: bool)
    ensures
        r == supported(op_code, message_type),
{
    match (op_code, message_type) {
        (OpCode::Query, MessageType::Query) => true,
        _ => false,
    }
}

/// The failure response: code ServFail and no answers.
pub fn serv_fail() -> (r: Response)
    ensures
        r.code == ResponseCode::ServFail,
        models(r.answers@) == Seq::<RecordModel>::empty(),
{
    let answers: Vec<Record> = Vec::new();
    assert(models(answers@) =~= Seq::<RecordModel>::empty());
    Response { code: ResponseCode::ServFail, answers }
}

/// First step of the pipeline: validate the query, then consult the override
/// zone. The upstream resolver is asked only where this returns `Forward`.
pub fn begin(auth: &OverrideAuthority, q: &Query) -> (r: Step)
    requires
        auth.wf(),
    ensures
        outcome_of(r) == decide(auth@, q.name@, q.query_type, q.op_code, q.message_type),
{
    if !is_supported(q.op_code, q.message_type) {
        return Step::Respond(serv_fail());
    }
    match auth.lookup(&q.name, q.query_type) {
        Some(set) => Step::Respond(Response { code: ResponseCode::NoError, answers: copy_records(&set.records) }),
        None => Step::Forward,
    }
}

/// The upstream result that a failed lookup gives.
pub fn classify_failure(f: LookupFailure) -> (r: Result<Vec<Record>, UpstreamError>)
    ensures
        upstream_view(r) == failure_result(f),
{
    match f {
        LookupFailure::NoRecords(code) => {
            if code == RCODE_NO_ERROR {
                let none: Vec<Record> = Vec::new();
                assert(models(none@) =~= Seq::<RecordModel>::empty());
                Ok(none)
            } else if code == RCODE_NX_DOMAIN {
                Err(UpstreamError::NotFound)
            } else {
                Err(UpstreamError::TransportFailure)
            }
        },
        LookupFailure::Timeout => Err(UpstreamError::Timeout),
        LookupFailure::Transport => Err(UpstreamError::TransportFailure),
    }
}

/// Last step of the pipeline for a forwarded query: the response that the
/// upstream result gives.
pub fn finish(upstream: Result<Vec<Record>, UpstreamError>) -> (r: Response)
    ensures
        Outcome::Reply(r.code, models(r.answers@)) == upstream_reply(upstream_view(upstream)),
{
    match upstream {
        Ok(records) => Response { code: ResponseCode::NoError, answers: records },
        Err(UpstreamError::NotFound) => {
            let answers: Vec<Record> = Vec::new();
            assert(models(answers@) =~= Seq::<RecordModel>::empty());
            Response { code: ResponseCode::NXDomain, answers }
        },
        Err(_) => serv_fail(),
    }
}

} // verus!
