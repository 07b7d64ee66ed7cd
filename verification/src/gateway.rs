//! The producer gateway: what is published for an envelope, and what the
//! caller is told once the broker has answered.

use vstd::prelude::*;
use crate::codec::{decode, decoded, encoded, serialize};
use crate::envelope::KafkaMessage;
use crate::json::error_text;

verus! {

/// The status of a response to a request whose publish failed: the broker or
/// its client failed, or the wait for the acknowledgment was cancelled.
pub const SERVER_ERROR: u16 = 500;

/// The status of a response to a request whose body spells no envelope or
/// whose envelope could not be encoded.
pub const BAD_REQUEST: u16 = 400;

/// The one topic that envelopes are published on.
pub fn topic() -> (r: &'static str)
    ensures
        r@ == "messages"@,
{
    "messages"
}

/// The one key that every envelope is published under, so that all of them
/// reach the same partition.
pub fn routing_key() -> (r: &'static str)
    ensures
        r@ == "1"@,
{
    "1"
}

/// The confirmation that the caller gets for an acknowledged publish.
pub fn confirmation() -> (r: &'static str)
    ensures
        r@ == "Message sent!"@,
{
    "Message sent!"
}

/// One record to publish.
#[derive(Debug)]
pub struct Publication {
    pub topic: &'static str,
    pub key: &'static str,
    pub payload: Vec<u8>,
}

/// Why a send failed, each with the text of the failure that caused it.
#[derive(Debug)]
pub enum ApiError {
    /// The broker's client library failed.
    RDKafka(String),
    /// The broker refused the record or did not acknowledge it.
    Kafka(String),
    /// The envelope could not be encoded.
    SerdeJson(String),
    /// The wait for the acknowledgment was cancelled.
    CancelledMessage(String),
}

/// A response: a status and a body.
#[derive(Debug)]
pub struct Response {
    pub status: u16,
    pub body: String,
}

/// How a publish ended.
#[derive(Debug)]
pub enum PublishOutcome {
    /// The broker acknowledged the record.
    Acknowledged,
    /// The client did not take the record.
    Refused(String),
    /// The wait for the acknowledgment was cancelled.
    Cancelled(String),
    /// The broker reported that the record was not delivered, or the wait
    /// for its answer ran out.
    Undelivered(String),
}

/// The status that goes with each failure.
pub open spec fn status_of(e: ApiError) -> u16 {
    match e {
        ApiError::RDKafka(_) => SERVER_ERROR,
        ApiError::Kafka(_) => SERVER_ERROR,
        ApiError::SerdeJson(_) => BAD_REQUEST,
        ApiError::CancelledMessage(_) => SERVER_ERROR,
    }
}

/// The text that each failure carries.
pub open spec fn text_of(e: ApiError) -> Seq<char> {
    match e {
        ApiError::RDKafka(t) => t@,
        ApiError::Kafka(t) => t@,
        ApiError::SerdeJson(t) => t@,
        ApiError::CancelledMessage(t) => t@,
    }
}

impl ApiError {
    /// The response for this failure: a server error for every failure of
    /// the publish, a cancelled wait among them, a client error for an
    /// envelope that could not be encoded, and the failure's text as body.
    pub fn into_response(self) -> (r: Response)
        ensures
            r.status == status_of(self),
            r.body@ == text_of(self),
    {
        match self {
            ApiError::RDKafka(t) => Response { status: SERVER_ERROR, body: t },
            ApiError::Kafka(t) => Response { status: SERVER_ERROR, body: t },
            ApiError::SerdeJson(t) => Response { status: BAD_REQUEST, body: t },
            ApiError::CancelledMessage(t) => Response { status: SERVER_ERROR, body: t },
        }
    }
}

/// Takes the body of a request as an envelope. A body that spells no
/// envelope is refused with a client error, and nothing is published.
pub fn accept(body: &[u8]) -> (r: Result<KafkaMessage, Response>)
    ensures
        match decoded(body@) {
            Some(e) => r matches Ok(m) && m@ == e && m.wf(),
            None => r matches Err(answer) && answer.status == BAD_REQUEST && answer.body@
                == "malformed envelope"@,
        },
{
    match decode(body) {
        Ok(m) => Ok(m),
        Err(_) => Err(Response { status: BAD_REQUEST, body: "malformed envelope".to_owned() }),
    }
}

/// The record to publish for an envelope: its encoding, on the fixed topic
/// and under the fixed key. Fails, with `SerdeJson`, exactly where the
/// envelope cannot be encoded.
pub fn prepare(msg: &KafkaMessage) -> (r: Result<Publication, ApiError>)
    ensures
        match encoded(msg@) {
            Some(b) => r matches Ok(p) && p.topic@ == "messages"@ && p.key@ == "1"@ && p.payload@
                == b,
            None => r matches Err(e) && e is SerdeJson,
        },
{
    match serialize(msg) {
        Ok(payload) => Ok(Publication { topic: topic(), key: routing_key(), payload }),
        Err(e) => Err(ApiError::SerdeJson(error_text(&e))),
    }
}

/// What the caller is told after the one publish attempt: the confirmation
/// where the broker acknowledged, else the failure. Nothing is tried again.
pub fn conclude(outcome: PublishOutcome) -> (r: Result<&'static str, ApiError>)
    ensures
        match outcome {
            PublishOutcome::Acknowledged => r matches Ok(s) && s@ == "Message sent!"@,
            PublishOutcome::Refused(t) => r matches Err(ApiError::Kafka(x)) && x@ == t@,
            PublishOutcome::Cancelled(t) => r matches Err(ApiError::CancelledMessage(x)) && x@
                == t@,
            PublishOutcome::Undelivered(t) => r matches Err(ApiError::Kafka(x)) && x@ == t@,
        },
{
    match outcome {
        PublishOutcome::Acknowledged => Ok(confirmation()),
        PublishOutcome::Refused(t) => Err(ApiError::Kafka(t)),
        PublishOutcome::Cancelled(t) => Err(ApiError::CancelledMessage(t)),
        PublishOutcome::Undelivered(t) => Err(ApiError::Kafka(t)),
    }
}

} // verus!
