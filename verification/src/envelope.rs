//! The envelope: an action, the identifier of the row it is about, and the
//! payload that `Create` and `Update` carry.

use vstd::prelude::*;

verus! {

/// What an envelope asks of the store.
#[derive(Clone, Copy, Debug, PartialEq, Eq, Structural)]
pub enum Action {
    Create,
    Update,
    Delete,
}

/// The mathematical value of a payload.
pub struct Payload {
    pub name: Seq<char>,
    pub message: Seq<char>,
}

/// The mathematical value of an envelope.
pub struct Envelope {
    pub action: Action,
    pub message_id: int,
    pub payload: Option<Payload>,
}

/// An envelope is valid when its identifier is a signed 32-bit integer and
/// `Create` and `Update` come with a payload.
pub open spec fn valid(e: Envelope) -> bool {
    &&& i32::MIN <= e.message_id <= i32::MAX
    &&& (e.action != Action::Delete ==> e.payload is Some)
}

/// The payload of an envelope: the two text columns of a stored row.
#[derive(Debug, Clone)]
pub struct CustomMessage {
    name: String,
    message: String,
}

impl View for CustomMessage {
    type V = Payload;

    closed spec fn view(&self) -> Payload {
        Payload { name: self.name@, message: self.message@ }
    }
}

impl CustomMessage {
    /// A payload with the given columns.
    pub fn new(name: String, message: String) -> (r: CustomMessage)
        ensures
            r@ == (Payload { name: name@, message: message@ }),
    {
        CustomMessage { name, message }
    }

    pub fn name(&self) -> (r: &str)
        ensures
            r@ == self@.name,
    {
        self.name.as_str()
    }

    pub fn message(&self) -> (r: &str)
        ensures
            r@ == self@.message,
    {
        self.message.as_str()
    }

    /// A copy with the same columns.
    pub fn duplicate(&self) -> (r: CustomMessage)
        ensures
            r@ == self@,
    {
        CustomMessage { name: self.name.clone(), message: self.message.clone() }
    }
}

/// The unit of work that travels through the broker. Every value of this
/// type is valid: `Create` and `Update` carry a payload.
#[derive(Debug)]
pub struct KafkaMessage {
    action: Action,
    message_id: i32,
    data: Option<CustomMessage>,
}

impl View for KafkaMessage {
    type V = Envelope;

    closed spec fn view(&self) -> Envelope {
        Envelope {
            action: self.action,
            message_id: self.message_id as int,
            payload: match self.data {
                Some(d) => Some(d@),
                None => None,
            },
        }
    }
}

impl KafkaMessage {
    #[verifier::type_invariant]
    spec fn holds_needed_payload(self) -> bool {
        self.action != Action::Delete ==> self.data is Some
    }

    /// Whether this envelope is valid: `Create` and `Update` carry a payload.
    /// It holds of every envelope; `action` says so to its caller.
    pub open spec fn wf(&self) -> bool {
        valid(self@)
    }

    /// An envelope from its parts, or `None` where `Create` or `Update` comes
    /// without a payload.
    pub fn new(action: Action, message_id: i32, data: Option<CustomMessage>) -> (r: Option<
        KafkaMessage,
    >)
        ensures
            r is Some <==> (action != Action::Delete ==> data is Some),
            r matches Some(m) ==> m.wf() && m@ == (Envelope {
                action,
                message_id: message_id as int,
                payload: match data {
                    Some(d) => Some(d@),
                    None => None,
                },
            }),
    {
        if action != Action::Delete && data.is_none() {
            None
        } else {
            Some(KafkaMessage { action, message_id, data })
        }
    }

    pub fn action(&self) -> (r: Action)
        ensures
            r == self@.action,
            self.wf(),
    {
        proof {
            use_type_invariant(self);
        }
        self.action
    }

    pub fn message_id(&self) -> (r: &i32)
        ensures
            *r as int == self@.message_id,
    {
        &self.message_id
    }

    /// Whether a payload is present.
    pub fn has_data(&self) -> (r: bool)
        ensures
            r == (self@.payload is Some),
    {
        self.data.is_some()
    }

    /// The payload of an envelope that has one.
    pub fn data(&self) -> (r: &CustomMessage)
        requires
            self@.payload is Some,
        ensures
            Some(r@) == self@.payload,
    {
        self.data.as_ref().unwrap()
    }
}

} // verus!
