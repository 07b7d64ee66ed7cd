//! The wire shape of an envelope: a JSON object with the members `action`,
//! `message_id` and `data`, and the two directions between an envelope and
//! its bytes.

use vstd::prelude::*;
use crate::envelope::{valid, Action, CustomMessage, Envelope, KafkaMessage, Payload};
use crate::json::{
    error_text, as_integer, as_text, empty_object, integer_value, is_null, json_parse, json_print, json_tree,
    member, null_value, parse_value, print_value, set_member, text_value, Tree,
};

verus! {

/// Why an envelope could not be read or written.
#[derive(Clone, Copy, Debug, PartialEq, Eq, Structural)]
pub enum CodecError {
    /// The bytes are not a JSON document, or a member that the action needs
    /// is absent or has the wrong type.
    MalformedEnvelope,
    /// The document could not be written.
    EncodingFailure,
}

/// The text that stands for an action.
pub open spec fn action_name(a: Action) -> Seq<char> {
    match a {
        Action::Create => "Create"@,
        Action::Update => "Update"@,
        Action::Delete => "Delete"@,
    }
}

/// The document that stands for a payload.
pub open spec fn payload_tree(p: Payload) -> Tree {
    Tree::Object(
        Map::empty().insert("name"@, Tree::Text(p.name)).insert("message"@, Tree::Text(p.message)),
    )
}

/// The document that stands for an envelope. An envelope without payload has
/// `null` under `data`.
pub open spec fn envelope_tree(e: Envelope) -> Tree {
    Tree::Object(
        Map::empty().insert("action"@, Tree::Text(action_name(e.action))).insert(
            "message_id"@,
            Tree::Integer(e.message_id),
        ).insert(
            "data"@,
            match e.payload {
                Some(p) => payload_tree(p),
                None => Tree::Null,
            },
        ),
    )
}

/// The action that a document names, if it names one.
pub open spec fn read_action(t: Tree) -> Option<Action> {
    match t {
        Tree::Text(s) => if s == "Create"@ {
            Some(Action::Create)
        } else if s == "Update"@ {
            Some(Action::Update)
        } else if s == "Delete"@ {
            Some(Action::Delete)
        } else {
            None
        },
        _ => None,
    }
}

/// The identifier that a document holds: an integer of 32 bits, signed.
pub open spec fn read_id(t: Tree) -> Option<int> {
    match t {
        Tree::Integer(i) => if i32::MIN <= i <= i32::MAX {
            Some(i)
        } else {
            None
        },
        _ => None,
    }
}

/// The text under `key` in an object, where there is one.
pub open spec fn read_text(m: Map<Seq<char>, Tree>, key: Seq<char>) -> Option<Seq<char>> {
    if m.contains_key(key) {
        match m[key] {
            Tree::Text(s) => Some(s),
            _ => None,
        }
    } else {
        None
    }
}

/// The payload that a document holds: an object with the texts `name` and
/// `message`. Other members are passed over.
pub open spec fn read_payload(t: Tree) -> Option<Payload> {
    match t {
        Tree::Object(m) => match (read_text(m, "name"@), read_text(m, "message"@)) {
            (Some(name), Some(message)) => Some(Payload { name, message }),
            _ => None,
        },
        _ => None,
    }
}

/// The envelope that a document holds, or `None` where it holds none: the
/// document is an object; `action` names an action; `message_id` is an integer
/// of 32 bits; `data` is absent, `null` or a payload; and `Create` and `Update`
/// have a payload. Other members are passed over.
pub open spec fn read_envelope(t: Tree) -> Option<Envelope> {
    match t {
        Tree::Object(m) => {
            if !m.contains_key("action"@) || !m.contains_key("message_id"@) {
                None
            } else {
                match (read_action(m["action"@]), read_id(m["message_id"@])) {
                    (Some(action), Some(message_id)) => {
                        if !m.contains_key("data"@) || m["data"@] is Null {
                            if action == Action::Delete {
                                Some(Envelope { action, message_id, payload: None })
                            } else {
                                None
                            }
                        } else {
                            match read_payload(m["data"@]) {
                                Some(p) => Some(Envelope { action, message_id, payload: Some(p) }),
                                None => None,
                            }
                        }
                    },
                    _ => None,
                }
            }
        },
        _ => None,
    }
}

/// The envelope that a byte string spells, or `None` where it spells none.
pub open spec fn decoded(bytes: Seq<u8>) -> Option<Envelope> {
    match json_parse(bytes) {
        Some(t) => read_envelope(t),
        None => None,
    }
}

/// The bytes that stand for an envelope, or `None` where it cannot be written.
pub open spec fn encoded(e: Envelope) -> Option<Seq<u8>> {
    json_print(envelope_tree(e))
}

fn action_of(v: &serde_json::Value) -> (r: Option<Action>)
    ensures
        r == read_action(json_tree(*v)),
{
    match as_text(v) {
        Some(s) => {
            let name: String = s.to_owned();
            if name == "Create".to_owned() {
                Some(Action::Create)
            } else if name == "Update".to_owned() {
                Some(Action::Update)
            } else if name == "Delete".to_owned() {
                Some(Action::Delete)
            } else {
                None
            }
        },
        None => None,
    }
}

fn id_of(v: &serde_json::Value) -> (r: Option<i32>)
    ensures
        match read_id(json_tree(*v)) {
            Some(i) => r matches Some(x) && x == i,
            None => r is None,
        },
{
    match as_integer(v) {
        Some(x) => {
            if -2147483648 <= x && x <= 2147483647 {
                Some(x as i32)
            } else {
                None
            }
        },
        None => None,
    }
}

fn text_of(v: &serde_json::Value, key: &str) -> (r: Option<String>)
    ensures
        match json_tree(*v) {
            Tree::Object(m) => match read_text(m, key@) {
                Some(s) => r matches Some(x) && x@ == s,
                None => r is None,
            },
            _ => r is None,
        },
{
    match member(v, key) {
        Some(x) => match as_text(x) {
            Some(s) => Some(s.to_owned()),
            None => None,
        },
        None => None,
    }
}

fn payload_of(v: &serde_json::Value) -> (r: Option<CustomMessage>)
    ensures
        match read_payload(json_tree(*v)) {
            Some(p) => r matches Some(x) && x@ == p,
            None => r is None,
        },
{
    match text_of(v, "name") {
        Some(name) => match text_of(v, "message") {
            Some(message) => Some(CustomMessage::new(name, message)),
            None => None,
        },
        None => None,
    }
}

/// Reads the envelope that a document holds. Fails with `MalformedEnvelope`
/// exactly where the document holds none.
pub fn read(doc: &serde_json::Value) -> (r: Result<KafkaMessage, CodecError>)
    ensures
        match read_envelope(json_tree(*doc)) {
            Some(e) => r matches Ok(m) && m@ == e && m.wf(),
            None => r matches Err(err) && err == CodecError::MalformedEnvelope,
        },
{
    let action = match member(doc, "action") {
        Some(v) => action_of(v),
        None => None,
    };
    let message_id = match member(doc, "message_id") {
        Some(v) => id_of(v),
        None => None,
    };
    match (action, message_id) {
        (Some(action), Some(message_id)) => {
            let data = match member(doc, "data") {
                Some(v) => {
                    if is_null(v) {
                        None
                    } else {
                        match payload_of(v) {
                            Some(p) => Some(p),
                            None => {
                                return Err(CodecError::MalformedEnvelope);
                            },
                        }
                    }
                },
                None => None,
            };
            match KafkaMessage::new(action, message_id, data) {
                Some(m) => Ok(m),
                None => Err(CodecError::MalformedEnvelope),
            }
        },
        _ => Err(CodecError::MalformedEnvelope),
    }
}

/// Decodes an envelope from the bytes of a record or of a request. Fails with
/// `MalformedEnvelope` exactly where the bytes spell no envelope, and with
/// nothing else.
pub fn decode(bytes: &[u8]) -> (r: Result<KafkaMessage, CodecError>)
    ensures
        match decoded(bytes@) {
            Some(e) => r matches Ok(m) && m@ == e && m.wf(),
            None => r matches Err(err) && err == CodecError::MalformedEnvelope,
        },
{
    match parse_value(bytes) {
        Ok(doc) => read(&doc),
        Err(_) => Err(CodecError::MalformedEnvelope),
    }
}

/// Why the bytes spell no envelope, in words for a log: the parser's own
/// where the bytes are no JSON document. `None` exactly where they spell an
/// envelope.
pub fn refusal(bytes: &[u8]) -> (r: Option<String>)
    ensures
        r is None <==> decoded(bytes@) is Some,
{
    match parse_value(bytes) {
        Ok(doc) => match read(&doc) {
            Ok(_) => None,
            Err(_) => Some("the document holds no envelope".to_owned()),
        },
        Err(e) => Some(error_text(&e)),
    }
}

/// The document that stands for an envelope.
pub fn document(msg: &KafkaMessage) -> (r: serde_json::Value)
    ensures
        json_tree(r) == envelope_tree(msg@),
{
    let name = match msg.action() {
        Action::Create => "Create",
        Action::Update => "Update",
        Action::Delete => "Delete",
    };
    let data = if msg.has_data() {
        let d = msg.data();
        let mut inner = empty_object();
        set_member(&mut inner, "name", text_value(d.name()));
        set_member(&mut inner, "message", text_value(d.message()));
        inner
    } else {
        null_value()
    };
    let mut doc = empty_object();
    set_member(&mut doc, "action", text_value(name));
    set_member(&mut doc, "message_id", integer_value(*msg.message_id() as i64));
    set_member(&mut doc, "data", data);
    doc
}

/// Writes an envelope, keeping the serializer's error where it fails.
pub(crate) fn serialize(msg: &KafkaMessage) -> (r: Result<Vec<u8>, serde_json::Error>)
    ensures
        match encoded(msg@) {
            Some(b) => r matches Ok(x) && x@ == b,
            None => r is Err,
        },
{
    let doc = document(msg);
    print_value(&doc)
}

/// Encodes an envelope as the bytes of a record. Fails with `EncodingFailure`
/// exactly where the document cannot be written.
pub fn encode(msg: &KafkaMessage) -> (r: Result<Vec<u8>, CodecError>)
    ensures
        match encoded(msg@) {
            Some(b) => r matches Ok(x) && x@ == b,
            None => r matches Err(err) && err == CodecError::EncodingFailure,
        },
{
    match serialize(msg) {
        Ok(b) => Ok(b),
        Err(_) => Err(CodecError::EncodingFailure),
    }
}

/// The names of the members differ from one another, and so do the names of
/// the actions.
pub proof fn lemma_names_differ()
    ensures
        "action"@ != "message_id"@,
        "action"@ != "data"@,
        "message_id"@ != "data"@,
        "name"@ != "message"@,
        "Create"@ != "Update"@,
        "Create"@ != "Delete"@,
        "Update"@ != "Delete"@,
{
    reveal_strlit("action");
    reveal_strlit("message_id");
    reveal_strlit("data");
    reveal_strlit("name");
    reveal_strlit("message");
    reveal_strlit("Create");
    reveal_strlit("Update");
    reveal_strlit("Delete");
    assert("action"@.len() == 6 && "message_id"@.len() == 10 && "data"@.len() == 4);
    assert("name"@.len() == 4 && "message"@.len() == 7);
    assert("Create"@[0] != "Update"@[0]);
    assert("Create"@[0] != "Delete"@[0]);
    assert("Update"@[0] != "Delete"@[0]);
}

/// Reading the document that stands for a valid envelope gives that envelope
/// back.
pub proof fn lemma_read_inverts_tree(e: Envelope)
    requires
        valid(e),
    ensures
        read_envelope(envelope_tree(e)) == Some(e),
{
    lemma_names_differ();
    let m = envelope_tree(e)->Object_0;
    assert(m.contains_key("action"@));
    assert(m.contains_key("message_id"@));
    assert(m.contains_key("data"@));
    assert(m["action"@] == Tree::Text(action_name(e.action)));
    assert(read_action(m["action"@]) == Some(e.action));
    assert(read_id(m["message_id"@]) == Some(e.message_id));
    match e.payload {
        Some(p) => {
            let inner = payload_tree(p)->Object_0;
            assert(inner.contains_key("name"@));
            assert(inner.contains_key("message"@));
            assert(read_text(inner, "name"@) == Some(p.name));
            assert(read_text(inner, "message"@) == Some(p.message));
            assert(read_payload(payload_tree(p)) == Some(p));
        },
        None => {},
    }
}

/// Round trip: where the bytes written for a valid envelope are read back as
/// the document they were written for, decoding them gives the envelope.
pub proof fn lemma_round_trip(e: Envelope, bytes: Seq<u8>)
    requires
        valid(e),
    ensures
        encoded(e) == Some(bytes) && json_parse(bytes) == Some(envelope_tree(e)) ==> decoded(bytes)
            == Some(e),
{
    lemma_read_inverts_tree(e);
}

/// Every envelope that decoding gives is valid.
pub proof fn lemma_decoded_is_valid(bytes: Seq<u8>)
    ensures
        decoded(bytes) matches Some(e) ==> valid(e),
{
}

} // verus!
