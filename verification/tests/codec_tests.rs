use message_bridge::codec::{decode, document, encode, read, refusal, CodecError};
use message_bridge::envelope::{Action, CustomMessage, KafkaMessage};

fn payload(name: &str, message: &str) -> CustomMessage {
    CustomMessage::new(name.to_string(), message.to_string())
}

fn envelope(action: Action, id: i32, data: Option<CustomMessage>) -> KafkaMessage {
    KafkaMessage::new(action, id, data).expect("a valid envelope")
}

fn same(a: &KafkaMessage, b: &KafkaMessage) -> bool {
    a.action() == b.action()
        && a.message_id() == b.message_id()
        && a.has_data() == b.has_data()
        && (!a.has_data()
            || (a.data().name() == b.data().name() && a.data().message() == b.data().message()))
}

#[test]
fn getters_give_the_parts() {
    let m = envelope(Action::Update, -7, Some(payload("n", "m")));
    assert_eq!(m.action(), Action::Update);
    assert_eq!(*m.message_id(), -7);
    assert!(m.has_data());
    assert_eq!(m.data().name(), "n");
    assert_eq!(m.data().message(), "m");
    let copy = m.data().duplicate();
    assert_eq!(copy.name(), "n");
    assert_eq!(copy.message(), "m");
}

#[test]
fn create_and_update_need_a_payload() {
    assert!(KafkaMessage::new(Action::Create, 1, None).is_none());
    assert!(KafkaMessage::new(Action::Update, 1, None).is_none());
    let d = KafkaMessage::new(Action::Delete, 1, None).expect("delete needs none");
    assert!(!d.has_data());
    assert!(KafkaMessage::new(Action::Delete, 1, Some(payload("a", "b"))).is_some());
}

#[test]
fn encode_writes_the_members_by_name() {
    let m = envelope(Action::Create, 42, Some(payload("a", "hi")));
    let bytes = encode(&m).expect("encodes");
    assert_eq!(
        String::from_utf8(bytes).unwrap(),
        "{\"action\":\"Create\",\"data\":{\"message\":\"hi\",\"name\":\"a\"},\"message_id\":42}"
    );
}

#[test]
fn encode_writes_null_for_no_payload() {
    let m = envelope(Action::Delete, -3, None);
    let bytes = encode(&m).expect("encodes");
    assert_eq!(
        String::from_utf8(bytes).unwrap(),
        "{\"action\":\"Delete\",\"data\":null,\"message_id\":-3}"
    );
}

#[test]
fn encode_escapes_text() {
    let m = envelope(Action::Update, 0, Some(payload("q\"uote", "line\nbreak \\ \u{e9}")));
    let bytes = encode(&m).expect("encodes");
    let back = decode(&bytes).expect("decodes");
    assert!(same(&m, &back));
    assert_eq!(back.data().name(), "q\"uote");
    assert_eq!(back.data().message(), "line\nbreak \\ \u{e9}");
}

#[test]
fn round_trip_of_each_action() {
    let all = vec![
        envelope(Action::Create, 42, Some(payload("a", "hi"))),
        envelope(Action::Update, i32::MAX, Some(payload("", ""))),
        envelope(Action::Delete, i32::MIN, None),
        envelope(Action::Delete, 5, Some(payload("kept", "too"))),
    ];
    for m in all.iter() {
        let bytes = encode(m).expect("encodes");
        let back = decode(&bytes).expect("decodes");
        assert!(same(m, &back));
    }
}

#[test]
fn decode_reads_a_create_request() {
    let m = decode(b"{\"action\":\"Create\",\"message_id\":42,\"data\":{\"name\":\"a\",\"message\":\"hi\"}}")
        .expect("decodes");
    assert_eq!(m.action(), Action::Create);
    assert_eq!(*m.message_id(), 42);
    assert_eq!(m.data().name(), "a");
    assert_eq!(m.data().message(), "hi");
}

#[test]
fn decode_reads_a_delete_without_data() {
    let m = decode(b"{\"action\":\"Delete\",\"message_id\":42}").expect("decodes");
    assert_eq!(m.action(), Action::Delete);
    assert_eq!(*m.message_id(), 42);
    assert!(!m.has_data());
    let n = decode(b" { \"message_id\" : 7 , \"data\" : null , \"action\" : \"Delete\" } ")
        .expect("decodes");
    assert_eq!(*n.message_id(), 7);
    assert!(!n.has_data());
}

#[test]
fn decode_passes_over_other_members() {
    let m = decode(
        b"{\"action\":\"Update\",\"extra\":[1,2.5,true],\"message_id\":1,\"data\":{\"name\":\"n\",\"message\":\"m\",\"more\":{}}}",
    )
    .expect("decodes");
    assert_eq!(m.action(), Action::Update);
    assert_eq!(m.data().name(), "n");
    assert_eq!(m.data().message(), "m");
}

fn malformed(bytes: &[u8]) -> bool {
    matches!(decode(bytes), Err(CodecError::MalformedEnvelope))
}

#[test]
fn decode_refuses_what_is_no_json() {
    assert!(malformed(b""));
    assert!(malformed(b"not json"));
    assert!(malformed(b"{\"action\":\"Delete\",\"message_id\":1"));
    assert!(malformed(b"{\"action\":\"Delete\",\"message_id\":1} trailing"));
    assert!(malformed(&[0xff, 0xfe, 0x00]));
}

#[test]
fn decode_refuses_other_shapes() {
    assert!(malformed(b"null"));
    assert!(malformed(b"42"));
    assert!(malformed(b"[\"Delete\",1]"));
    assert!(malformed(b"{}"));
    assert!(malformed(b"{\"message_id\":1}"));
    assert!(malformed(b"{\"action\":\"Delete\"}"));
    assert!(malformed(b"{\"action\":\"Drop\",\"message_id\":1}"));
    assert!(malformed(b"{\"action\":\"delete\",\"message_id\":1}"));
    assert!(malformed(b"{\"action\":1,\"message_id\":1}"));
    assert!(malformed(b"{\"action\":\"Delete\",\"message_id\":\"1\"}"));
    assert!(malformed(b"{\"action\":\"Delete\",\"message_id\":1.5}"));
    assert!(malformed(b"{\"action\":\"Delete\",\"message_id\":null}"));
}

#[test]
fn decode_refuses_an_identifier_out_of_range() {
    assert!(malformed(b"{\"action\":\"Delete\",\"message_id\":2147483648}"));
    assert!(malformed(b"{\"action\":\"Delete\",\"message_id\":-2147483649}"));
    assert!(malformed(b"{\"action\":\"Delete\",\"message_id\":18446744073709551615}"));
    assert!(malformed(b"{\"action\":\"Delete\",\"message_id\":99999999999999999999999}"));
    assert!(!malformed(b"{\"action\":\"Delete\",\"message_id\":2147483647}"));
    assert!(!malformed(b"{\"action\":\"Delete\",\"message_id\":-2147483648}"));
}

#[test]
fn decode_refuses_a_missing_or_mistyped_payload() {
    assert!(malformed(b"{\"action\":\"Create\",\"message_id\":1}"));
    assert!(malformed(b"{\"action\":\"Update\",\"message_id\":1,\"data\":null}"));
    assert!(malformed(b"{\"action\":\"Create\",\"message_id\":1,\"data\":5}"));
    assert!(malformed(b"{\"action\":\"Create\",\"message_id\":1,\"data\":{\"name\":\"a\"}}"));
    assert!(malformed(b"{\"action\":\"Create\",\"message_id\":1,\"data\":{\"message\":\"a\"}}"));
    assert!(malformed(
        b"{\"action\":\"Create\",\"message_id\":1,\"data\":{\"name\":1,\"message\":\"a\"}}"
    ));
    assert!(malformed(b"{\"action\":\"Delete\",\"message_id\":1,\"data\":\"x\"}"));
}

#[test]
fn read_takes_a_document() {
    let doc: serde_json::Value =
        serde_json::from_str("{\"action\":\"Update\",\"message_id\":9,\"data\":{\"name\":\"a\",\"message\":\"bye\"}}")
            .unwrap();
    let m = read(&doc).expect("reads");
    assert_eq!(m.action(), Action::Update);
    assert_eq!(*m.message_id(), 9);
    assert_eq!(m.data().message(), "bye");
    let other: serde_json::Value = serde_json::from_str("[1,2]").unwrap();
    assert!(matches!(read(&other), Err(CodecError::MalformedEnvelope)));
}

#[test]
fn document_holds_the_three_members() {
    let m = envelope(Action::Create, 42, Some(payload("a", "hi")));
    let doc = document(&m);
    assert_eq!(doc.as_object().unwrap().len(), 3);
    assert_eq!(doc.get("action").and_then(|v| v.as_str()), Some("Create"));
    assert_eq!(doc.get("message_id").and_then(|v| v.as_i64()), Some(42));
    let data = doc.get("data").unwrap();
    assert_eq!(data.as_object().unwrap().len(), 2);
    assert_eq!(data.get("name").and_then(|v| v.as_str()), Some("a"));
    assert_eq!(data.get("message").and_then(|v| v.as_str()), Some("hi"));
    let d = envelope(Action::Delete, 1, None);
    assert!(document(&d).get("data").unwrap().is_null());
    let back = read(&doc).expect("reads");
    assert!(same(&m, &back));
}

#[test]
fn refusal_goes_with_decode() {
    assert!(refusal(b"{\"action\":\"Delete\",\"message_id\":1}").is_none());
    let no_json = refusal(b"{\"action\":").expect("refused");
    assert!(!no_json.is_empty());
    let no_envelope = refusal(b"{\"action\":\"Create\",\"message_id\":1}").expect("refused");
    assert_eq!(no_envelope, "the document holds no envelope");
}
