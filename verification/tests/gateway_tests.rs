use message_bridge::codec::decode;
use message_bridge::envelope::{Action, CustomMessage, KafkaMessage};
use message_bridge::gateway::{
    accept, conclude, confirmation, prepare, routing_key, topic, ApiError, PublishOutcome, BAD_REQUEST,
    SERVER_ERROR,
};
use message_bridge::settings::{
    consumer_settings, consumer_settings_for, consumer_settings_hosted, producer_settings,
    producer_settings_for, producer_settings_hosted, Profile, Setting,
};

fn listed(list: &[Setting]) -> Vec<(String, String)> {
    list.iter().map(|s| (s.key.clone(), s.value.clone())).collect()
}

fn expect(pairs: &[(&str, &str)]) -> Vec<(String, String)> {
    pairs.iter().map(|p| (p.0.to_string(), p.1.to_string())).collect()
}

#[test]
fn fixed_topic_and_key() {
    assert_eq!(topic(), "messages");
    assert_eq!(routing_key(), "1");
    assert_eq!(confirmation(), "Message sent!");
    assert_eq!(SERVER_ERROR, 500);
    assert_eq!(BAD_REQUEST, 400);
}

#[test]
fn prepare_gives_one_record() {
    let m = KafkaMessage::new(
        Action::Create,
        42,
        Some(CustomMessage::new("a".to_string(), "hi".to_string())),
    )
    .unwrap();
    let p = prepare(&m).expect("prepares");
    assert_eq!(p.topic, "messages");
    assert_eq!(p.key, "1");
    let back = decode(&p.payload).expect("decodes");
    assert_eq!(back.action(), Action::Create);
    assert_eq!(*back.message_id(), 42);
    assert_eq!(back.data().name(), "a");
    assert_eq!(back.data().message(), "hi");
}

#[test]
fn accept_takes_or_refuses_a_body() {
    let m = accept(b"{\"action\":\"Delete\",\"message_id\":42}").expect("accepts");
    assert_eq!(m.action(), Action::Delete);
    assert_eq!(*m.message_id(), 42);
    let refused = accept(b"{\"action\":\"Create\",\"message_id\":42}").expect_err("refuses");
    assert_eq!(refused.status, 400);
    assert_eq!(refused.body, "malformed envelope");
    let refused = accept(b"nothing").expect_err("refuses");
    assert_eq!(refused.status, 400);
}

#[test]
fn conclude_maps_each_outcome() {
    assert!(matches!(conclude(PublishOutcome::Acknowledged), Ok("Message sent!")));
    assert!(matches!(
        conclude(PublishOutcome::Refused("queue full".to_string())),
        Err(ApiError::Kafka(ref t)) if t == "queue full"
    ));
    assert!(matches!(
        conclude(PublishOutcome::Cancelled("oneshot canceled".to_string())),
        Err(ApiError::CancelledMessage(ref t)) if t == "oneshot canceled"
    ));
    assert!(matches!(
        conclude(PublishOutcome::Undelivered("timed out".to_string())),
        Err(ApiError::Kafka(ref t)) if t == "timed out"
    ));
}

#[test]
fn responses_by_failure() {
    let r = ApiError::RDKafka("a".to_string()).into_response();
    assert_eq!((r.status, r.body.as_str()), (500, "a"));
    let r = ApiError::Kafka("b".to_string()).into_response();
    assert_eq!((r.status, r.body.as_str()), (500, "b"));
    let r = ApiError::SerdeJson("c".to_string()).into_response();
    assert_eq!((r.status, r.body.as_str()), (400, "c"));
    let r = ApiError::CancelledMessage("d".to_string()).into_response();
    assert_eq!((r.status, r.body.as_str()), (500, "d"));
}

#[test]
fn local_settings() {
    assert_eq!(
        listed(&producer_settings("host:9092")),
        expect(&[
            ("bootstrap.servers", "host:9092"),
            ("message.timeout.ms", "5000"),
            ("allow.auto.create.topics", "true"),
        ])
    );
    assert_eq!(
        listed(&consumer_settings("host:9092")),
        expect(&[
            ("group.id", "ngao-lim"),
            ("bootstrap.servers", "host:9092"),
            ("enable.partition.eof", "false"),
            ("session.timeout.ms", "6000"),
            ("enable.auto.commit", "true"),
            ("enable.auto.offset.store", "false"),
        ])
    );
}

#[test]
fn hosted_settings() {
    assert_eq!(
        listed(&producer_settings_hosted("host:9092", "u", "p")),
        expect(&[
            ("bootstrap.servers", "host:9092"),
            ("sasl.mechanism", "SCRAM-SHA-256"),
            ("security.protocol", "SASL_SSL"),
            ("sasl.username", "u"),
            ("sasl.password", "p"),
            ("message.timeout.ms", "5000"),
        ])
    );
    assert_eq!(
        listed(&consumer_settings_hosted("host:9092", "u", "p")),
        expect(&[
            ("bootstrap.servers", "host:9092"),
            ("sasl.mechanism", "SCRAM-SHA-256"),
            ("security.protocol", "SASL_SSL"),
            ("sasl.username", "u"),
            ("sasl.password", "p"),
            ("group.id", "hello"),
            ("enable.partition.eof", "false"),
            ("session.timeout.ms", "6000"),
            ("enable.auto.commit", "true"),
            ("enable.auto.offset.store", "false"),
        ])
    );
}

#[test]
fn both_consumers_store_offsets_by_hand() {
    let wanted = ("enable.auto.offset.store".to_string(), "false".to_string());
    assert!(listed(&consumer_settings("h")).contains(&wanted));
    assert!(listed(&consumer_settings_hosted("h", "u", "p")).contains(&wanted));
}

#[test]
fn settings_by_profile() {
    let local = producer_settings_for(Profile::Local, "h", None, None).expect("needs none");
    assert_eq!(listed(&local), listed(&producer_settings("h")));
    let hosted = producer_settings_for(Profile::Hosted, "h", Some("u"), Some("p")).expect("has both");
    assert_eq!(listed(&hosted), listed(&producer_settings_hosted("h", "u", "p")));
    let local = consumer_settings_for(Profile::Local, "h", Some("u"), None).expect("needs none");
    assert_eq!(listed(&local), listed(&consumer_settings("h")));
    let hosted = consumer_settings_for(Profile::Hosted, "h", Some("u"), Some("p")).expect("has both");
    assert_eq!(listed(&hosted), listed(&consumer_settings_hosted("h", "u", "p")));
}

#[test]
fn hosted_profile_needs_both_credentials() {
    assert!(producer_settings_for(Profile::Hosted, "h", None, Some("p")).is_none());
    assert!(producer_settings_for(Profile::Hosted, "h", Some("u"), None).is_none());
    assert!(consumer_settings_for(Profile::Hosted, "h", None, None).is_none());
    assert!(consumer_settings_for(Profile::Hosted, "h", Some("u"), None).is_none());
}
