use eventful::consumer::{
    topic_url, ChannelConsumer, EventNSQ, DEFAULT_MAX_IN_FLIGHT, THROUGHPUT_MAX_IN_FLIGHT,
};
use eventful::err::{ErrorKind, EventfulError};
use eventful::nsq::Daemon;
use eventful::sqs::{
    bodies_as_strings, message_id_from, receipts_to_delete, send_request, Event,
};

struct Click {
    group: Option<String>,
}

impl EventNSQ for Click {
    fn topic() -> &'static str {
        "click"
    }
}

impl Event for Click {
    fn queue_url() -> &'static str {
        "https://sqs.example/123/clicks.fifo"
    }

    fn group_id(&self) -> Option<String> {
        self.group.clone()
    }
}

struct Plain;

impl Event for Plain {
    fn queue_url() -> &'static str {
        "https://sqs.example/123/plain"
    }
}

fn config_text(e: EventfulError) -> String {
    match e {
        EventfulError::Config(m) => m,
        _ => panic!("expected a configuration error"),
    }
}

#[test]
fn topic_url_targets_the_publish_endpoint() {
    let d = Daemon::new("127.0.0.1", 4151, 4150);
    assert_eq!(topic_url(&d.pub_url, Click::topic()), "http://127.0.0.1:4151/pub?topic=click");
    assert_eq!(topic_url("http://h:1", ""), "http://h:1/pub?topic=");
}

#[test]
fn consumer_defaults() {
    let c = ChannelConsumer::new("some_channel");
    assert_eq!(c.channel, "some_channel");
    assert_eq!(c.max_in_flight, 1);
    assert_eq!(DEFAULT_MAX_IN_FLIGHT, 1);
    let c = ChannelConsumer::for_throughput("some_channel");
    assert_eq!(c.max_in_flight, THROUGHPUT_MAX_IN_FLIGHT);
    assert_eq!(c.max_in_flight, 15);
    let c = c.with_max_in_flight(4);
    assert_eq!(c.max_in_flight, 4);
    assert_eq!(c.channel, "some_channel");
}

#[test]
fn consumer_addresses_follow_the_daemons() {
    let d1 = Daemon::new("127.0.0.1", 4151, 4150);
    let d2 = Daemon::new("nsq-nsqd2", 4251, 4250);
    let c = ChannelConsumer::new("ch");
    assert_eq!(c.addresses(&[&d1, &d2]), vec!["127.0.0.1:4150", "nsq-nsqd2:4250"]);
    assert!(c.addresses(&[]).is_empty());
}

#[test]
fn consumer_config_accepts_valid_names() {
    let d1 = Daemon::new("127.0.0.1", 4151, 4150);
    let c = ChannelConsumer::new("some_channel");
    assert!(c.consumer_config("click", &[&d1]).is_ok());
    assert!(c.consumer_config("a.b-c_D9#ephemeral", &[&d1]).is_ok());
    assert!(c.consumer_config(&"t".repeat(64), &[]).is_ok());
}

#[test]
fn consumer_config_rejects_bad_names() {
    let d1 = Daemon::new("127.0.0.1", 4151, 4150);
    let c = ChannelConsumer::new("some_channel");
    let e = c.consumer_config("bad topic", &[&d1]).err().unwrap();
    assert!(e.kind() == ErrorKind::Configuration);
    assert_eq!(config_text(e), "bad topic");
    assert_eq!(config_text(c.consumer_config("", &[&d1]).err().unwrap()), "");
    assert_eq!(config_text(c.consumer_config(&"t".repeat(65), &[]).err().unwrap()), "t".repeat(65));
    assert_eq!(config_text(c.consumer_config("#ephemeral", &[]).err().unwrap()), "#ephemeral");
    let bad = ChannelConsumer::new("chan!");
    assert_eq!(config_text(bad.consumer_config("click", &[&d1]).err().unwrap()), "chan!");
    assert_eq!(config_text(bad.consumer_config("no good", &[&d1]).err().unwrap()), "no good");
}

#[test]
fn group_key_is_passed_through() {
    let m1 = Click { group: Some("g1".to_string()) };
    let m2 = Click { group: Some("g1".to_string()) };
    let r1 = send_request(Click::queue_url(), "{\"n\":1}".to_string(), m1.group_id());
    let r2 = send_request(Click::queue_url(), "{\"n\":2}".to_string(), m2.group_id());
    assert_eq!(r1.group_id, Some("g1".to_string()));
    assert_eq!(r2.group_id, Some("g1".to_string()));
    assert_eq!(r1.body, "{\"n\":1}");
    assert_eq!(r1.queue_url, "https://sqs.example/123/clicks.fifo");
}

#[test]
fn no_group_key_asks_for_no_group() {
    let r = send_request(Plain::queue_url(), "{}".to_string(), Plain.group_id());
    assert_eq!(r.group_id, None);
    assert_eq!(r.queue_url, "https://sqs.example/123/plain");
}

#[test]
fn delete_on_receipt_deletes_every_handled_message() {
    let handles = vec![Some("r1".to_string()), None, Some("r3".to_string())];
    assert_eq!(receipts_to_delete(&handles, true), vec!["r1", "r3"]);
    assert!(receipts_to_delete(&handles, false).is_empty());
    assert!(receipts_to_delete(&Vec::new(), true).is_empty());
}

#[test]
fn bodies_default_to_empty() {
    let b = bodies_as_strings(vec![Some("{\"a\":1}".to_string()), None]);
    assert_eq!(b, vec!["{\"a\":1}", ""]);
}

#[test]
fn message_id_is_required() {
    assert_eq!(message_id_from(Some("m-1".to_string())).ok(), Some("m-1".to_string()));
    let e = message_id_from(None).err().unwrap();
    assert!(e.kind() == ErrorKind::Transport);
    assert!(matches!(e, EventfulError::SQS(_)));
}

#[test]
fn error_kinds() {
    assert!(EventfulError::NSQ.kind() == ErrorKind::Transport);
    assert!(EventfulError::Http("x".to_string()).kind() == ErrorKind::Transport);
    assert!(EventfulError::Config("x".to_string()).kind() == ErrorKind::Configuration);
    let bad = serde_json::from_str::<serde_json::Value>("{").err().unwrap();
    assert!(EventfulError::Decode(bad).kind() == ErrorKind::Decode);
    let bad = serde_json::from_str::<serde_json::Value>("[").err().unwrap();
    assert!(EventfulError::SerdeJSON(bad).kind() == ErrorKind::Encode);
}

#[test]
fn click_payload_round_trips_as_json() {
    let mut payload = serde_json::Map::new();
    payload.insert("user_id".to_string(), serde_json::Value::from(5));
    payload.insert("clicked_on".to_string(), serde_json::Value::from("x"));
    let payload = serde_json::Value::Object(payload);
    let body = serde_json::to_vec(&payload).unwrap();
    assert_eq!(String::from_utf8(body.clone()).unwrap(), "{\"clicked_on\":\"x\",\"user_id\":5}");
    let back: serde_json::Value = serde_json::from_slice(&body).unwrap();
    assert_eq!(back, payload);
    let e = serde_json::from_slice::<serde_json::Value>(b"{\"user_id\":").err().unwrap();
    assert!(EventfulError::Decode(e).kind() == ErrorKind::Decode);
}

#[test]
fn config_source_lists_each_consume_address() {
    let d1 = Daemon::new("127.0.0.1", 4151, 4150);
    let d2 = Daemon::new("nsq-nsqd2", 4251, 4250);
    let c = ChannelConsumer::new("some_channel");
    match c.config_source(&[&d1]) {
        tokio_nsq::NSQConsumerConfigSources::Daemons(v) => assert_eq!(v, vec!["127.0.0.1:4150"]),
        _ => panic!("expected an explicit list of daemons"),
    }
    match c.config_source(&[&d1, &d2]) {
        tokio_nsq::NSQConsumerConfigSources::Daemons(v) => assert_eq!(v, vec!["127.0.0.1:4150", "nsq-nsqd2:4250"]),
        _ => panic!("expected an explicit list of daemons"),
    }
    match c.config_source(&[]) {
        tokio_nsq::NSQConsumerConfigSources::Daemons(v) => assert!(v.is_empty()),
        _ => panic!("expected an explicit list of daemons"),
    }
}
