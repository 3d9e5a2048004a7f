use kafka_consumer::config::{
    consumer_config, resolve_server_url, version_banner, DEFAULT_SERVER_URL, GROUP_ID,
    MISSING_SERVER_URL_WARNING, TOPIC,
};
use kafka_consumer::consume::{handle_item, handle_items, Channel, StreamItem};
use kafka_consumer::record::{payload_view, render_record, Record};
use kafka_consumer::text::{push_byte_list, push_decimal, push_hex_padded, push_signed_decimal};

fn record(key: Option<Vec<u8>>, payload: Option<Vec<u8>>) -> Record {
    Record { key, payload, topic: "test_topic".to_string(), partition: 3, offset: 42 }
}

#[test]
fn unset_server_url_falls_back_to_default_with_warning() {
    let r = resolve_server_url(None);
    assert_eq!(r.url, "localhost:9092");
    assert_eq!(r.url, DEFAULT_SERVER_URL);
    assert_eq!(
        r.warning.as_deref(),
        Some("Warning: KAFKA_SERVER_URL is not set. Using localhost as default.")
    );
    assert_eq!(r.warning.as_deref(), Some(MISSING_SERVER_URL_WARNING));
}

#[test]
fn set_server_url_is_taken_verbatim() {
    let r = resolve_server_url(Some("broker-1:19092".to_string()));
    assert_eq!(r.url, "broker-1:19092");
    assert!(r.warning.is_none());
    let empty = resolve_server_url(Some(String::new()));
    assert_eq!(empty.url, "");
    assert!(empty.warning.is_none());
}

#[test]
fn consumer_config_holds_the_four_options() {
    let c = consumer_config("kafka:9092");
    assert_eq!(c.get("group.id"), Some("example_consumer_group"));
    assert_eq!(c.get("group.id"), Some(GROUP_ID));
    assert_eq!(c.get("bootstrap.servers"), Some("kafka:9092"));
    assert_eq!(c.get("enable.partition.eof"), Some("false"));
    assert_eq!(c.get("auto.offset.reset"), Some("earliest"));
    assert_eq!(c.config_map().len(), 4);
    assert_eq!(TOPIC, "test_topic");
}

#[test]
fn valid_utf8_payload_is_shown_unchanged() {
    let line = render_record(&record(Some(b"k1".to_vec()), Some("héllo wörld".as_bytes().to_vec())));
    assert_eq!(
        line,
        "key: 'Some([107, 49])', payload: 'héllo wörld', topic: test_topic, partition: 3, offset: 42"
    );
    assert!(line.contains("héllo wörld"));
}

#[test]
fn invalid_utf8_payload_shows_placeholder() {
    let line = render_record(&record(None, Some(vec![0x66, 0xff, 0x6f])));
    assert_eq!(
        line,
        "key: 'None', payload: '<invalid utf-8>', topic: test_topic, partition: 3, offset: 42"
    );
    assert_eq!(payload_view(&Some(vec![0xed, 0xa0, 0x80])), "<invalid utf-8>");
    assert_eq!(payload_view(&Some(vec![0xc0, 0x80])), "<invalid utf-8>");
}

#[test]
fn absent_payload_shows_null_placeholder() {
    let line = render_record(&record(Some(vec![]), None));
    assert_eq!(line, "key: 'Some([])', payload: '<null>', topic: test_topic, partition: 3, offset: 42");
}

#[test]
fn empty_payload_is_empty_text() {
    assert_eq!(payload_view(&Some(vec![])), "");
    assert_eq!(payload_view(&Some(vec![0xf0, 0x9f, 0x98, 0x80])), "\u{1F600}");
}

#[test]
fn rendering_matches_std_formatting() {
    let key: Vec<u8> = vec![0, 9, 10, 255];
    let r = Record {
        key: Some(key.clone()),
        payload: Some(b"v".to_vec()),
        topic: "t".to_string(),
        partition: -1,
        offset: i64::MIN,
    };
    let expected = format!(
        "key: '{:?}', payload: '{}', topic: {}, partition: {}, offset: {}",
        Some(key.as_slice()),
        "v",
        "t",
        -1,
        i64::MIN
    );
    assert_eq!(render_record(&r), expected);
    assert_eq!(
        render_record(&r),
        "key: 'Some([0, 9, 10, 255])', payload: 'v', topic: t, partition: -1, offset: -9223372036854775808"
    );
}

#[test]
fn decimal_and_hex_digits() {
    let mut s = String::new();
    push_decimal(&mut s, 0);
    s.push(' ');
    push_decimal(&mut s, u64::MAX);
    s.push(' ');
    push_signed_decimal(&mut s, i64::MAX);
    s.push(' ');
    push_signed_decimal(&mut s, -10);
    assert_eq!(s, "0 18446744073709551615 9223372036854775807 -10");
    let mut h = String::new();
    push_hex_padded(&mut h, 0x2ab, 8);
    assert_eq!(h, "000002ab");
    let mut b = String::from("x");
    push_byte_list(&mut b, &[1, 22]);
    assert_eq!(b, "x[1, 22]");
}

#[test]
fn version_banner_pads_to_eight_hex_digits() {
    assert_eq!(version_banner(0x020c01ff, "2.12.1"), "rd_kafka_version: 0x020c01ff, 2.12.1");
    assert_eq!(version_banner(-1, "x"), "rd_kafka_version: 0xffffffff, x");
    assert_eq!(version_banner(0, ""), format!("rd_kafka_version: 0x{:08x}, {}", 0, ""));
}

#[test]
fn transport_error_goes_to_stderr() {
    let o = handle_item(&StreamItem::Error("Broker transport failure".to_string()));
    assert_eq!(o.channel, Channel::Stderr);
    assert_eq!(o.line, "Kafka error: Broker transport failure");
}

#[test]
fn record_after_error_is_still_printed() {
    let items = vec![
        StreamItem::Message(record(None, Some(b"first".to_vec()))),
        StreamItem::Error("Local: Timed out".to_string()),
        StreamItem::Error("Local: Timed out".to_string()),
        StreamItem::Message(record(Some(b"a".to_vec()), Some(b"second".to_vec()))),
    ];
    let outs = handle_items(&items);
    assert_eq!(outs.len(), 4);
    assert_eq!(outs[0].channel, Channel::Stdout);
    assert_eq!(outs[1].channel, Channel::Stderr);
    assert_eq!(outs[2].line, "Kafka error: Local: Timed out");
    assert_eq!(outs[3].channel, Channel::Stdout);
    assert_eq!(
        outs[3].line,
        "key: 'Some([97])', payload: 'second', topic: test_topic, partition: 3, offset: 42"
    );
    assert!(handle_items(&vec![]).is_empty());
}
