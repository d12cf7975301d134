use redis_sink::command::{derive_store_key, select_mode, Record, StoreCommand, WriteMode};
use redis_sink::config::RedisConfig;
use redis_sink::session::{Action, Phase, WriteSession};
use redis_sink::sink::{RedisSink, SinkError};
use redis_sink::text::{signed_decimal, unsigned_decimal};

fn config(prefix: Option<&str>, to_hash: Option<bool>) -> RedisConfig {
    RedisConfig::new(
        "redis://127.0.0.1:6379".to_string(),
        prefix.map(|p| p.to_string()),
        to_hash,
    )
}

fn sink(prefix: Option<&str>, to_hash: Option<bool>) -> RedisSink {
    RedisSink::new(&config(prefix, to_hash)).expect("valid endpoint")
}

fn record(key: Option<&str>, value: &str, timestamp: i64) -> Record {
    Record::new(
        key.map(|k| k.as_bytes().to_vec()),
        value.as_bytes().to_vec(),
        timestamp,
    )
}

#[test]
fn document_mode_by_default() {
    let s = sink(Some("orders"), None);
    let c = s.command_for(&record(Some("42"), "{\"qty\":3}", 0));
    assert_eq!(c.to_text(), "JSON.SET orders:42 $ {\"qty\":3}");
    assert_eq!(c.mode, WriteMode::JsonDocument);
}

#[test]
fn plain_mode_when_flag_is_true() {
    let s = sink(Some("orders"), Some(true));
    let c = s.command_for(&record(Some("42"), "shipped", 0));
    assert_eq!(c.to_text(), "SET orders:42 shipped");
    assert_eq!(c.words(), vec!["SET", "orders:42", "shipped"]);
}

#[test]
fn keyless_record_uses_timestamp_and_empty_prefix_keeps_colon() {
    let s = sink(None, None);
    let c = s.command_for(&record(None, "x", 1690000000));
    assert_eq!(c.to_text(), "JSON.SET :1690000000 $ x");
    assert_eq!(c.words(), vec!["JSON.SET", ":1690000000", "$", "x"]);
}

#[test]
fn false_flag_selects_documents() {
    assert_eq!(select_mode(Some(false)), WriteMode::JsonDocument);
    assert_eq!(select_mode(None), WriteMode::JsonDocument);
    assert_eq!(select_mode(Some(true)), WriteMode::PlainOverwrite);
    let s = sink(Some("p"), Some(false));
    let c = s.command_for(&record(Some("k"), "v", 3));
    assert_eq!(c.to_text(), "JSON.SET p:k $ v");
}

#[test]
fn present_key_is_prefixed() {
    assert_eq!(derive_store_key("users", &record(Some("alice"), "v", 9)), "users:alice");
    assert_eq!(derive_store_key("", &record(Some("é"), "v", 9)), ":é");
}

#[test]
fn absent_key_uses_decimal_timestamp() {
    assert_eq!(derive_store_key("t", &record(None, "v", 0)), "t:0");
    assert_eq!(derive_store_key("t", &record(None, "v", -17)), "t:-17");
    assert_eq!(
        derive_store_key("t", &record(None, "v", i64::MIN)),
        "t:-9223372036854775808"
    );
}

#[test]
fn decimal_forms() {
    assert_eq!(unsigned_decimal(0), "0");
    assert_eq!(unsigned_decimal(1234567890), "1234567890");
    assert_eq!(unsigned_decimal(u64::MAX), "18446744073709551615");
    assert_eq!(signed_decimal(i64::MAX), "9223372036854775807");
    assert_eq!(signed_decimal(-1), "-1");
}

#[test]
fn invalid_utf8_is_replaced_not_rejected() {
    let mixed = Record::new(Some(vec![0x66, 0xff, 0x6f]), vec![0x61], 0);
    assert_eq!(derive_store_key("", &mixed), ":f\u{FFFD}o");
    let r = Record::new(Some(vec![0xc3, 0x28]), vec![0x80], 5);
    let c = sink(Some("p"), Some(true)).command_for(&r);
    assert_eq!(c.key, "p:\u{FFFD}(");
    assert_eq!(c.value, "\u{FFFD}");
}

#[test]
fn same_key_gives_same_store_key() {
    let s = sink(Some("orders"), None);
    let first = s.command_for(&record(Some("42"), "a", 1));
    let second = s.command_for(&record(Some("42"), "b", 2));
    assert_eq!(first.key, second.key);
    assert_eq!(second.value, "b");
}

#[test]
fn resent_record_gives_the_same_command() {
    let s = sink(Some("orders"), Some(true));
    let first = s.command_for(&record(Some("42"), "shipped", 1));
    let again = s.command_for(&record(Some("42"), "shipped", 7));
    assert_eq!(first.to_text(), again.to_text());
}

#[test]
fn endpoint_must_be_a_url_with_a_host() {
    let bad = RedisConfig::new("not a url".to_string(), None, None);
    assert!(matches!(RedisSink::new(&bad), Err(SinkError::InvalidConfig)));
    let no_host = RedisConfig::new("redis:local".to_string(), None, None);
    assert!(matches!(RedisSink::new(&no_host), Err(SinkError::InvalidConfig)));
    let s = RedisSink::new(&config(Some("x"), Some(true))).expect("valid");
    assert_eq!(s.url, "redis://127.0.0.1:6379");
    assert_eq!(s.prefix, "x");
    assert_eq!(s.to_hash, Some(true));
    assert_eq!(sink(None, None).prefix, "");
}

#[test]
fn endpoint_outcome_decides() {
    let c = config(Some("x"), None);
    assert!(matches!(RedisSink::from_endpoint(&c, None), Err(SinkError::InvalidConfig)));
    assert!(matches!(
        RedisSink::from_endpoint(&c, Some(("mailto:a".to_string(), false))),
        Err(SinkError::InvalidConfig)
    ));
    let s = RedisSink::from_endpoint(&c, Some(("redis://h".to_string(), true))).expect("host");
    assert_eq!(s.url, "redis://h");
}

#[test]
fn unreachable_store_reads_no_record() {
    let mut session = WriteSession::new(sink(Some("orders"), None));
    assert_eq!(session.phase(), Phase::Unconnected);
    let a = session.on_connect(false);
    assert!(matches!(a, Action::Stop(Err(SinkError::Connection))));
    assert_eq!(session.phase(), Phase::Failed);
}

#[test]
fn failed_write_stops_the_loop() {
    let records: Vec<Record> = (1..=8)
        .map(|i| record(Some(&i.to_string()), "v", i))
        .collect();
    let mut session = WriteSession::new(sink(Some("orders"), None));
    let mut action = session.on_connect(true);
    let mut next = 0;
    let mut attempted: Vec<String> = Vec::new();
    let outcome = loop {
        action = match action {
            Action::ReadNext => {
                if next == records.len() {
                    session.on_stream_end()
                } else {
                    next += 1;
                    session.on_record(&records[next - 1])
                }
            }
            Action::Write(c) => {
                attempted.push(c.key.clone());
                session.on_write_result(attempted.len() != 5)
            }
            Action::Stop(r) => break r,
        };
    };
    assert!(matches!(outcome, Err(SinkError::Write)));
    assert_eq!(attempted.len(), 5);
    assert_eq!(attempted[4], "orders:5");
    assert_eq!(next, 5);
    assert_eq!(session.phase(), Phase::Failed);
}

#[test]
fn stream_end_closes_cleanly() {
    let mut session = WriteSession::new(sink(None, Some(true)));
    assert!(matches!(session.on_connect(true), Action::ReadNext));
    match session.on_record(&record(Some("a"), "1", 0)) {
        Action::Write(c) => assert_eq!(c.to_text(), "SET :a 1"),
        other => panic!("unexpected {:?}", other),
    }
    assert_eq!(session.phase(), Phase::Writing);
    assert!(matches!(session.on_write_result(true), Action::ReadNext));
    assert!(matches!(session.on_stream_end(), Action::Stop(Ok(()))));
    assert_eq!(session.phase(), Phase::Closed);
}

#[test]
fn store_command_name() {
    let c = StoreCommand { mode: WriteMode::PlainOverwrite, key: "k".to_string(), value: "v".to_string() };
    assert_eq!(c.name(), "SET");
}
