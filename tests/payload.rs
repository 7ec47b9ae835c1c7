use ifttt_webhook::data::{nonblocking_make_serde_value, WebHookData};
use ifttt_webhook::request::{trigger_url, TriggerRequest};

fn pairs(v: &[(&str, &str)]) -> Vec<(String, String)> {
    v.iter().map(|(k, x)| (k.to_string(), x.to_string())).collect()
}

fn as_json(entries: Vec<(String, String)>) -> String {
    let mut map = ureq::SerdeMap::new();
    for (k, v) in entries {
        map.insert(k, ureq::SerdeValue::String(v));
    }
    ureq::SerdeValue::Object(map).to_string()
}

#[test]
fn new_keeps_every_value() {
    let d = WebHookData::new(Some("x"), Some("y"), None).unwrap();
    assert_eq!(d.value1.as_deref(), Some("x"));
    assert_eq!(d.value2.as_deref(), Some("y"));
    assert_eq!(d.value3, None);
}

#[test]
fn payload_skips_absent_middle_value() {
    let d = WebHookData::new(Some("a"), None, Some("c")).unwrap();
    let entries = nonblocking_make_serde_value(d);
    assert_eq!(entries, pairs(&[("value1", "a"), ("value3", "c")]));
    assert_eq!(as_json(entries), "{\"value1\":\"a\",\"value3\":\"c\"}");
}

#[test]
fn payload_of_all_values() {
    let d = WebHookData::new(Some("test1"), Some("test2"), Some("test3")).unwrap();
    assert_eq!(
        nonblocking_make_serde_value(d),
        pairs(&[("value1", "test1"), ("value2", "test2"), ("value3", "test3")])
    );
}

#[test]
fn payload_of_no_values_is_empty_object() {
    let d = WebHookData::new(None, None, None).unwrap();
    let entries = nonblocking_make_serde_value(d);
    assert!(entries.is_empty());
    assert_eq!(as_json(entries), "{}");
}

#[test]
fn payload_keeps_empty_strings() {
    let d = WebHookData::new(None, Some(""), None).unwrap();
    assert_eq!(nonblocking_make_serde_value(d), pairs(&[("value2", "")]));
}

#[test]
fn url_of_event_and_key() {
    assert_eq!(
        trigger_url("test_event", "abc123"),
        "https://maker.ifttt.com/trigger/test_event/with/key/abc123"
    );
}

#[test]
fn url_is_not_escaped() {
    assert_eq!(trigger_url("a b", "k/1"), "https://maker.ifttt.com/trigger/a b/with/key/k/1");
}

#[test]
fn request_without_data_has_no_body() {
    let r = TriggerRequest::new("abc123", "test_event", None);
    assert_eq!(r.url, "https://maker.ifttt.com/trigger/test_event/with/key/abc123");
    assert!(r.payload.is_none());
    assert!(!r.has_body());
}

#[test]
fn request_with_data_carries_payload() {
    let data = WebHookData::new(Some("test_blocking1"), Some("test2"), None);
    let r = TriggerRequest::new("KEY", "EVENT", data);
    assert_eq!(r.url, "https://maker.ifttt.com/trigger/EVENT/with/key/KEY");
    assert!(r.has_body());
    assert_eq!(r.payload, Some(pairs(&[("value1", "test_blocking1"), ("value2", "test2")])));
}
