use htb_tui::json::{decode_active, profile_ip};
use htb_tui::machine::ActiveStatus;
use serde_json::Value;

#[test]
fn profile_ip_reads_the_address() {
    assert_eq!(
        profile_ip("{\"info\":{\"id\":7,\"ip\":\"10.10.10.5\"}}"),
        Some(String::from("10.10.10.5"))
    );
}

#[test]
fn profile_ip_is_none_without_an_address() {
    assert_eq!(profile_ip("{\"info\":{\"id\":7}}"), None);
    assert_eq!(profile_ip("{\"data\":{\"ip\":\"10.10.10.5\"}}"), None);
    assert_eq!(profile_ip("{\"info\":{\"ip\":null}}"), None);
    assert_eq!(profile_ip("{\"info\":{\"ip\":17}}"), None);
    assert_eq!(profile_ip("[1,2,3]"), None);
}

#[test]
fn profile_ip_is_none_for_a_broken_body() {
    assert_eq!(profile_ip(""), None);
    assert_eq!(profile_ip("{\"info\":"), None);
    assert_eq!(profile_ip("<html>Bad Gateway</html>"), None);
}

#[test]
fn decode_active_takes_a_boolean() {
    assert_eq!(decode_active(&Value::Bool(true)), ActiveStatus::Flag(true));
    assert_eq!(decode_active(&Value::Bool(false)), ActiveStatus::Flag(false));
    assert!(decode_active(&Value::Bool(true)).normalize());
    assert!(!decode_active(&Value::Bool(false)).normalize());
}

#[test]
fn decode_active_takes_an_integer() {
    assert_eq!(decode_active(&Value::from(1i64)), ActiveStatus::Count(1));
    assert_eq!(decode_active(&Value::from(0i64)), ActiveStatus::Count(0));
    assert!(decode_active(&Value::from(1i64)).normalize());
    assert!(!decode_active(&Value::from(0i64)).normalize());
    assert!(!decode_active(&Value::from(2i64)).normalize());
    assert!(!decode_active(&Value::from(-1i64)).normalize());
}

#[test]
fn decode_active_counts_anything_else_as_inactive() {
    assert_eq!(decode_active(&Value::Null), ActiveStatus::Other);
    assert_eq!(decode_active(&Value::String(String::from("true"))), ActiveStatus::Other);
    assert_eq!(decode_active(&Value::from(1.0f64)), ActiveStatus::Other);
    assert_eq!(decode_active(&Value::from(u64::MAX)), ActiveStatus::Other);
    assert!(!decode_active(&Value::Null).normalize());
    assert!(!decode_active(&Value::from(1.0f64)).normalize());
}

#[test]
fn normalize_of_each_variant() {
    assert!(ActiveStatus::Flag(true).normalize());
    assert!(!ActiveStatus::Flag(false).normalize());
    assert!(ActiveStatus::Count(1).normalize());
    assert!(!ActiveStatus::Count(0).normalize());
    assert!(!ActiveStatus::Count(2).normalize());
    assert!(!ActiveStatus::Other.normalize());
}
