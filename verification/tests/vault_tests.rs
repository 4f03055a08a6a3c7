use enterprise_pw_demo::protocol::{PasswordRequest, PasswordResponse};
use enterprise_pw_demo::vault::{
    answer_message, VaultAnswer, apply_entry_line, classify_message, parse_password_entry, process_message, EntryLine,
    MessageKind, PasswordStore, WizardStep,
};

const REQUEST: &str = "https://demo.example/password/request";

fn store() -> PasswordStore {
    PasswordStore::from_pairs(vec![
        ("myapp".to_string(), "secret123".to_string()),
        ("database".to_string(), "db_password".to_string()),
        ("api_key".to_string(), "1234567890".to_string()),
    ])
}

fn request(key: &str) -> Option<PasswordRequest> {
    Some(PasswordRequest { key: key.to_string() })
}

#[test]
fn store_reads_back_what_was_written() {
    let mut s = PasswordStore::new();
    assert_eq!(s.get(&"a".to_string()), None);
    s.insert("a".to_string(), "1".to_string());
    s.insert("b".to_string(), "2".to_string());
    assert_eq!(s.get(&"a".to_string()), Some("1".to_string()));
    s.insert("a".to_string(), "3".to_string());
    assert_eq!(s.get(&"a".to_string()), Some("3".to_string()));
    assert_eq!(s.get(&"b".to_string()), Some("2".to_string()));
    let mut keys = s.keys();
    keys.sort();
    assert_eq!(keys, vec!["a".to_string(), "b".to_string()]);
}

#[test]
fn later_pairs_replace_earlier_ones() {
    let s = PasswordStore::from_pairs(vec![
        ("k".to_string(), "old".to_string()),
        ("k".to_string(), "new".to_string()),
    ]);
    assert_eq!(s.get(&"k".to_string()), Some("new".to_string()));
    assert_eq!(s.keys(), vec!["k".to_string()]);
}

#[test]
fn classify_by_type() {
    assert_eq!(classify_message("https://didcomm.org/messagepickup/3.0/status", true), MessageKind::Pickup);
    assert_eq!(classify_message("https://didcomm.org/messagepickup/3.0/status", false), MessageKind::Pickup);
    assert_eq!(classify_message(REQUEST, true), MessageKind::PasswordRequest);
    assert_eq!(classify_message(REQUEST, false), MessageKind::Invalid);
    assert_eq!(classify_message("https://example.org/ping", true), MessageKind::Invalid);
}

#[test]
fn request_for_stored_key_is_found() {
    let r = process_message(&store(), REQUEST, request("myapp"));
    assert!(matches!(
        r,
        Some(PasswordResponse::Found { key, password }) if key == "myapp" && password == "secret123"
    ));
}

#[test]
fn request_for_unknown_key_is_not_found() {
    let r = process_message(&store(), REQUEST, request("nope"));
    assert!(matches!(r, Some(PasswordResponse::NotFound)));
}

#[test]
fn other_messages_get_no_answer() {
    assert!(process_message(&store(), "https://didcomm.org/messagepickup/3.0/delivery", request("myapp")).is_none());
    assert!(process_message(&store(), REQUEST, None).is_none());
    assert!(process_message(&store(), "https://example.org/ping", request("myapp")).is_none());
}

#[test]
fn wizard_lines() {
    assert!(matches!(parse_password_entry(""), EntryLine::Finished));
    assert!(matches!(parse_password_entry("   \t"), EntryLine::Finished));
    assert!(matches!(parse_password_entry("no equals sign"), EntryLine::Invalid));
    assert!(matches!(
        parse_password_entry("  myapp = secret123 "),
        EntryLine::Entry { key, password } if key == "myapp" && password == "secret123"
    ));
    assert!(matches!(
        parse_password_entry("url=https://x?a=b"),
        EntryLine::Entry { key, password } if key == "url" && password == "https://x?a=b"
    ));
    assert!(matches!(
        parse_password_entry("=empty-key"),
        EntryLine::Entry { key, password } if key.is_empty() && password == "empty-key"
    ));
}

#[test]
fn wizard_entry_is_served_later() {
    let mut s = PasswordStore::new();
    assert_eq!(apply_entry_line(&mut s, "myapp=secret123"), WizardStep::Stored);
    assert_eq!(apply_entry_line(&mut s, "garbage"), WizardStep::Rejected);
    assert_eq!(apply_entry_line(&mut s, " "), WizardStep::Done);
    let r = process_message(&s, REQUEST, request("myapp"));
    assert!(matches!(
        r,
        Some(PasswordResponse::Found { key, password }) if key == "myapp" && password == "secret123"
    ));
    assert_eq!(s.keys(), vec!["myapp".to_string()]);
}

const LIST: &str = "https://demo.example/password/list-keys-request";

#[test]
fn list_request_is_classified() {
    assert_eq!(classify_message(LIST, false), MessageKind::ListKeysRequest);
    assert_eq!(classify_message(LIST, true), MessageKind::ListKeysRequest);
}

#[test]
fn vault_lists_exactly_its_keys() {
    match answer_message(&store(), LIST, None) {
        Some(VaultAnswer::KeyList(mut keys)) => {
            keys.sort();
            assert_eq!(keys, vec!["api_key".to_string(), "database".to_string(), "myapp".to_string()]);
        }
        _ => panic!("expected a key list"),
    }
    match answer_message(&PasswordStore::new(), LIST, None) {
        Some(VaultAnswer::KeyList(keys)) => assert!(keys.is_empty()),
        _ => panic!("expected a key list"),
    }
}

#[test]
fn vault_answers_password_requests_as_before() {
    assert!(matches!(
        answer_message(&store(), REQUEST, request("myapp")),
        Some(VaultAnswer::Password(PasswordResponse::Found { password, .. })) if password == "secret123"
    ));
    assert!(answer_message(&store(), "https://example.org/ping", None).is_none());
}
