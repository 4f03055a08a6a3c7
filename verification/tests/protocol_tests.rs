use enterprise_pw_demo::protocol::{
    address_error_text, interpret_key_list_reply, key_list_response_message, key_list_type,
    list_keys_request_message, list_request_type, KeyListReply,
    default_mediator, fresh_message_id, interpret_reply, password_request_message,
    password_response_message, pickup_prefix, request_type, response_type, AddressError,
    MessageBody, PasswordResponse, Reply, ReplyError, CLI_BLUE, CLI_GREEN, CLI_ORANGE, CLI_RED,
    MESSAGE_LIFETIME_SECS,
};

fn assert_uuid_v4(id: &str) {
    let chars: Vec<char> = id.chars().collect();
    assert_eq!(chars.len(), 36, "{}", id);
    for (i, c) in chars.iter().enumerate() {
        if [8, 13, 18, 23].contains(&i) {
            assert_eq!(*c, '-', "{}", id);
        } else {
            assert!(c.is_ascii_hexdigit() && !c.is_ascii_uppercase(), "{}", id);
        }
    }
    assert_eq!(chars[14], '4', "{}", id);
    assert!(['8', '9', 'a', 'b'].contains(&chars[19]), "{}", id);
}

#[test]
fn constants() {
    assert_eq!(CLI_BLUE, 69);
    assert_eq!(CLI_GREEN, 34);
    assert_eq!(CLI_RED, 9);
    assert_eq!(CLI_ORANGE, 214);
    assert_eq!(default_mediator(), "did:web:mediator-nlb.storm.ws:mediator:v1:.well-known");
    assert_eq!(request_type(), "https://demo.example/password/request");
    assert_eq!(response_type(), "https://demo.example/password/response");
    assert_eq!(pickup_prefix(), "https://didcomm.org/messagepickup");
    assert_eq!(MESSAGE_LIFETIME_SECS, 10);
}

#[test]
fn message_ids_are_random_v4_uuids() {
    let a = fresh_message_id();
    let b = fresh_message_id();
    assert_uuid_v4(&a);
    assert_uuid_v4(&b);
    assert_ne!(a, b);
}

#[test]
fn request_message_is_addressed_to_the_service() {
    let m = password_request_message(
        &"did:peer:client".to_string(),
        &"did:peer:service".to_string(),
        &"myapp".to_string(),
        1_700_000_000,
    );
    assert_uuid_v4(&m.id);
    assert_eq!(m.type_, "https://demo.example/password/request");
    assert!(matches!(&m.body, MessageBody::Request(r) if r.key == "myapp"));
    assert_eq!(m.from, "did:peer:client");
    assert_eq!(m.to, "did:peer:service");
    assert_eq!(m.created_time, 1_700_000_000);
    assert_eq!(m.expires_time, 1_700_000_010);
    assert!(m.thid.is_none());
}

#[test]
fn response_message_answers_in_the_request_thread() {
    let m = password_response_message(
        &"did:peer:service".to_string(),
        &Some("did:peer:client".to_string()),
        &"request-42".to_string(),
        PasswordResponse::Found { key: "myapp".to_string(), password: "secret123".to_string() },
        5,
    )
    .unwrap();
    assert_uuid_v4(&m.id);
    assert_eq!(m.type_, "https://demo.example/password/response");
    assert!(matches!(
        &m.body,
        MessageBody::Response(PasswordResponse::Found { key, password }) if key == "myapp" && password == "secret123"
    ));
    assert_eq!(m.from, "did:peer:service");
    assert_eq!(m.to, "did:peer:client");
    assert_eq!(m.created_time, 5);
    assert_eq!(m.expires_time, 15);
    assert_eq!(m.thid.as_deref(), Some("request-42"));
}

#[test]
fn response_needs_a_sender_to_answer() {
    let r = password_response_message(
        &"did:peer:service".to_string(),
        &None,
        &"request-42".to_string(),
        PasswordResponse::NotFound,
        5,
    );
    assert!(matches!(r, Err(AddressError::MissingSender)));
}

#[test]
fn reply_with_password() {
    let r = interpret_reply(Reply::Message {
        type_: "https://demo.example/password/response".to_string(),
        body: Ok(PasswordResponse::Found { key: "k".to_string(), password: "p".to_string() }),
    });
    assert_eq!(r.unwrap(), Some("p".to_string()));
}

#[test]
fn reply_without_password() {
    let r = interpret_reply(Reply::Message {
        type_: "https://demo.example/password/response".to_string(),
        body: Ok(PasswordResponse::NotFound),
    });
    assert_eq!(r.unwrap(), None);
}

#[test]
fn reply_type_is_matched_by_prefix() {
    let r = interpret_reply(Reply::Message {
        type_: "https://demo.example/password/response/v2".to_string(),
        body: Ok(PasswordResponse::NotFound),
    });
    assert_eq!(r.unwrap(), None);
}

#[test]
fn reply_errors() {
    let r = interpret_reply(Reply::Message {
        type_: "https://example.org/other".to_string(),
        body: Ok(PasswordResponse::NotFound),
    });
    assert!(matches!(r, Err(ReplyError::UnexpectedType(t)) if t == "https://example.org/other"));
    let r = interpret_reply(Reply::Message {
        type_: "https://demo.example/password/response".to_string(),
        body: Err("missing field".to_string()),
    });
    assert!(matches!(r, Err(ReplyError::MalformedBody(m)) if m == "missing field"));
    let r = interpret_reply(Reply::NotAMessage);
    assert!(matches!(r, Err(ReplyError::NotAMessage)));
}

#[test]
fn key_listing_messages() {
    assert_eq!(list_request_type(), "https://demo.example/password/list-keys-request");
    assert_eq!(key_list_type(), "https://demo.example/password/list-keys-response");
    let m = list_keys_request_message(&"did:a".to_string(), &"did:b".to_string(), 100);
    assert_uuid_v4(&m.id);
    assert_eq!(m.type_, "https://demo.example/password/list-keys-request");
    assert!(matches!(m.body, MessageBody::ListKeysRequest));
    assert_eq!((m.from.as_str(), m.to.as_str()), ("did:a", "did:b"));
    assert_eq!((m.created_time, m.expires_time), (100, 110));
    assert!(m.thid.is_none());
    let r = key_list_response_message(
        &"did:b".to_string(),
        &Some("did:a".to_string()),
        &m.id,
        vec!["k".to_string()],
        200,
    )
    .unwrap();
    assert_eq!(r.type_, "https://demo.example/password/list-keys-response");
    assert!(matches!(&r.body, MessageBody::KeyList(ks) if ks == &vec!["k".to_string()]));
    assert_eq!(r.to, "did:a");
    assert_eq!(r.thid.as_deref(), Some(m.id.as_str()));
    assert!(matches!(
        key_list_response_message(&"did:b".to_string(), &None, &m.id, vec![], 200),
        Err(AddressError::MissingSender)
    ));
}

#[test]
fn missing_sender_is_checked_before_the_clock() {
    let r = password_response_message(
        &"did:b".to_string(),
        &None,
        &"id".to_string(),
        PasswordResponse::NotFound,
        u64::MAX,
    );
    assert!(matches!(r, Err(AddressError::MissingSender)));
    assert_eq!(address_error_text(AddressError::MissingSender), "Message missing 'from' field");
}

#[test]
fn key_list_replies() {
    let r = interpret_key_list_reply(KeyListReply::Message {
        type_: "https://demo.example/password/list-keys-response".to_string(),
        body: Ok(vec!["a".to_string(), "b".to_string()]),
    });
    assert_eq!(r.unwrap(), vec!["a".to_string(), "b".to_string()]);
    let r = interpret_key_list_reply(KeyListReply::Message {
        type_: "https://x".to_string(),
        body: Ok(vec![]),
    });
    assert!(matches!(r, Err(ReplyError::UnexpectedType(t)) if t == "https://x"));
    assert!(matches!(interpret_key_list_reply(KeyListReply::NotAMessage), Err(ReplyError::NotAMessage)));
}
