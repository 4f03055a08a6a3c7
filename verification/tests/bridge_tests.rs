use enterprise_pw_demo::bridge::{
    answer_key_listing, answer_lookup, begin_request, key_list_text, lookup_response,
    readiness_error, plan_missing_config, reply_error_text,
    settle_loaded_config, BridgeConfig, BridgeRequest, BridgeResponse, BridgeStep, MissingConfig,
    DEFAULT_PORT,
};
use enterprise_pw_demo::protocol::{KeyListReply, PasswordResponse, Reply, ReplyError};

const MEDIATOR: &str = "did:web:mediator-nlb.storm.ws:mediator:v1:.well-known";

#[test]
fn get_password_needs_a_lookup() {
    let step = begin_request(BridgeRequest::GetPassword { key: "myapp".to_string() });
    assert!(matches!(step, BridgeStep::Lookup { key } if key == "myapp"));
}

#[test]
fn list_keys_asks_the_vault() {
    let step = begin_request(BridgeRequest::ListKeys);
    assert!(matches!(step, BridgeStep::ListKeys));
}

#[test]
fn key_listing_names_the_vault_keys() {
    let reply = KeyListReply::Message {
        type_: "https://demo.example/password/list-keys-response".to_string(),
        body: Ok(vec!["myapp".to_string(), "database".to_string(), "api_key".to_string()]),
    };
    assert!(matches!(
        answer_key_listing(Ok(reply)),
        BridgeResponse::Success { data } if data == "Available password keys: myapp, database, api_key"
    ));
    let reply = KeyListReply::Message {
        type_: "https://demo.example/password/list-keys-response".to_string(),
        body: Ok(vec![]),
    };
    assert!(matches!(
        answer_key_listing(Ok(reply)),
        BridgeResponse::Success { data } if data == "No password keys are available."
    ));
}

#[test]
fn key_listing_failures() {
    let reply = KeyListReply::Message {
        type_: "https://demo.example/password/response".to_string(),
        body: Ok(vec![]),
    };
    assert!(matches!(
        answer_key_listing(Ok(reply)),
        BridgeResponse::Error { error }
            if error == "Failed to list keys: Unexpected message type: https://demo.example/password/response"
    ));
    let reply = KeyListReply::Message {
        type_: "https://demo.example/password/list-keys-response".to_string(),
        body: Err("missing field `keys`".to_string()),
    };
    assert!(matches!(
        answer_key_listing(Ok(reply)),
        BridgeResponse::Error { error } if error == "Failed to list keys: missing field `keys`"
    ));
    assert!(matches!(
        answer_key_listing(Ok(KeyListReply::NotAMessage)),
        BridgeResponse::Error { error } if error == "Failed to list keys: Expected DIDComm message response"
    ));
    assert!(matches!(
        answer_key_listing(Err("ATM not initialized".to_string())),
        BridgeResponse::Error { error } if error == "Failed to list keys: ATM not initialized"
    ));
}

#[test]
fn key_list_text_joins_with_commas() {
    assert_eq!(key_list_text(&vec!["a".to_string()]), "Available password keys: a");
    assert_eq!(key_list_text(&vec![]), "No password keys are available.");
}

#[test]
fn readiness() {
    assert_eq!(readiness_error(false, false), Some("ATM not initialized".to_string()));
    assert_eq!(readiness_error(false, true), Some("ATM not initialized".to_string()));
    assert_eq!(readiness_error(true, false), Some("Profile not initialized".to_string()));
    assert_eq!(readiness_error(true, true), None);
}

#[test]
fn lookup_outcomes() {
    let k = "myapp".to_string();
    assert!(matches!(
        lookup_response(&k, Ok(Some("secret123".to_string()))),
        BridgeResponse::Success { data } if data == "secret123"
    ));
    assert!(matches!(
        lookup_response(&k, Ok(None)),
        BridgeResponse::NotFound { message } if message == "Password not found for key: 'myapp'"
    ));
    assert!(matches!(
        lookup_response(&k, Err("ATM not initialized".to_string())),
        BridgeResponse::Error { error } if error == "Failed to get password: ATM not initialized"
    ));
}

#[test]
fn lookup_from_reply() {
    let k = "myapp".to_string();
    let reply = Reply::Message {
        type_: "https://demo.example/password/response".to_string(),
        body: Ok(PasswordResponse::Found { key: k.clone(), password: "secret123".to_string() }),
    };
    assert!(matches!(answer_lookup(&k, Ok(reply)), BridgeResponse::Success { data } if data == "secret123"));
    let reply = Reply::Message { type_: "https://x/y".to_string(), body: Ok(PasswordResponse::NotFound) };
    assert!(matches!(
        answer_lookup(&k, Ok(reply)),
        BridgeResponse::Error { error } if error == "Failed to get password: Unexpected message type: https://x/y"
    ));
    assert!(matches!(
        answer_lookup(&k, Ok(Reply::NotAMessage)),
        BridgeResponse::Error { error } if error == "Failed to get password: Expected DIDComm message response"
    ));
    assert!(matches!(
        answer_lookup(&k, Err("timeout".to_string())),
        BridgeResponse::Error { error } if error == "Failed to get password: timeout"
    ));
}

#[test]
fn reply_error_texts() {
    assert_eq!(reply_error_text(&ReplyError::UnexpectedType("t".to_string())), "Unexpected message type: t");
    assert_eq!(reply_error_text(&ReplyError::MalformedBody("bad".to_string())), "bad");
    assert_eq!(reply_error_text(&ReplyError::NotAMessage), "Expected DIDComm message response");
}

#[test]
fn missing_config_without_service_writes_template() {
    let plan: MissingConfig<()> = plan_missing_config("bridge_config.json", None);
    match plan {
        MissingConfig::WriteTemplateAndStop { template, message } => {
            assert_eq!(template.service_did, "REPLACE_WITH_SERVICE_DID");
            assert_eq!(template.mediator_did, MEDIATOR);
            assert_eq!(template.port, 8080);
            assert!(template.bridge_did.is_none() && template.bridge_secrets.is_none());
            assert_eq!(
                message,
                "Configuration file 'bridge_config.json' created. Please:\n1. Start password service: cargo run --bin service\n2. Provide service DID via --service-did flag, or\n3. Edit bridge_config.json and set service_did, then restart"
            );
        }
        MissingConfig::WriteAndUse(_) => panic!("expected a template"),
    }
}

#[test]
fn missing_config_with_service_is_created() {
    let plan: MissingConfig<()> = plan_missing_config("c.json", Some("did:peer:svc".to_string()));
    match plan {
        MissingConfig::WriteAndUse(c) => {
            assert_eq!(c.service_did, "did:peer:svc");
            assert_eq!(c.mediator_did, MEDIATOR);
            assert_eq!(c.port, DEFAULT_PORT);
        }
        _ => panic!("expected a configuration"),
    }
}

fn loaded(service: &str) -> BridgeConfig<u8> {
    BridgeConfig {
        bridge_did: Some("did:peer:bridge".to_string()),
        bridge_secrets: Some(7),
        service_did: service.to_string(),
        mediator_did: "did:web:m".to_string(),
        port: 9090,
    }
}

#[test]
fn loaded_config_override_and_placeholder() {
    let c = settle_loaded_config(loaded("did:peer:a"), None, "c.json").unwrap();
    assert_eq!(c.service_did, "did:peer:a");
    assert_eq!(c.port, 9090);
    let c = settle_loaded_config(loaded("REPLACE_WITH_SERVICE_DID"), Some("did:peer:b".to_string()), "c.json").unwrap();
    assert_eq!(c.service_did, "did:peer:b");
    assert_eq!(c.bridge_secrets, Some(7));
    let e = settle_loaded_config(loaded("REPLACE_WITH_SERVICE_DID"), None, "c.json").unwrap_err();
    assert_eq!(e, "Please provide service DID via --service-did flag or edit c.json and set service_did");
}

#[test]
fn port_override_and_identity() {
    let mut c = loaded("did:peer:a");
    c.apply_port_override(None);
    assert_eq!(c.port, 9090);
    c.apply_port_override(Some(1234));
    assert_eq!(c.port, 1234);
    assert!(c.has_identity());
    let mut fresh: BridgeConfig<u8> = BridgeConfig { bridge_did: None, bridge_secrets: None, ..c.clone() };
    assert!(!fresh.has_identity());
    fresh.set_identity("did:peer:new".to_string(), 3);
    assert!(fresh.has_identity());
    assert_eq!(fresh.bridge_did.as_deref(), Some("did:peer:new"));
}
