use enterprise_pw_demo::bridge::answer_key_listing;
use enterprise_pw_demo::protocol::KeyListReply;
use enterprise_pw_demo::vault::{answer_message, VaultAnswer};
use enterprise_pw_demo::bridge::{lookup_response, BridgeResponse};
use enterprise_pw_demo::mcp::{
    check_status, list_keys_tool_result, outcome_from_bridge, password_tool_result,
    plan_tool_call, read_list_response, read_password_response, server_instructions, server_name,
    tool_catalog, BridgeClientError, ToolCall, ToolFailure,
};
use enterprise_pw_demo::protocol::{PasswordResponse, Reply};
use enterprise_pw_demo::bridge::answer_lookup;
use enterprise_pw_demo::vault::{process_message, PasswordStore};

#[test]
fn server_information() {
    assert_eq!(server_name(), "password-vault-mcp");
    assert_eq!(server_instructions(), "Password Vault MCP Server - HTTP to DIDComm Bridge");
}

#[test]
fn catalog_lists_two_tools() {
    let tools = tool_catalog();
    assert_eq!(tools.len(), 2);
    assert_eq!(tools[0].name, "get_password");
    assert_eq!(tools[0].description, "Retrieves a password from the secure vault by key");
    assert_eq!(tools[0].params.len(), 1);
    assert_eq!(tools[0].params[0].name, "key");
    assert_eq!(tools[0].params[0].description, "The password key to retrieve");
    assert!(tools[0].params[0].required);
    assert_eq!(tools[1].name, "list_keys");
    assert_eq!(tools[1].description, "Lists information about available password keys");
    assert!(tools[1].params.is_empty());
}

#[test]
fn tool_call_plans() {
    assert!(matches!(plan_tool_call("get_password", Some("k".to_string())), ToolCall::GetPassword { key } if key == "k"));
    assert!(matches!(
        plan_tool_call("get_password", None),
        ToolCall::Fail(ToolFailure::InvalidParams(m)) if m == "Missing 'key' parameter"
    ));
    assert!(matches!(plan_tool_call("list_keys", None), ToolCall::ListKeys));
    assert!(matches!(plan_tool_call("list_keys", Some("ignored".to_string())), ToolCall::ListKeys));
    assert!(matches!(
        plan_tool_call("delete_password", None),
        ToolCall::Fail(ToolFailure::InvalidRequest(m)) if m == "Unknown tool: delete_password"
    ));
}

#[test]
fn bridge_answers_are_read() {
    assert!(check_status(true, "200 OK".to_string()).is_ok());
    let e = check_status(false, "500 Internal Server Error".to_string()).unwrap_err();
    assert_eq!(e.describe(), "Bridge returned error: 500 Internal Server Error");
    assert_eq!(
        read_password_response(Ok(BridgeResponse::Success { data: "p".to_string() })).unwrap(),
        Some("p".to_string())
    );
    assert_eq!(
        read_password_response(Ok(BridgeResponse::NotFound { message: "m".to_string() })).unwrap(),
        None
    );
    let e = read_password_response(Ok(BridgeResponse::Error { error: "boom".to_string() })).unwrap_err();
    assert!(matches!(&e, BridgeClientError::Bridge(s) if s == "boom"));
    assert_eq!(e.describe(), "Bridge error: boom");
    let e = read_password_response(Err("bad json".to_string())).unwrap_err();
    assert_eq!(e.describe(), "bad json");
    assert_eq!(read_list_response(Ok(BridgeResponse::Success { data: "d".to_string() })).unwrap(), "d");
    assert_eq!(read_list_response(Ok(BridgeResponse::NotFound { message: "m".to_string() })).unwrap(), "m");
    assert!(read_list_response(Ok(BridgeResponse::Error { error: "e".to_string() })).is_err());
}

#[test]
fn tool_results() {
    let k = "myapp".to_string();
    let r = password_tool_result(&k, Ok(Some("secret123".to_string()))).unwrap();
    assert_eq!(r.text, "Password for 'myapp': secret123");
    assert_eq!(r.is_error, None);
    let r = password_tool_result(&k, Ok(None)).unwrap();
    assert_eq!(r.text, "Password not found for key: 'myapp'");
    assert_eq!(r.is_error, Some(true));
    let r = password_tool_result(&k, Err("Bridge error: x".to_string()));
    assert!(matches!(r, Err(ToolFailure::Internal(m)) if m == "Failed to get password: Bridge error: x"));
    let r = list_keys_tool_result(Ok("keys".to_string())).unwrap();
    assert_eq!(r.text, "keys");
    assert_eq!(r.is_error, None);
    let r = list_keys_tool_result(Err("down".to_string()));
    assert!(matches!(r, Err(ToolFailure::Internal(m)) if m == "Failed to list keys: down"));
}

/// The README's walk-through: `get-password --key myapp` prints
/// `Password for 'myapp': secret123`.
#[test]
fn agent_gets_the_stored_password_end_to_end() {
    let store = PasswordStore::from_pairs(vec![("myapp".to_string(), "secret123".to_string())]);
    let key = "myapp".to_string();
    let answer = process_message(
        &store,
        "https://demo.example/password/request",
        Some(enterprise_pw_demo::protocol::PasswordRequest { key: key.clone() }),
    )
    .unwrap();
    let reply = Reply::Message {
        type_: "https://demo.example/password/response".to_string(),
        body: Ok(answer),
    };
    let bridge = answer_lookup(&key, Ok(reply));
    let read = outcome_from_bridge(read_password_response(Ok(bridge)));
    let out = password_tool_result(&key, read).unwrap();
    assert_eq!(out.text, "Password for 'myapp': secret123");
    assert_eq!(out.is_error, None);
}

#[test]
fn agent_learns_of_missing_key_end_to_end() {
    let store = PasswordStore::new();
    let key = "nope".to_string();
    let answer = process_message(
        &store,
        "https://demo.example/password/request",
        Some(enterprise_pw_demo::protocol::PasswordRequest { key: key.clone() }),
    )
    .unwrap();
    assert!(matches!(answer, PasswordResponse::NotFound));
    let reply = Reply::Message {
        type_: "https://demo.example/password/response".to_string(),
        body: Ok(answer),
    };
    let read = outcome_from_bridge(read_password_response(Ok(answer_lookup(&key, Ok(reply)))));
    let out = password_tool_result(&key, read).unwrap();
    assert_eq!(out.text, "Password not found for key: 'nope'");
    assert_eq!(out.is_error, Some(true));
}

#[test]
fn bridge_failure_reaches_the_agent() {
    let key = "k".to_string();
    let bridge = lookup_response(&key, Err("ATM not initialized".to_string()));
    let read = outcome_from_bridge(read_password_response(Ok(bridge)));
    let r = password_tool_result(&key, read);
    assert!(matches!(
        r,
        Err(ToolFailure::Internal(m))
            if m == "Failed to get password: Bridge error: Failed to get password: ATM not initialized"
    ));
}

/// The `list_keys` tool names every key the vault stores.
#[test]
fn agent_lists_the_stored_keys_end_to_end() {
    let store = PasswordStore::from_pairs(vec![
        ("myapp".to_string(), "secret123".to_string()),
        ("database".to_string(), "db_password".to_string()),
    ]);
    let keys = match answer_message(&store, "https://demo.example/password/list-keys-request", None) {
        Some(VaultAnswer::KeyList(keys)) => keys,
        _ => panic!("expected a key list"),
    };
    let reply = KeyListReply::Message {
        type_: "https://demo.example/password/list-keys-response".to_string(),
        body: Ok(keys),
    };
    let data = read_list_response(Ok(answer_key_listing(Ok(reply)))).unwrap();
    let out = list_keys_tool_result(Ok(data)).unwrap();
    assert!(out.text.starts_with("Available password keys: "));
    assert!(out.text.contains("myapp"));
    assert!(out.text.contains("database"));
    assert_eq!(out.is_error, None);
}
