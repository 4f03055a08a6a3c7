use enterprise_pw_demo::client::{client_reply_error_text, read_vault_reply};
use enterprise_pw_demo::jsonrpc::{
    build_request, check_initialized, check_line, check_response, plan_command, present_texts,
    tool_summaries, CommandPlan, JsonRpcError, JsonRpcResponse, RequestIds, RpcClientError,
    TestCommand,
};
use enterprise_pw_demo::protocol::{PasswordResponse, Reply, ReplyError};

#[test]
fn request_ids_count_up_from_one() {
    let mut ids = RequestIds::new();
    assert_eq!(ids.next_id(), 1);
    assert_eq!(ids.next_id(), 2);
    let r = build_request(&mut ids, "tools/list", None);
    assert_eq!(r.id, 3);
    assert_eq!(r.jsonrpc, "2.0");
    assert_eq!(r.method, "tools/list");
    assert!(r.params.is_none());
    let r = build_request(&mut ids, "tools/call", Some(serde_json::Value::Bool(true)));
    assert_eq!(r.id, 4);
    assert_eq!(r.params, Some(serde_json::Value::Bool(true)));
}

fn response(result: Option<serde_json::Value>, error: Option<JsonRpcError>) -> JsonRpcResponse {
    JsonRpcResponse { jsonrpc: "2.0".to_string(), id: 1, result, error }
}

#[test]
fn response_checks() {
    assert!(matches!(check_line("   \n"), Err(RpcClientError::EmptyResponse)));
    assert!(check_line("{\"jsonrpc\":\"2.0\"}\n").is_ok());
    let e = check_response(response(None, Some(JsonRpcError { code: -32602, message: "bad".to_string() })));
    assert!(matches!(e, Err(RpcClientError::Rpc { code: -32602, message }) if message == "bad"));
    let ok = check_response(response(Some(serde_json::Value::Null), None)).unwrap();
    assert_eq!(ok.result, Some(serde_json::Value::Null));
    assert!(check_initialized(&response(Some(serde_json::Value::Null), None)).is_ok());
    assert!(matches!(check_initialized(&response(None, None)), Err(RpcClientError::InitializeFailed)));
}

#[test]
fn commands_become_tool_calls() {
    assert!(matches!(
        plan_command(TestCommand::GetPassword { key: "myapp".to_string() }),
        CommandPlan::CallTool { name, key: Some(k) } if name == "get_password" && k == "myapp"
    ));
    assert!(matches!(
        plan_command(TestCommand::ListKeys),
        CommandPlan::CallTool { name, key: None } if name == "list_keys"
    ));
    assert!(matches!(plan_command(TestCommand::ListTools), CommandPlan::ListTools));
}

#[test]
fn printed_items_skip_missing_text() {
    let texts = present_texts(vec![Some("a".to_string()), None, Some("b".to_string())]);
    assert_eq!(texts, vec!["a".to_string(), "b".to_string()]);
    let tools = tool_summaries(vec![
        (Some("get_password".to_string()), Some("Retrieves".to_string())),
        (Some("nameless".to_string()), None),
        (None, Some("x".to_string())),
        (Some("list_keys".to_string()), Some("Lists".to_string())),
    ]);
    assert_eq!(
        tools,
        vec![
            ("get_password".to_string(), "Retrieves".to_string()),
            ("list_keys".to_string(), "Lists".to_string())
        ]
    );
}

#[test]
fn client_reads_vault_replies() {
    let r = read_vault_reply(Reply::Message {
        type_: "https://demo.example/password/response".to_string(),
        body: Ok(PasswordResponse::Found { key: "k".to_string(), password: "p".to_string() }),
    });
    assert_eq!(r, Ok(Some("p".to_string())));
    let r = read_vault_reply(Reply::Message { type_: "t".to_string(), body: Ok(PasswordResponse::NotFound) });
    assert_eq!(r, Err("Incorrect message type found: t".to_string()));
    assert_eq!(
        client_reply_error_text(&ReplyError::NotAMessage),
        "expected DIDComm message respoonse, instead we got something else"
    );
}

#[test]
fn rpc_error_texts() {
    assert_eq!(RpcClientError::EmptyResponse.describe(), "Empty response from server");
    assert_eq!(RpcClientError::InitializeFailed.describe(), "Failed to initialize MCP connection");
    for code in [-32602, 0, 7, 42, i32::MIN, i32::MAX] {
        let e = RpcClientError::Rpc { code, message: "bad".to_string() };
        assert_eq!(e.describe(), format!("RPC Error {}: {}", code, "bad"));
    }
}
