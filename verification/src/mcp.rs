//! The MCP tool server's decisions: how it describes itself and its tools,
//! which tool a call asks for, how it reads the bridge's answers, and what
//! each tool call returns to the agent.

use vstd::prelude::*;
use crate::bridge::{
    BridgeResponse, BridgeResponseModel, key_list_text_spec, key_listing_outcome_spec,
    key_listing_response_spec, lookup_outcome_spec, lookup_response_spec,
};
use crate::protocol::{
    KeyListReplyModel, ReplyModel, key_list_type_spec, list_request_type_spec,
    request_type_spec, response_type_spec,
};
use crate::text::{join_spec, lemma_join_contains_parts, occurs_in};
use crate::vault::{
    MessageKind, classify_spec, law_request_answer_round_trip, lemma_message_types_distinct,
    names_exactly, process_spec,
};
use crate::text::{concat2, concat3, same_text};

verus! {

/// The server's name in its MCP server information.
pub open spec fn server_name_spec() -> Seq<char> {
    "password-vault-mcp"@
}

/// The server's name in its MCP server information.
pub fn server_name() -> (s: &'static str)
    ensures
        s@ == server_name_spec(),
{
    "password-vault-mcp"
}

/// The instructions in the server's MCP server information.
pub open spec fn server_instructions_spec() -> Seq<char> {
    "Password Vault MCP Server - HTTP to DIDComm Bridge"@
}

/// The instructions in the server's MCP server information.
pub fn server_instructions() -> (s: &'static str)
    ensures
        s@ == server_instructions_spec(),
{
    "Password Vault MCP Server - HTTP to DIDComm Bridge"
}

/// A string parameter of a tool.
#[derive(Debug, Clone)]
pub struct ToolParam {
    pub name: String,
    pub description: String,
    pub required: bool,
}

/// A tool that the server offers: its name, what it does, and its string
/// parameters.
#[derive(Debug, Clone)]
pub struct ToolDescriptor {
    pub name: String,
    pub description: String,
    pub params: Vec<ToolParam>,
}

/// Name of the tool that fetches a password.
pub open spec fn get_password_tool_spec() -> Seq<char> {
    "get_password"@
}

/// Name of the tool that lists keys.
pub open spec fn list_keys_tool_spec() -> Seq<char> {
    "list_keys"@
}

/// The tools the server offers: `get_password` with one required parameter
/// `key`, and `list_keys` with none.
pub fn tool_catalog() -> (tools: Vec<ToolDescriptor>)
    ensures
        tools@.len() == 2,
        tools@[0].name@ == get_password_tool_spec(),
        tools@[0].description@ == "Retrieves a password from the secure vault by key"@,
        tools@[0].params@.len() == 1,
        tools@[0].params@[0].name@ == "key"@,
        tools@[0].params@[0].description@ == "The password key to retrieve"@,
        tools@[0].params@[0].required,
        tools@[1].name@ == list_keys_tool_spec(),
        tools@[1].description@ == "Lists information about available password keys"@,
        tools@[1].params@.len() == 0,
{
    let mut key_params = Vec::new();
    key_params.push(
        ToolParam {
            name: String::from_str("key"),
            description: String::from_str("The password key to retrieve"),
            required: true,
        },
    );
    let mut tools = Vec::new();
    tools.push(
        ToolDescriptor {
            name: String::from_str("get_password"),
            description: String::from_str("Retrieves a password from the secure vault by key"),
            params: key_params,
        },
    );
    tools.push(
        ToolDescriptor {
            name: String::from_str("list_keys"),
            description: String::from_str("Lists information about available password keys"),
            params: Vec::new(),
        },
    );
    tools
}

/// Why a tool call fails, by the MCP error it is reported as.
#[derive(Debug, Clone)]
pub enum ToolFailure {
    InvalidParams(String),
    InvalidRequest(String),
    Internal(String),
}

/// The contents of a `ToolFailure`.
pub enum ToolFailureModel {
    InvalidParams(Seq<char>),
    InvalidRequest(Seq<char>),
    Internal(Seq<char>),
}

impl View for ToolFailure {
    type V = ToolFailureModel;

    open spec fn view(&self) -> ToolFailureModel {
        match self {
            ToolFailure::InvalidParams(m) => ToolFailureModel::InvalidParams(m@),
            ToolFailure::InvalidRequest(m) => ToolFailureModel::InvalidRequest(m@),
            ToolFailure::Internal(m) => ToolFailureModel::Internal(m@),
        }
    }
}

/// What a tool call asks the server to do.
#[derive(Debug, Clone)]
pub enum ToolCall {
    GetPassword { key: String },
    ListKeys,
    Fail(ToolFailure),
}

/// Which tool a call names, given the call's `key` argument when it is a
/// string: `get_password` needs the key; any other name than the two tools
/// is refused.
pub fn plan_tool_call(name: &str, key: Option<String>) -> (call: ToolCall)
    ensures
        name@ == get_password_tool_spec() && key is Some ==> (call matches ToolCall::GetPassword {
            key: k,
        } && k@ == key->0@),
        name@ == get_password_tool_spec() && key is None ==> (call matches ToolCall::Fail(f) && f@
            == ToolFailureModel::InvalidParams("Missing 'key' parameter"@)),
        name@ == list_keys_tool_spec() ==> call is ListKeys,
        name@ != get_password_tool_spec() && name@ != list_keys_tool_spec() ==> (
        call matches ToolCall::Fail(f) && f@ == ToolFailureModel::InvalidRequest(
            "Unknown tool: "@ + name@,
        )),
{
    proof {
        reveal_strlit("get_password");
        reveal_strlit("list_keys");
        assert(get_password_tool_spec()[0] != list_keys_tool_spec()[0]);
    }
    if same_text(name, "get_password") {
        match key {
            Some(k) => ToolCall::GetPassword { key: k },
            None => ToolCall::Fail(
                ToolFailure::InvalidParams(String::from_str("Missing 'key' parameter")),
            ),
        }
    } else if same_text(name, "list_keys") {
        ToolCall::ListKeys
    } else {
        ToolCall::Fail(ToolFailure::InvalidRequest(concat2("Unknown tool: ", name)))
    }
}

/// Why the bridge's answer could not be used.
#[derive(Debug, Clone)]
pub enum BridgeClientError {
    /// The bridge answered with an HTTP status that is not a success (carried
    /// here as text).
    Status(String),
    /// The request could not be sent or the answer's body could not be read
    /// (the reason is carried here).
    Decode(String),
    /// The bridge reported an error.
    Bridge(String),
}

/// The contents of a `BridgeClientError`.
pub enum BridgeClientErrorModel {
    Status(Seq<char>),
    Decode(Seq<char>),
    Bridge(Seq<char>),
}

impl View for BridgeClientError {
    type V = BridgeClientErrorModel;

    open spec fn view(&self) -> BridgeClientErrorModel {
        match self {
            BridgeClientError::Status(s) => BridgeClientErrorModel::Status(s@),
            BridgeClientError::Decode(s) => BridgeClientErrorModel::Decode(s@),
            BridgeClientError::Bridge(s) => BridgeClientErrorModel::Bridge(s@),
        }
    }
}

/// How a `BridgeClientError` reads.
pub open spec fn client_error_text_spec(e: BridgeClientErrorModel) -> Seq<char> {
    match e {
        BridgeClientErrorModel::Status(s) => "Bridge returned error: "@ + s,
        BridgeClientErrorModel::Decode(s) => s,
        BridgeClientErrorModel::Bridge(s) => "Bridge error: "@ + s,
    }
}

impl BridgeClientError {
    /// How the error reads.
    pub fn describe(&self) -> (t: String)
        ensures
            t@ == client_error_text_spec(self@),
    {
        match self {
            BridgeClientError::Status(s) => concat2("Bridge returned error: ", s.as_str()),
            BridgeClientError::Decode(s) => s.clone(),
            BridgeClientError::Bridge(s) => concat2("Bridge error: ", s.as_str()),
        }
    }
}

/// Refuses an HTTP answer whose status is not a success.
pub fn check_status(success: bool, status: String) -> (r: Result<(), BridgeClientError>)
    ensures
        success ==> r is Ok,
        !success ==> (r matches Err(e) && e@ == BridgeClientErrorModel::Status(status@)),
{
    if success {
        Ok(())
    } else {
        Err(BridgeClientError::Status(status))
    }
}

/// The contents of a bridge answer's body as read, or the reason it could not be.
pub open spec fn body_view(body: Result<BridgeResponse, String>) -> Result<BridgeResponseModel, Seq<char>> {
    match body {
        Ok(b) => Ok(b@),
        Err(e) => Err(e@),
    }
}

/// What the MCP server learns from the bridge's answer to a password request.
pub open spec fn read_password_spec(body: Result<BridgeResponseModel, Seq<char>>) -> Result<Option<Seq<char>>, BridgeClientErrorModel> {
    match body {
        Ok(BridgeResponseModel::Success { data }) => Ok(Some(data)),
        Ok(BridgeResponseModel::NotFound { message }) => Ok(None),
        Ok(BridgeResponseModel::Error { error }) => Err(BridgeClientErrorModel::Bridge(error)),
        Err(e) => Err(BridgeClientErrorModel::Decode(e)),
    }
}

/// The contents of what was learnt from the bridge.
pub open spec fn password_read_view(r: Result<Option<String>, BridgeClientError>) -> Result<Option<Seq<char>>, BridgeClientErrorModel> {
    match r {
        Ok(Some(p)) => Ok(Some(p@)),
        Ok(None) => Ok(None),
        Err(e) => Err(e@),
    }
}

/// Reads the bridge's answer to a password request: the password, none
/// stored, or why it could not be had.
pub fn read_password_response(body: Result<BridgeResponse, String>) -> (r: Result<Option<String>, BridgeClientError>)
    ensures
        password_read_view(r) == read_password_spec(body_view(body)),
{
    match body {
        Ok(BridgeResponse::Success { data }) => Ok(Some(data)),
        Ok(BridgeResponse::NotFound { message: _ }) => Ok(None),
        Ok(BridgeResponse::Error { error }) => Err(BridgeClientError::Bridge(error)),
        Err(e) => Err(BridgeClientError::Decode(e)),
    }
}

/// What the MCP server learns from the bridge's answer to a request to list
/// keys: the text it sent, whether as data or as a not-found message, or why
/// it could not be had.
pub open spec fn read_list_spec(body: Result<BridgeResponseModel, Seq<char>>) -> Result<Seq<char>, BridgeClientErrorModel> {
    match body {
        Ok(BridgeResponseModel::Success { data }) => Ok(data),
        Ok(BridgeResponseModel::NotFound { message }) => Ok(message),
        Ok(BridgeResponseModel::Error { error }) => Err(BridgeClientErrorModel::Bridge(error)),
        Err(e) => Err(BridgeClientErrorModel::Decode(e)),
    }
}

/// The contents of a listing read from the bridge.
pub open spec fn list_read_view(r: Result<String, BridgeClientError>) -> Result<Seq<char>, BridgeClientErrorModel> {
    match r {
        Ok(t) => Ok(t@),
        Err(e) => Err(e@),
    }
}

/// Reads the bridge's answer to a request to list keys.
pub fn read_list_response(body: Result<BridgeResponse, String>) -> (r: Result<String, BridgeClientError>)
    ensures
        list_read_view(r) == read_list_spec(body_view(body)),
{
    match body {
        Ok(BridgeResponse::Success { data }) => Ok(data),
        Ok(BridgeResponse::NotFound { message }) => Ok(message),
        Ok(BridgeResponse::Error { error }) => Err(BridgeClientError::Bridge(error)),
        Err(e) => Err(BridgeClientError::Decode(e)),
    }
}

/// A tool's text result, flagged when it reports a failure to the agent.
#[derive(Debug, Clone)]
pub struct ToolOutput {
    pub text: String,
    pub is_error: Option<bool>,
}

/// The contents of a tool call's result.
pub enum ToolResultModel {
    Output { text: Seq<char>, is_error: Option<bool> },
    Failure(ToolFailureModel),
}

/// The contents of a tool call's result.
pub open spec fn tool_result_view(r: Result<ToolOutput, ToolFailure>) -> ToolResultModel {
    match r {
        Ok(o) => ToolResultModel::Output { text: o.text@, is_error: o.is_error },
        Err(f) => ToolResultModel::Failure(f@),
    }
}

/// The text the agent gets for the password `password` under `key`.
pub open spec fn password_text_spec(key: Seq<char>, password: Seq<char>) -> Seq<char> {
    "Password for '"@ + key + "': "@ + password
}

/// What `get_password` returns for `key`, given what the bridge said: the
/// password, a flagged not-found text, or an internal error.
pub open spec fn password_tool_spec(key: Seq<char>, outcome: Result<Option<Seq<char>>, Seq<char>>) -> ToolResultModel {
    match outcome {
        Ok(Some(p)) => ToolResultModel::Output { text: password_text_spec(key, p), is_error: None },
        Ok(None) => ToolResultModel::Output {
            text: "Password not found for key: '"@ + key + "'"@,
            is_error: Some(true),
        },
        Err(e) => ToolResultModel::Failure(
            ToolFailureModel::Internal("Failed to get password: "@ + e),
        ),
    }
}

/// What `get_password` returns for `key`, given what the bridge said or the
/// reason (as text) that nothing usable came.
pub fn password_tool_result(key: &String, outcome: Result<Option<String>, String>) -> (r: Result<ToolOutput, ToolFailure>)
    ensures
        tool_result_view(r) == password_tool_spec(key@, crate::bridge::outcome_view(outcome)),
{
    match outcome {
        Ok(Some(password)) => {
            let mut text = concat3("Password for '", key.as_str(), "': ");
            text.append(password.as_str());
            Ok(ToolOutput { text, is_error: None })
        },
        Ok(None) => Ok(
            ToolOutput {
                text: concat3("Password not found for key: '", key.as_str(), "'"),
                is_error: Some(true),
            },
        ),
        Err(e) => Err(ToolFailure::Internal(concat2("Failed to get password: ", e.as_str()))),
    }
}

/// What `list_keys` returns, given the bridge's text or the reason (as text)
/// that nothing usable came.
pub fn list_keys_tool_result(outcome: Result<String, String>) -> (r: Result<ToolOutput, ToolFailure>)
    ensures
        match outcome {
            Ok(t) => tool_result_view(r) == ToolResultModel::Output { text: t@, is_error: None },
            Err(e) => tool_result_view(r) == ToolResultModel::Failure(
                ToolFailureModel::Internal("Failed to list keys: "@ + e@),
            ),
        },
{
    match outcome {
        Ok(text) => Ok(ToolOutput { text, is_error: None }),
        Err(e) => Err(ToolFailure::Internal(concat2("Failed to list keys: ", e.as_str()))),
    }
}

/// The reason, as text, that what the bridge said could not be used.
pub fn outcome_from_bridge(r: Result<Option<String>, BridgeClientError>) -> (o: Result<Option<String>, String>)
    ensures
        crate::bridge::outcome_view(o) == match password_read_view(r) {
            Ok(p) => Ok(p),
            Err(e) => Err(client_error_text_spec(e)),
        },
{
    match r {
        Ok(p) => Ok(p),
        Err(e) => Err(e.describe()),
    }
}

/// An agent that calls `get_password` for `key` gets the password the vault
/// stores under `key`, as `Password for '<key>': <password>`, or, when the
/// vault stores none, the flagged not-found text: the vault's answer goes
/// through the DIDComm reply, the bridge and the MCP server unchanged.
pub proof fn law_agent_receives_stored_password(store: Map<Seq<char>, Seq<char>>, key: Seq<char>)
    ensures
        ({
            let answer = process_spec(store, request_type_spec(), Some(key))->0;
            let reply = ReplyModel::Message { type_: response_type_spec(), body: Ok(answer) };
            let bridge = lookup_response_spec(key, lookup_outcome_spec(Ok(reply)));
            let outcome = match read_password_spec(Ok(bridge)) {
                Ok(p) => Ok(p),
                Err(e) => Err(client_error_text_spec(e)),
            };
            password_tool_spec(key, outcome) == if store.contains_key(key) {
                ToolResultModel::Output {
                    text: password_text_spec(key, store[key]),
                    is_error: None,
                }
            } else {
                ToolResultModel::Output {
                    text: "Password not found for key: '"@ + key + "'"@,
                    is_error: Some(true),
                }
            }
        }),
{
    law_request_answer_round_trip(store, key);
}

/// When the vault cannot be reached or its reply cannot be read, the agent
/// gets an internal error that carries the bridge's reason, never a
/// password.
pub proof fn law_bridge_failure_reaches_agent(key: Seq<char>, reason: Seq<char>)
    ensures
        ({
            let bridge = lookup_response_spec(key, Err(reason));
            let outcome = match read_password_spec(Ok(bridge)) {
                Ok(p) => Ok(p),
                Err(e) => Err(client_error_text_spec(e)),
            };
            password_tool_spec(key, outcome) == ToolResultModel::Failure(
                ToolFailureModel::Internal(
                    "Failed to get password: "@ + ("Bridge error: "@ + (
                    "Failed to get password: "@ + reason)),
                ),
            )
        }),
{
}

/// A text that occurs in `b` occurs in `a + b`.
proof fn lemma_occurs_after(t: Seq<char>, a: Seq<char>, b: Seq<char>)
    requires
        occurs_in(t, b),
    ensures
        occurs_in(t, a + b),
{
    let off = choose|off: int| 0 <= off && off + t.len() <= b.len() && #[trigger] b.subrange(off, off + t.len()) == t;
    let o = a.len() + off;
    assert((a + b).subrange(o, o + t.len()) =~= b.subrange(off, off + t.len()));
}

/// An agent that calls `list_keys` gets a text naming every key the vault
/// stores, and no other: the vault answers a request for keys with exactly
/// its keys, and that list goes through the DIDComm reply, the bridge and
/// the MCP server into the text unchanged.
pub proof fn law_agent_lists_stored_keys(store: Map<Seq<char>, Seq<char>>, keys: Seq<Seq<char>>)
    requires
        names_exactly(keys, store),
    ensures
        classify_spec(list_request_type_spec(), true) == MessageKind::ListKeysRequest,
        classify_spec(list_request_type_spec(), false) == MessageKind::ListKeysRequest,
        ({
            let reply = KeyListReplyModel::Message { type_: key_list_type_spec(), body: Ok(keys) };
            let bridge = key_listing_response_spec(key_listing_outcome_spec(Ok(reply)));
            let outcome = match read_list_spec(Ok(bridge)) {
                Ok(t) => Ok(t),
                Err(e) => Err(client_error_text_spec(e)),
            };
            &&& bridge == BridgeResponseModel::Success { data: key_list_text_spec(keys) }
            &&& outcome == Ok::<Seq<char>, Seq<char>>(key_list_text_spec(keys))
        }),
        forall|k: Seq<char>| #[trigger] store.contains_key(k) ==> occurs_in(k, key_list_text_spec(keys)),
{
    lemma_message_types_distinct();
    reveal_strlit("https://demo.example/password/list-keys-response");
    assert(key_list_type_spec().subrange(0, key_list_type_spec().len() as int) =~= key_list_type_spec());
    assert forall|k: Seq<char>| #[trigger] store.contains_key(k) implies occurs_in(k, key_list_text_spec(keys)) by {
        assert(keys.contains(k));
        let i = choose|i: int| 0 <= i < keys.len() && keys[i] == k;
        lemma_join_contains_parts(keys, ", "@, i);
        lemma_occurs_after(k, "Available password keys: "@, join_spec(keys, ", "@));
    }
}

} // verus!
