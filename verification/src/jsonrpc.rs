//! The bridge test client's side of the MCP conversation: JSON-RPC request
//! numbering and envelopes, the checks on each response, and what the
//! client prints of tool listings and results.

use vstd::prelude::*;
use crate::text::{concat2, int_text, int_text_spec, trim, trim_spec};

verus! {

/// A JSON value, carried through unread.
#[verifier::external_type_specification]
#[verifier::external_body]
pub struct ExJsonValue(serde_json::Value);

/// A JSON-RPC request.
#[derive(Debug)]
pub struct JsonRpcRequest {
    pub jsonrpc: String,
    pub id: u64,
    pub method: String,
    pub params: Option<serde_json::Value>,
}

/// A JSON-RPC error object.
#[derive(Debug, Clone)]
pub struct JsonRpcError {
    pub code: i32,
    pub message: String,
}

/// A JSON-RPC response.
#[derive(Debug)]
pub struct JsonRpcResponse {
    pub jsonrpc: String,
    pub id: u64,
    pub result: Option<serde_json::Value>,
    pub error: Option<JsonRpcError>,
}

/// Numbers the requests of one conversation: 1, 2, 3, ...
#[derive(Debug, Clone, Copy)]
pub struct RequestIds {
    pub request_id: u64,
}

impl RequestIds {
    /// A conversation with no request sent yet.
    pub fn new() -> (ids: RequestIds)
        ensures
            ids.request_id == 0,
    {
        RequestIds { request_id: 0 }
    }

    /// The number of the next request.
    pub fn next_id(&mut self) -> (id: u64)
        requires
            old(self).request_id < u64::MAX,
        ensures
            final(self).request_id == old(self).request_id + 1,
            id == final(self).request_id,
    {
        self.request_id = self.request_id + 1;
        self.request_id
    }
}

/// The JSON-RPC version this client speaks.
pub open spec fn jsonrpc_version_spec() -> Seq<char> {
    "2.0"@
}

/// A request for `method` with `params`, numbered next in the conversation.
pub fn build_request(ids: &mut RequestIds, method: &str, params: Option<serde_json::Value>) -> (r: JsonRpcRequest)
    requires
        old(ids).request_id < u64::MAX,
    ensures
        r.jsonrpc@ == jsonrpc_version_spec(),
        final(ids).request_id == old(ids).request_id + 1,
        r.id == final(ids).request_id,
        r.method@ == method@,
        r.params == params,
{
    let id = ids.next_id();
    JsonRpcRequest { jsonrpc: String::from_str("2.0"), id, method: String::from_str(method), params }
}

/// Why the conversation with the MCP server failed.
#[derive(Debug, Clone)]
pub enum RpcClientError {
    /// The server sent an empty line.
    EmptyResponse,
    /// The server answered with a JSON-RPC error.
    Rpc { code: i32, message: String },
    /// The server's answer to `initialize` carried no result.
    InitializeFailed,
}

impl RpcClientError {
    /// How the error reads.
    pub fn describe(&self) -> (t: String)
        ensures
            match self {
                RpcClientError::EmptyResponse => t@ == "Empty response from server"@,
                RpcClientError::Rpc { code, message } => t@ == "RPC Error "@ + int_text_spec(
                    *code as int,
                ) + ": "@ + message@,
                RpcClientError::InitializeFailed => t@ == "Failed to initialize MCP connection"@,
            },
    {
        match self {
            RpcClientError::EmptyResponse => String::from_str("Empty response from server"),
            RpcClientError::Rpc { code, message } => {
                let mut t = concat2("RPC Error ", int_text(*code).as_str());
                t.append(": ");
                t.append(message.as_str());
                t
            },
            RpcClientError::InitializeFailed => String::from_str(
                "Failed to initialize MCP connection",
            ),
        }
    }
}

/// Refuses a line from the server that is blank.
pub fn check_line(line: &str) -> (r: Result<(), RpcClientError>)
    ensures
        r is Ok <==> trim_spec(line@).len() > 0,
        r matches Err(e) ==> e is EmptyResponse,
{
    let t = trim(line);
    if t.as_str().is_empty() {
        Err(RpcClientError::EmptyResponse)
    } else {
        Ok(())
    }
}

/// Refuses a response that carries a JSON-RPC error.
pub fn check_response(response: JsonRpcResponse) -> (r: Result<JsonRpcResponse, RpcClientError>)
    ensures
        match response.error {
            Some(e) => r matches Err(RpcClientError::Rpc { code, message }) && code == e.code
                && message@ == e.message@,
            None => r == Ok::<JsonRpcResponse, RpcClientError>(response),
        },
{
    match &response.error {
        Some(e) => Err(RpcClientError::Rpc { code: e.code, message: e.message.clone() }),
        None => Ok(response),
    }
}

/// Refuses an answer to `initialize` that carries no result.
pub fn check_initialized(response: &JsonRpcResponse) -> (r: Result<(), RpcClientError>)
    ensures
        r is Ok <==> response.result is Some,
        r matches Err(e) ==> e is InitializeFailed,
{
    if response.result.is_some() {
        Ok(())
    } else {
        Err(RpcClientError::InitializeFailed)
    }
}

/// What the test client was asked to do.
#[derive(Debug, Clone)]
pub enum TestCommand {
    GetPassword { key: String },
    ListKeys,
    ListTools,
}

/// The MCP exchange that a command needs.
#[derive(Debug, Clone)]
pub enum CommandPlan {
    /// `tools/list`
    ListTools,
    /// `tools/call` of the named tool, with a `key` argument if given.
    CallTool { name: String, key: Option<String> },
}

/// The MCP exchange that `command` needs.
pub fn plan_command(command: TestCommand) -> (p: CommandPlan)
    ensures
        match command {
            TestCommand::GetPassword { key } => p matches CommandPlan::CallTool { name, key: Some(k) }
                && name@ == "get_password"@ && k@ == key@,
            TestCommand::ListKeys => p matches CommandPlan::CallTool { name, key: None } && name@
                == "list_keys"@,
            TestCommand::ListTools => p is ListTools,
        },
{
    match command {
        TestCommand::GetPassword { key } => CommandPlan::CallTool {
            name: String::from_str("get_password"),
            key: Some(key),
        },
        TestCommand::ListKeys => CommandPlan::CallTool {
            name: String::from_str("list_keys"),
            key: None,
        },
        TestCommand::ListTools => CommandPlan::ListTools,
    }
}

/// The items of `items` that are present, in order.
pub open spec fn present_items(items: Seq<Option<Seq<char>>>) -> Seq<Seq<char>>
    decreases items.len(),
{
    if items.len() == 0 {
        Seq::empty()
    } else {
        match items.last() {
            Some(t) => present_items(items.drop_last()).push(t),
            None => present_items(items.drop_last()),
        }
    }
}

/// The contents of optional texts.
pub open spec fn optional_texts_view(items: Seq<Option<String>>) -> Seq<Option<Seq<char>>> {
    items.map_values(|o: Option<String>| match o {
        Some(t) => Some(t@),
        None => None,
    })
}

/// The texts that are present, in order: what the client prints of a tool
/// result's content items (those without text are skipped), or of a tool
/// listing's (name, description) pairs.
pub fn present_texts(items: Vec<Option<String>>) -> (r: Vec<String>)
    ensures
        r@.map_values(|t: String| t@) == present_items(optional_texts_view(items@)),
{
    let mut r: Vec<String> = Vec::new();
    let n = items.len();
    let mut i: usize = 0;
    while i < n
        invariant
            i <= n,
            n == items@.len(),
            r@.map_values(|t: String| t@) == present_items(optional_texts_view(items@).take(i as int)),
        decreases n - i,
    {
        proof {
            assert(optional_texts_view(items@).take(i + 1).drop_last() =~= optional_texts_view(
                items@,
            ).take(i as int));
        }
        match &items[i] {
            Some(t) => {
                r.push(t.clone());
                proof {
                    assert(r@.map_values(|t: String| t@) =~= present_items(
                        optional_texts_view(items@).take(i as int),
                    ).push(t@));
                }
            },
            None => {},
        }
        i += 1;
    }
    proof {
        assert(optional_texts_view(items@).take(n as int) =~= optional_texts_view(items@));
    }
    r
}

/// The (name, description) pairs of which both halves are present, in order.
pub open spec fn complete_pairs(items: Seq<(Option<Seq<char>>, Option<Seq<char>>)>) -> Seq<(Seq<char>, Seq<char>)>
    decreases items.len(),
{
    if items.len() == 0 {
        Seq::empty()
    } else {
        match items.last() {
            (Some(a), Some(b)) => complete_pairs(items.drop_last()).push((a, b)),
            _ => complete_pairs(items.drop_last()),
        }
    }
}

/// The contents of optional (name, description) pairs.
pub open spec fn optional_pairs_view(items: Seq<(Option<String>, Option<String>)>) -> Seq<(Option<Seq<char>>, Option<Seq<char>>)> {
    items.map_values(|p: (Option<String>, Option<String>)| (
        match p.0 {
            Some(t) => Some(t@),
            None => None,
        },
        match p.1 {
            Some(t) => Some(t@),
            None => None,
        },
    ))
}

/// The tools that the client lists: those whose name and description are
/// both present, in order.
pub fn tool_summaries(tools: Vec<(Option<String>, Option<String>)>) -> (r: Vec<(String, String)>)
    ensures
        r@.map_values(|p: (String, String)| (p.0@, p.1@)) == complete_pairs(optional_pairs_view(tools@)),
{
    let mut r: Vec<(String, String)> = Vec::new();
    let n = tools.len();
    let mut i: usize = 0;
    while i < n
        invariant
            i <= n,
            n == tools@.len(),
            r@.map_values(|p: (String, String)| (p.0@, p.1@)) == complete_pairs(
                optional_pairs_view(tools@).take(i as int),
            ),
        decreases n - i,
    {
        proof {
            assert(optional_pairs_view(tools@).take(i + 1).drop_last() =~= optional_pairs_view(
                tools@,
            ).take(i as int));
        }
        match (&tools[i].0, &tools[i].1) {
            (Some(name), Some(description)) => {
                r.push((name.clone(), description.clone()));
                proof {
                    assert(r@.map_values(|p: (String, String)| (p.0@, p.1@)) =~= complete_pairs(
                        optional_pairs_view(tools@).take(i as int),
                    ).push((name@, description@)));
                }
            },
            _ => {},
        }
        i += 1;
    }
    proof {
        assert(optional_pairs_view(tools@).take(n as int) =~= optional_pairs_view(tools@));
    }
    r
}

/// Listing is done item by item: the items of two runs are those of the
/// first run followed by those of the second.
pub proof fn law_complete_pairs_append(
    s: Seq<(Option<Seq<char>>, Option<Seq<char>>)>,
    t: Seq<(Option<Seq<char>>, Option<Seq<char>>)>,
)
    ensures
        complete_pairs(s + t) == complete_pairs(s) + complete_pairs(t),
    decreases t.len(),
{
    if t.len() == 0 {
        assert(s + t =~= s);
        assert(complete_pairs(s) + complete_pairs(t) =~= complete_pairs(s));
    } else {
        assert((s + t).drop_last() =~= s + t.drop_last());
        law_complete_pairs_append(s, t.drop_last());
        match t.last() {
            (Some(a), Some(b)) => {
                assert(complete_pairs(s) + complete_pairs(t) =~= (complete_pairs(s)
                    + complete_pairs(t.drop_last())).push((a, b)));
            },
            _ => {},
        }
    }
}

/// A tool whose name and description are both present is listed, as that
/// pair; one that lacks either is not.
pub proof fn law_complete_pairs_single(name: Option<Seq<char>>, description: Option<Seq<char>>)
    ensures
        complete_pairs(seq![(name, description)]) == match (name, description) {
            (Some(a), Some(b)) => seq![(a, b)],
            _ => Seq::<(Seq<char>, Seq<char>)>::empty(),
        },
{
    let one = seq![(name, description)];
    assert(one.drop_last() =~= Seq::<(Option<Seq<char>>, Option<Seq<char>>)>::empty());
    assert(one.last() == (name, description));
    assert(complete_pairs(one.drop_last()) == Seq::<(Seq<char>, Seq<char>)>::empty());
    match (name, description) {
        (Some(a), Some(b)) => {
            assert(Seq::<(Seq<char>, Seq<char>)>::empty().push((a, b)) =~= seq![(a, b)]);
        },
        _ => {},
    }
}

/// Every complete pair is listed, in order, whatever comes before it.
pub proof fn law_complete_pair_is_listed(
    s: Seq<(Option<Seq<char>>, Option<Seq<char>>)>,
    a: Seq<char>,
    b: Seq<char>,
)
    ensures
        complete_pairs(s.push((Some(a), Some(b)))) == complete_pairs(s).push((a, b)),
{
    assert(s.push((Some(a), Some(b))) =~= s + seq![(Some(a), Some(b))]);
    law_complete_pairs_append(s, seq![(Some(a), Some(b))]);
    law_complete_pairs_single(Some(a), Some(b));
    assert(complete_pairs(s) + seq![(a, b)] =~= complete_pairs(s).push((a, b)));
}

/// Printed texts are taken item by item: those of two runs are those of the
/// first run followed by those of the second.
pub proof fn law_present_items_append(s: Seq<Option<Seq<char>>>, t: Seq<Option<Seq<char>>>)
    ensures
        present_items(s + t) == present_items(s) + present_items(t),
    decreases t.len(),
{
    if t.len() == 0 {
        assert(s + t =~= s);
        assert(present_items(s) + present_items(t) =~= present_items(s));
    } else {
        assert((s + t).drop_last() =~= s + t.drop_last());
        law_present_items_append(s, t.drop_last());
        match t.last() {
            Some(x) => {
                assert(present_items(s) + present_items(t) =~= (present_items(s) + present_items(
                    t.drop_last(),
                )).push(x));
            },
            None => {},
        }
    }
}

/// Every item that has text is printed, in order, whatever comes before it;
/// an item without text adds nothing.
pub proof fn law_present_item_is_printed(s: Seq<Option<Seq<char>>>, x: Seq<char>)
    ensures
        present_items(s.push(Some(x))) == present_items(s).push(x),
        present_items(s.push(None)) == present_items(s),
{
    assert(s.push(Some(x)).drop_last() =~= s);
    assert(s.push(None).drop_last() =~= s);
}

} // verus!
