//! The DIDComm bridge's decisions: its configuration file's life cycle, the
//! requests it takes from MCP servers, and the answers it gives them.

use vstd::prelude::*;
use crate::protocol::{
    KeyListReply, KeyListReplyModel, Reply, ReplyError, ReplyErrorModel, default_mediator,
    default_mediator_spec, interpret_key_list_reply, interpret_key_list_spec, interpret_reply,
    interpret_reply_spec, key_list_result_view, lookup_result_view,
};
use crate::text::{concat2, concat3, join, join_spec, same_text, texts_view};

verus! {

/// A request from an MCP server.
#[derive(Debug, Clone)]
pub enum BridgeRequest {
    GetPassword { key: String },
    ListKeys,
}

/// The bridge's answer to an MCP server.
#[derive(Debug, Clone)]
pub enum BridgeResponse {
    Success { data: String },
    NotFound { message: String },
    Error { error: String },
}

/// The contents of a `BridgeResponse`.
pub enum BridgeResponseModel {
    Success { data: Seq<char> },
    NotFound { message: Seq<char> },
    Error { error: Seq<char> },
}

impl View for BridgeResponse {
    type V = BridgeResponseModel;

    open spec fn view(&self) -> BridgeResponseModel {
        match self {
            BridgeResponse::Success { data } => BridgeResponseModel::Success { data: data@ },
            BridgeResponse::NotFound { message } => BridgeResponseModel::NotFound {
                message: message@,
            },
            BridgeResponse::Error { error } => BridgeResponseModel::Error { error: error@ },
        }
    }
}

/// What the bridge does with a request: each is forwarded to the vault.
#[derive(Debug, Clone)]
pub enum BridgeStep {
    /// Ask the vault for the password under this key.
    Lookup { key: String },
    /// Ask the vault for the keys it holds.
    ListKeys,
}

/// How the bridge handles `request`: it asks the vault for the password, or
/// for the list of keys.
pub fn begin_request(request: BridgeRequest) -> (step: BridgeStep)
    ensures
        match request {
            BridgeRequest::GetPassword { key } => step matches BridgeStep::Lookup { key: k } && k@
                == key@,
            BridgeRequest::ListKeys => step is ListKeys,
        },
{
    match request {
        BridgeRequest::GetPassword { key } => BridgeStep::Lookup { key },
        BridgeRequest::ListKeys => BridgeStep::ListKeys,
    }
}

/// The text with which the bridge names the vault's keys: a sentence that
/// lists them in the vault's order, separated by commas.
pub open spec fn key_list_text_spec(keys: Seq<Seq<char>>) -> Seq<char> {
    if keys.len() == 0 {
        "No password keys are available."@
    } else {
        "Available password keys: "@ + join_spec(keys, ", "@)
    }
}

/// The text with which the bridge names the vault's keys.
pub fn key_list_text(keys: &Vec<String>) -> (t: String)
    ensures
        t@ == key_list_text_spec(texts_view(keys@)),
{
    if keys.len() == 0 {
        String::from_str("No password keys are available.")
    } else {
        let joined = join(keys, ", ");
        concat2("Available password keys: ", joined.as_str())
    }
}

/// The bridge's answer to a request for keys, given how the listing went:
/// the keys, or the reason (as text) that they could not be had.
pub open spec fn key_listing_response_spec(outcome: Result<Seq<Seq<char>>, Seq<char>>) -> BridgeResponseModel {
    match outcome {
        Ok(keys) => BridgeResponseModel::Success { data: key_list_text_spec(keys) },
        Err(e) => BridgeResponseModel::Error { error: "Failed to list keys: "@ + e },
    }
}

/// How a key listing went, as the bridge sees it: the vault's reply read as
/// in `interpret_key_list_spec`, with a reply that could not be read, or one
/// that never came (for the reason `e`), reported as text.
pub open spec fn key_listing_outcome_spec(reply: Result<KeyListReplyModel, Seq<char>>) -> Result<Seq<Seq<char>>, Seq<char>> {
    match reply {
        Ok(r) => match interpret_key_list_spec(r) {
            Ok(keys) => Ok(keys),
            Err(e) => Err(reply_error_text_spec(e)),
        },
        Err(e) => Err(e),
    }
}

/// The contents of a key-list reply that came, or of the reason it did not.
pub open spec fn key_list_reply_view(reply: Result<KeyListReply, String>) -> Result<KeyListReplyModel, Seq<char>> {
    match reply {
        Ok(r) => Ok(r@),
        Err(e) => Err(e@),
    }
}

/// The bridge's answer to a request for keys, given the vault's reply, or
/// the reason (as text) that no reply came: on success the data names each
/// key the vault sent, in its order.
pub fn answer_key_listing(reply: Result<KeyListReply, String>) -> (r: BridgeResponse)
    ensures
        r@ == key_listing_response_spec(key_listing_outcome_spec(key_list_reply_view(reply))),
{
    let outcome = match reply {
        Ok(rep) => {
            let read = interpret_key_list_reply(rep);
            proof {
                assert(key_list_result_view(read) == interpret_key_list_spec(rep@));
            }
            match read {
                Ok(keys) => Ok(keys),
                Err(e) => Err(reply_error_text(&e)),
            }
        },
        Err(e) => Err(e),
    };
    match outcome {
        Ok(keys) => BridgeResponse::Success { data: key_list_text(&keys) },
        Err(e) => BridgeResponse::Error { error: concat2("Failed to list keys: ", e.as_str()) },
    }
}

/// Why the bridge cannot reach the vault yet, if it cannot: its DIDComm
/// connection or its profile has not been set up.
pub fn readiness_error(connection_ready: bool, profile_ready: bool) -> (e: Option<String>)
    ensures
        !connection_ready ==> (e matches Some(t) && t@ == "ATM not initialized"@),
        connection_ready && !profile_ready ==> (e matches Some(t) && t@
            == "Profile not initialized"@),
        connection_ready && profile_ready ==> e is None,
{
    if !connection_ready {
        Some(String::from_str("ATM not initialized"))
    } else if !profile_ready {
        Some(String::from_str("Profile not initialized"))
    } else {
        None
    }
}

/// What the bridge's health endpoint answers.
pub fn health_text() -> (s: &'static str)
    ensures
        s@ == "DIDComm Bridge is healthy"@,
{
    "DIDComm Bridge is healthy"
}

/// What the bridge says when the vault has no password under `key`.
pub open spec fn not_found_text_spec(key: Seq<char>) -> Seq<char> {
    "Password not found for key: '"@ + key + "'"@
}

/// What the bridge says when the lookup failed for the reason `reason`.
pub open spec fn lookup_failed_text_spec(reason: Seq<char>) -> Seq<char> {
    "Failed to get password: "@ + reason
}

/// The bridge's answer to a request for `key`, given how the lookup went:
/// the password, none stored, or the reason it failed.
pub open spec fn lookup_response_spec(key: Seq<char>, outcome: Result<Option<Seq<char>>, Seq<char>>) -> BridgeResponseModel {
    match outcome {
        Ok(Some(p)) => BridgeResponseModel::Success { data: p },
        Ok(None) => BridgeResponseModel::NotFound { message: not_found_text_spec(key) },
        Err(e) => BridgeResponseModel::Error { error: lookup_failed_text_spec(e) },
    }
}

/// The contents of a lookup outcome.
pub open spec fn outcome_view(outcome: Result<Option<String>, String>) -> Result<Option<Seq<char>>, Seq<char>> {
    match outcome {
        Ok(Some(p)) => Ok(Some(p@)),
        Ok(None) => Ok(None),
        Err(e) => Err(e@),
    }
}

/// The bridge's answer to a request for `key`, given how the lookup went.
pub fn lookup_response(key: &String, outcome: Result<Option<String>, String>) -> (r: BridgeResponse)
    ensures
        r@ == lookup_response_spec(key@, outcome_view(outcome)),
{
    match outcome {
        Ok(Some(password)) => BridgeResponse::Success { data: password },
        Ok(None) => BridgeResponse::NotFound {
            message: concat3("Password not found for key: '", key.as_str(), "'"),
        },
        Err(e) => BridgeResponse::Error { error: concat2("Failed to get password: ", e.as_str()) },
    }
}

/// How the bridge reports a reply from the vault that it could not read.
pub open spec fn reply_error_text_spec(e: ReplyErrorModel) -> Seq<char> {
    match e {
        ReplyErrorModel::UnexpectedType(t) => "Unexpected message type: "@ + t,
        ReplyErrorModel::MalformedBody(reason) => reason,
        ReplyErrorModel::NotAMessage => "Expected DIDComm message response"@,
    }
}

/// How the bridge reports a reply from the vault that it could not read.
pub fn reply_error_text(e: &ReplyError) -> (t: String)
    ensures
        t@ == reply_error_text_spec(e@),
{
    match e {
        ReplyError::UnexpectedType(t) => concat2("Unexpected message type: ", t.as_str()),
        ReplyError::MalformedBody(reason) => reason.clone(),
        ReplyError::NotAMessage => String::from_str("Expected DIDComm message response"),
    }
}

/// How a lookup went, as the bridge sees it: the vault's reply read as in
/// `interpret_reply_spec`, with a reply that could not be read, or one that
/// never came (for the reason `e`), reported as text.
pub open spec fn lookup_outcome_spec(reply: Result<crate::protocol::ReplyModel, Seq<char>>) -> Result<Option<Seq<char>>, Seq<char>> {
    match reply {
        Ok(r) => match interpret_reply_spec(r) {
            Ok(p) => Ok(p),
            Err(e) => Err(reply_error_text_spec(e)),
        },
        Err(e) => Err(e),
    }
}

/// The contents of a reply that came, or of the reason it did not.
pub open spec fn reply_result_view(reply: Result<Reply, String>) -> Result<crate::protocol::ReplyModel, Seq<char>> {
    match reply {
        Ok(r) => Ok(r@),
        Err(e) => Err(e@),
    }
}

/// The bridge's answer to a request for `key`, given the vault's reply, or
/// the reason (as text) that no reply came.
pub fn answer_lookup(key: &String, reply: Result<Reply, String>) -> (r: BridgeResponse)
    ensures
        r@ == lookup_response_spec(key@, lookup_outcome_spec(reply_result_view(reply))),
{
    let outcome = match reply {
        Ok(rep) => {
            let read = interpret_reply(rep);
            proof {
                assert(lookup_result_view(read) == interpret_reply_spec(rep@));
            }
            match read {
                Ok(p) => Ok(p),
                Err(e) => Err(reply_error_text(&e)),
            }
        },
        Err(e) => Err(e),
    };
    lookup_response(key, outcome)
}

/// The service DID a new configuration file holds until it is edited.
pub open spec fn placeholder_service_spec() -> Seq<char> {
    "REPLACE_WITH_SERVICE_DID"@
}

/// The port the bridge listens on unless told otherwise.
pub const DEFAULT_PORT: u16 = 8080;

/// The bridge's configuration. `S` is the type of the DID secrets, which
/// the bridge only stores and hands on.
#[derive(Debug, Clone)]
pub struct BridgeConfig<S> {
    /// DID of the bridge (persistent)
    pub bridge_did: Option<String>,
    /// Secrets for the bridge DID
    pub bridge_secrets: Option<S>,
    /// DID of the password service
    pub service_did: String,
    /// DID of the mediator
    pub mediator_did: String,
    /// Port to listen on
    pub port: u16,
}

/// A configuration with no bridge identity yet, for the service `service_did`,
/// the default mediator and the default port.
pub open spec fn fresh_config_spec<S>(c: BridgeConfig<S>, service_did: Seq<char>) -> bool {
    &&& c.bridge_did is None
    &&& c.bridge_secrets is None
    &&& c.service_did@ == service_did
    &&& c.mediator_did@ == default_mediator_spec()
    &&& c.port == DEFAULT_PORT
}

/// The message with which the bridge stops after writing a template
/// configuration to `path`.
pub open spec fn template_created_text_spec(path: Seq<char>) -> Seq<char> {
    "Configuration file '"@ + path
        + "' created. Please:\n1. Start password service: cargo run --bin service\n2. Provide service DID via --service-did flag, or\n3. Edit "@
        + path + " and set service_did, then restart"@
}

/// The message with which the bridge stops when the configuration at `path`
/// still names no password service.
pub open spec fn service_missing_text_spec(path: Seq<char>) -> Seq<char> {
    "Please provide service DID via --service-did flag or edit "@ + path
        + " and set service_did"@
}

/// What to do when no configuration file exists at the given path.
#[derive(Debug, Clone)]
pub enum MissingConfig<S> {
    /// Write this template, then stop with this message.
    WriteTemplateAndStop { template: BridgeConfig<S>, message: String },
    /// Write this configuration and run with it.
    WriteAndUse(BridgeConfig<S>),
}

/// What to do when no configuration file exists at `path`: with a service
/// DID given on the command line, create a configuration for it; without
/// one, write a template to be edited and stop.
pub fn plan_missing_config<S>(path: &str, service_override: Option<String>) -> (plan: MissingConfig<S>)
    ensures
        match service_override {
            None => plan matches MissingConfig::WriteTemplateAndStop { template, message }
                && fresh_config_spec(template, placeholder_service_spec())
                && message@ == template_created_text_spec(path@),
            Some(did) => plan matches MissingConfig::WriteAndUse(c) && fresh_config_spec(c, did@),
        },
{
    match service_override {
        None => {
            let template = BridgeConfig {
                bridge_did: None,
                bridge_secrets: None,
                service_did: String::from_str("REPLACE_WITH_SERVICE_DID"),
                mediator_did: String::from_str(default_mediator()),
                port: DEFAULT_PORT,
            };
            let mut message = concat2("Configuration file '", path);
            message.append(
                "' created. Please:\n1. Start password service: cargo run --bin service\n2. Provide service DID via --service-did flag, or\n3. Edit ",
            );
            message.append(path);
            message.append(" and set service_did, then restart");
            MissingConfig::WriteTemplateAndStop { template, message }
        },
        Some(did) => MissingConfig::WriteAndUse(
            BridgeConfig {
                bridge_did: None,
                bridge_secrets: None,
                service_did: did,
                mediator_did: String::from_str(default_mediator()),
                port: DEFAULT_PORT,
            },
        ),
    }
}

/// The configuration read from `path`, with the service DID given on the
/// command line put in place; an error with its message when it still names
/// no password service.
pub fn settle_loaded_config<S>(config: BridgeConfig<S>, service_override: Option<String>, path: &str) -> (r: Result<BridgeConfig<S>, String>)
    ensures
        ({
            let service = match service_override {
                Some(d) => d@,
                None => config.service_did@,
            };
            &&& service == placeholder_service_spec() ==> (r matches Err(m) && m@
                == service_missing_text_spec(path@))
            &&& service != placeholder_service_spec() ==> (r matches Ok(c) && c.service_did@
                == service && c.bridge_did == config.bridge_did && c.bridge_secrets
                == config.bridge_secrets && c.mediator_did == config.mediator_did && c.port
                == config.port)
        }),
{
    let mut config = config;
    if let Some(did) = service_override {
        config.service_did = did;
    }
    if same_text(config.service_did.as_str(), "REPLACE_WITH_SERVICE_DID") {
        let mut message = concat2("Please provide service DID via --service-did flag or edit ", path);
        message.append(" and set service_did");
        return Err(message);
    }
    Ok(config)
}

/// The configuration names the bridge's DID and holds its secrets.
pub open spec fn identity_known<S>(c: BridgeConfig<S>) -> bool {
    c.bridge_did is Some && c.bridge_secrets is Some
}

impl<S> BridgeConfig<S> {
    /// Puts the port given on the command line in place.
    pub fn apply_port_override(&mut self, port: Option<u16>)
        ensures
            final(self).port == match port {
                Some(p) => p,
                None => old(self).port,
            },
            final(self).bridge_did == old(self).bridge_did,
            final(self).bridge_secrets == old(self).bridge_secrets,
            final(self).service_did == old(self).service_did,
            final(self).mediator_did == old(self).mediator_did,
    {
        if let Some(p) = port {
            self.port = p;
        }
    }

    /// Whether the bridge already has a DID and its secrets; otherwise it
    /// makes a new identity.
    pub fn has_identity(&self) -> (b: bool)
        ensures
            b == identity_known(*self),
    {
        self.bridge_did.is_some() && self.bridge_secrets.is_some()
    }

    /// Records a new bridge identity so that later runs reuse it.
    pub fn set_identity(&mut self, did: String, secrets: S)
        ensures
            identity_known(*final(self)),
            final(self).bridge_did == Some(did),
            final(self).bridge_secrets == Some(secrets),
            final(self).service_did == old(self).service_did,
            final(self).mediator_did == old(self).mediator_did,
            final(self).port == old(self).port,
    {
        self.bridge_did = Some(did);
        self.bridge_secrets = Some(secrets);
    }
}

} // verus!
