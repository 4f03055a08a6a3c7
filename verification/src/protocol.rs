//! The vocabulary shared by the vault service, its clients and the bridge:
//! console colours, the default mediator, the DIDComm message types, the
//! request and response bodies, how messages are addressed and threaded, and
//! how a client reads the vault's reply.

use vstd::prelude::*;
use crate::text::{has_prefix, starts_with, texts_view};

verus! {

/// Console colour for general information.
pub const CLI_BLUE: u8 = 69;

/// Console colour for successful outcomes.
pub const CLI_GREEN: u8 = 34;

/// Console colour for error messages.
pub const CLI_RED: u8 = 9;

/// Console colour for cautionary data.
pub const CLI_ORANGE: u8 = 214;

/// The mediator that components register with unless told otherwise.
pub open spec fn default_mediator_spec() -> Seq<char> {
    "did:web:mediator-nlb.storm.ws:mediator:v1:.well-known"@
}

/// The mediator that components register with unless told otherwise.
pub fn default_mediator() -> (s: &'static str)
    ensures
        s@ == default_mediator_spec(),
{
    "did:web:mediator-nlb.storm.ws:mediator:v1:.well-known"
}

/// DIDComm message type of a password request.
pub open spec fn request_type_spec() -> Seq<char> {
    "https://demo.example/password/request"@
}

/// DIDComm message type of a password request.
pub fn request_type() -> (s: &'static str)
    ensures
        s@ == request_type_spec(),
{
    "https://demo.example/password/request"
}

/// DIDComm message type of the vault's answer to a password request.
pub open spec fn response_type_spec() -> Seq<char> {
    "https://demo.example/password/response"@
}

/// DIDComm message type of the vault's answer to a password request.
pub fn response_type() -> (s: &'static str)
    ensures
        s@ == response_type_spec(),
{
    "https://demo.example/password/response"
}

/// Prefix of the mediator's own message-pickup protocol messages.
pub open spec fn pickup_prefix_spec() -> Seq<char> {
    "https://didcomm.org/messagepickup"@
}

/// Prefix of the mediator's own message-pickup protocol messages.
pub fn pickup_prefix() -> (s: &'static str)
    ensures
        s@ == pickup_prefix_spec(),
{
    "https://didcomm.org/messagepickup"
}

/// DIDComm message type of a request for the keys the vault holds.
pub open spec fn list_request_type_spec() -> Seq<char> {
    "https://demo.example/password/list-keys-request"@
}

/// DIDComm message type of a request for the keys the vault holds.
pub fn list_request_type() -> (s: &'static str)
    ensures
        s@ == list_request_type_spec(),
{
    "https://demo.example/password/list-keys-request"
}

/// DIDComm message type of the vault's list of keys.
pub open spec fn key_list_type_spec() -> Seq<char> {
    "https://demo.example/password/list-keys-response"@
}

/// DIDComm message type of the vault's list of keys.
pub fn key_list_type() -> (s: &'static str)
    ensures
        s@ == key_list_type_spec(),
{
    "https://demo.example/password/list-keys-response"
}

/// Seconds for which a message stays valid after it is created.
pub const MESSAGE_LIFETIME_SECS: u64 = 10;

/// Body of a password request: the key of the password wanted.
#[derive(Debug, Clone)]
pub struct PasswordRequest {
    pub key: String,
}

impl View for PasswordRequest {
    type V = Seq<char>;

    open spec fn view(&self) -> Seq<char> {
        self.key@
    }
}

/// Body of the vault's answer to a password request.
#[derive(Debug, Clone)]
pub enum PasswordResponse {
    /// Password was not found for the requested key
    NotFound,
    /// Password was found for the requested key
    Found { key: String, password: String },
}

/// The contents of a `PasswordResponse`.
pub enum ResponseModel {
    NotFound,
    Found { key: Seq<char>, password: Seq<char> },
}

impl View for PasswordResponse {
    type V = ResponseModel;

    open spec fn view(&self) -> ResponseModel {
        match self {
            PasswordResponse::NotFound => ResponseModel::NotFound,
            PasswordResponse::Found { key, password } => ResponseModel::Found {
                key: key@,
                password: password@,
            },
        }
    }
}

/// The body that a DIDComm message of this system carries.
#[derive(Debug, Clone)]
pub enum MessageBody {
    Request(PasswordRequest),
    Response(PasswordResponse),
    /// A request for the keys the vault holds; it carries nothing.
    ListKeysRequest,
    /// The keys the vault holds.
    KeyList(Vec<String>),
}

/// A DIDComm message before it is packed and sent.
#[derive(Debug, Clone)]
pub struct OutgoingMessage {
    pub id: String,
    pub type_: String,
    pub body: MessageBody,
    pub from: String,
    pub to: String,
    pub created_time: u64,
    pub expires_time: u64,
    /// The thread this message answers, if any.
    pub thid: Option<String>,
}

/// A lower-case hexadecimal digit.
pub open spec fn is_lower_hex(c: char) -> bool {
    ('0' <= c && c <= '9') || ('a' <= c && c <= 'f')
}

/// The hyphenated lower-case text of a random (version 4, RFC 4122 variant)
/// UUID, such as `67e55044-10b1-426f-9247-bb680e5fe0c8`.
pub open spec fn is_uuid_v4_text(s: Seq<char>) -> bool {
    &&& s.len() == 36
    &&& forall|i: int|
        #![trigger s[i]]
        0 <= i < 36 ==> if i == 8 || i == 13 || i == 18 || i == 23 {
            s[i] == '-'
        } else {
            is_lower_hex(s[i])
        }
    &&& s[14] == '4'
    &&& (s[19] == '8' || s[19] == '9' || s[19] == 'a' || s[19] == 'b')
}

/// Calls `uuid::Uuid::new_v4` and renders the result with `to_string`.
/// Claimed: the text is a hyphenated lower-case UUID with version digit 4
/// and an RFC 4122 variant digit, as `new_v4` masks those bits and the
/// `Display` impl writes the hyphenated lower-case form. The random digits
/// are left unsaid; two calls may give anything.
#[verifier::external_body]
fn new_message_id() -> (id: String)
    ensures
        is_uuid_v4_text(id@),
{
    uuid::Uuid::new_v4().to_string()
}

/// A fresh message identifier.
pub fn fresh_message_id() -> (id: String)
    ensures
        is_uuid_v4_text(id@),
{
    new_message_id()
}

/// The request that asks the vault at `service_did` for the password under
/// `key`, sent by `our_did` at `now`.
pub fn password_request_message(our_did: &String, service_did: &String, key: &String, now: u64) -> (m: OutgoingMessage)
    requires
        now <= u64::MAX - MESSAGE_LIFETIME_SECS,
    ensures
        is_uuid_v4_text(m.id@),
        m.type_@ == request_type_spec(),
        m.body matches MessageBody::Request(r) && r@ == key@,
        m.from@ == our_did@,
        m.to@ == service_did@,
        m.created_time == now,
        m.expires_time == now + MESSAGE_LIFETIME_SECS,
        m.thid is None,
{
    OutgoingMessage {
        id: new_message_id(),
        type_: String::from_str(request_type()),
        body: MessageBody::Request(PasswordRequest { key: key.clone() }),
        from: our_did.clone(),
        to: service_did.clone(),
        created_time: now,
        expires_time: now + MESSAGE_LIFETIME_SECS,
        thid: None,
    }
}

/// The request that asks the vault at `service_did` for the keys it holds,
/// sent by `our_did` at `now`.
pub fn list_keys_request_message(our_did: &String, service_did: &String, now: u64) -> (m: OutgoingMessage)
    requires
        now <= u64::MAX - MESSAGE_LIFETIME_SECS,
    ensures
        is_uuid_v4_text(m.id@),
        m.type_@ == list_request_type_spec(),
        m.body is ListKeysRequest,
        m.from@ == our_did@,
        m.to@ == service_did@,
        m.created_time == now,
        m.expires_time == now + MESSAGE_LIFETIME_SECS,
        m.thid is None,
{
    OutgoingMessage {
        id: new_message_id(),
        type_: String::from_str(list_request_type()),
        body: MessageBody::ListKeysRequest,
        from: our_did.clone(),
        to: service_did.clone(),
        created_time: now,
        expires_time: now + MESSAGE_LIFETIME_SECS,
        thid: None,
    }
}

/// Why a reply to a request could not be sent.
#[derive(Debug, Clone, Copy, PartialEq, Eq)]
pub enum AddressError {
    /// The request did not say who sent it.
    MissingSender,
}

/// How an `AddressError` reads.
pub fn address_error_text(e: AddressError) -> (t: String)
    ensures
        t@ == "Message missing 'from' field"@,
{
    match e {
        AddressError::MissingSender => String::from_str("Message missing 'from' field"),
    }
}

/// The answer to the request `incoming_id` from `incoming_from`, of type
/// `type_` and with `body`, sent by `our_did` at `now`: addressed back to the
/// sender and threaded under the request.
fn reply_message(
    our_did: &String,
    incoming_from: &Option<String>,
    incoming_id: &String,
    type_: &str,
    body: MessageBody,
    now: u64,
) -> (r: Result<OutgoingMessage, AddressError>)
    requires
        incoming_from is Some ==> now <= u64::MAX - MESSAGE_LIFETIME_SECS,
    ensures
        incoming_from is None <==> r == Err::<OutgoingMessage, AddressError>(
            AddressError::MissingSender,
        ),
        r matches Ok(m) ==> {
            &&& is_uuid_v4_text(m.id@)
            &&& m.type_@ == type_@
            &&& m.body == body
            &&& m.from@ == our_did@
            &&& m.to@ == incoming_from->0@
            &&& m.created_time == now
            &&& m.expires_time == now + MESSAGE_LIFETIME_SECS
            &&& m.thid matches Some(t) && t@ == incoming_id@
        },
{
    let to = match incoming_from {
        Some(f) => f.clone(),
        None => {
            return Err(AddressError::MissingSender);
        },
    };
    Ok(
        OutgoingMessage {
            id: new_message_id(),
            type_: String::from_str(type_),
            body,
            from: our_did.clone(),
            to,
            created_time: now,
            expires_time: now + MESSAGE_LIFETIME_SECS,
            thid: Some(incoming_id.clone()),
        },
    )
}

/// The vault's answer `response` to the request `incoming_id` from
/// `incoming_from`, sent by `our_did` at `now`: addressed back to the sender
/// and threaded under the request.
pub fn password_response_message(
    our_did: &String,
    incoming_from: &Option<String>,
    incoming_id: &String,
    response: PasswordResponse,
    now: u64,
) -> (r: Result<OutgoingMessage, AddressError>)
    requires
        incoming_from is Some ==> now <= u64::MAX - MESSAGE_LIFETIME_SECS,
    ensures
        incoming_from is None <==> r == Err::<OutgoingMessage, AddressError>(
            AddressError::MissingSender,
        ),
        r matches Ok(m) ==> {
            &&& is_uuid_v4_text(m.id@)
            &&& m.type_@ == response_type_spec()
            &&& m.body matches MessageBody::Response(b) && b@ == response@
            &&& m.from@ == our_did@
            &&& m.to@ == incoming_from->0@
            &&& m.created_time == now
            &&& m.expires_time == now + MESSAGE_LIFETIME_SECS
            &&& m.thid matches Some(t) && t@ == incoming_id@
        },
{
    reply_message(
        our_did,
        incoming_from,
        incoming_id,
        response_type(),
        MessageBody::Response(response),
        now,
    )
}

/// The vault's list of `keys`, answering the request `incoming_id` from
/// `incoming_from`, sent by `our_did` at `now`: addressed back to the sender
/// and threaded under the request.
pub fn key_list_response_message(
    our_did: &String,
    incoming_from: &Option<String>,
    incoming_id: &String,
    keys: Vec<String>,
    now: u64,
) -> (r: Result<OutgoingMessage, AddressError>)
    requires
        incoming_from is Some ==> now <= u64::MAX - MESSAGE_LIFETIME_SECS,
    ensures
        incoming_from is None <==> r == Err::<OutgoingMessage, AddressError>(
            AddressError::MissingSender,
        ),
        r matches Ok(m) ==> {
            &&& is_uuid_v4_text(m.id@)
            &&& m.type_@ == key_list_type_spec()
            &&& m.body matches MessageBody::KeyList(ks) && ks@ == keys@
            &&& m.from@ == our_did@
            &&& m.to@ == incoming_from->0@
            &&& m.created_time == now
            &&& m.expires_time == now + MESSAGE_LIFETIME_SECS
            &&& m.thid matches Some(t) && t@ == incoming_id@
        },
{
    reply_message(
        our_did,
        incoming_from,
        incoming_id,
        key_list_type(),
        MessageBody::KeyList(keys),
        now,
    )
}

/// What came back from the vault after a request was sent: a DIDComm
/// message, with its body read as a `PasswordResponse` or the reason it
/// could not be, or something that is not a message.
#[derive(Debug)]
pub enum Reply {
    Message { type_: String, body: Result<PasswordResponse, String> },
    NotAMessage,
}

/// The contents of a `Reply`.
pub enum ReplyModel {
    Message { type_: Seq<char>, body: Result<ResponseModel, Seq<char>> },
    NotAMessage,
}

impl View for Reply {
    type V = ReplyModel;

    open spec fn view(&self) -> ReplyModel {
        match self {
            Reply::Message { type_, body } => ReplyModel::Message {
                type_: type_@,
                body: match body {
                    Ok(b) => Ok(b@),
                    Err(e) => Err(e@),
                },
            },
            Reply::NotAMessage => ReplyModel::NotAMessage,
        }
    }
}

/// Why a reply from the vault could not be read.
#[derive(Debug, Clone)]
pub enum ReplyError {
    /// The reply was a message of another type (carried here).
    UnexpectedType(String),
    /// The reply had the response type but its body was not a response
    /// (the reason is carried here).
    MalformedBody(String),
    /// The reply was not a DIDComm message.
    NotAMessage,
}

/// The contents of a `ReplyError`.
pub enum ReplyErrorModel {
    UnexpectedType(Seq<char>),
    MalformedBody(Seq<char>),
    NotAMessage,
}

impl View for ReplyError {
    type V = ReplyErrorModel;

    open spec fn view(&self) -> ReplyErrorModel {
        match self {
            ReplyError::UnexpectedType(t) => ReplyErrorModel::UnexpectedType(t@),
            ReplyError::MalformedBody(e) => ReplyErrorModel::MalformedBody(e@),
            ReplyError::NotAMessage => ReplyErrorModel::NotAMessage,
        }
    }
}

/// What a client learns from a reply: the password, `None` when the vault
/// has no password under the key, or why the reply could not be read.
pub open spec fn interpret_reply_spec(reply: ReplyModel) -> Result<
    Option<Seq<char>>,
    ReplyErrorModel,
> {
    match reply {
        ReplyModel::Message { type_, body } => if has_prefix(type_, response_type_spec()) {
            match body {
                Ok(ResponseModel::NotFound) => Ok(None),
                Ok(ResponseModel::Found { key, password }) => Ok(Some(password)),
                Err(e) => Err(ReplyErrorModel::MalformedBody(e)),
            }
        } else {
            Err(ReplyErrorModel::UnexpectedType(type_))
        },
        ReplyModel::NotAMessage => Err(ReplyErrorModel::NotAMessage),
    }
}

/// The contents of a password lookup's result.
pub open spec fn lookup_result_view(r: Result<Option<String>, ReplyError>) -> Result<
    Option<Seq<char>>,
    ReplyErrorModel,
> {
    match r {
        Ok(Some(p)) => Ok(Some(p@)),
        Ok(None) => Ok(None),
        Err(e) => Err(e@),
    }
}

/// Reads the vault's reply to a password request.
pub fn interpret_reply(reply: Reply) -> (r: Result<Option<String>, ReplyError>)
    ensures
        lookup_result_view(r) == interpret_reply_spec(reply@),
{
    match reply {
        Reply::Message { type_, body } => {
            if starts_with(type_.as_str(), response_type()) {
                match body {
                    Ok(PasswordResponse::NotFound) => Ok(None),
                    Ok(PasswordResponse::Found { key: _, password }) => Ok(Some(password)),
                    Err(e) => Err(ReplyError::MalformedBody(e)),
                }
            } else {
                Err(ReplyError::UnexpectedType(type_))
            }
        },
        Reply::NotAMessage => Err(ReplyError::NotAMessage),
    }
}

/// What came back from the vault after a request for its keys was sent: a
/// DIDComm message, with its body read as a list of keys or the reason it
/// could not be, or something that is not a message.
#[derive(Debug)]
pub enum KeyListReply {
    Message { type_: String, body: Result<Vec<String>, String> },
    NotAMessage,
}

/// The contents of a `KeyListReply`.
pub enum KeyListReplyModel {
    Message { type_: Seq<char>, body: Result<Seq<Seq<char>>, Seq<char>> },
    NotAMessage,
}

impl View for KeyListReply {
    type V = KeyListReplyModel;

    open spec fn view(&self) -> KeyListReplyModel {
        match self {
            KeyListReply::Message { type_, body } => KeyListReplyModel::Message {
                type_: type_@,
                body: match body {
                    Ok(ks) => Ok(texts_view(ks@)),
                    Err(e) => Err(e@),
                },
            },
            KeyListReply::NotAMessage => KeyListReplyModel::NotAMessage,
        }
    }
}

/// What a client learns from a reply to a request for the vault's keys: the
/// keys, or why the reply could not be read.
pub open spec fn interpret_key_list_spec(reply: KeyListReplyModel) -> Result<
    Seq<Seq<char>>,
    ReplyErrorModel,
> {
    match reply {
        KeyListReplyModel::Message { type_, body } => if has_prefix(type_, key_list_type_spec()) {
            match body {
                Ok(keys) => Ok(keys),
                Err(e) => Err(ReplyErrorModel::MalformedBody(e)),
            }
        } else {
            Err(ReplyErrorModel::UnexpectedType(type_))
        },
        KeyListReplyModel::NotAMessage => Err(ReplyErrorModel::NotAMessage),
    }
}

/// The contents of a key listing's result.
pub open spec fn key_list_result_view(r: Result<Vec<String>, ReplyError>) -> Result<
    Seq<Seq<char>>,
    ReplyErrorModel,
> {
    match r {
        Ok(keys) => Ok(texts_view(keys@)),
        Err(e) => Err(e@),
    }
}

/// Reads the vault's reply to a request for its keys.
pub fn interpret_key_list_reply(reply: KeyListReply) -> (r: Result<Vec<String>, ReplyError>)
    ensures
        key_list_result_view(r) == interpret_key_list_spec(reply@),
{
    match reply {
        KeyListReply::Message { type_, body } => {
            if starts_with(type_.as_str(), key_list_type()) {
                match body {
                    Ok(keys) => Ok(keys),
                    Err(e) => Err(ReplyError::MalformedBody(e)),
                }
            } else {
                Err(ReplyError::UnexpectedType(type_))
            }
        },
        KeyListReply::NotAMessage => Err(ReplyError::NotAMessage),
    }
}

} // verus!
