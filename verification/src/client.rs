//! The command-line client's reading of the vault's reply.

use vstd::prelude::*;
use crate::protocol::{Reply, ReplyError, ReplyErrorModel, ReplyModel, interpret_reply, interpret_reply_spec, lookup_result_view};
use crate::protocol::{PasswordResponse, ResponseModel, response_type_spec};
use crate::text::{concat2, has_prefix};
use crate::vault::{answer_spec, lemma_message_types_distinct};

verus! {

/// How the client reports a reply from the vault that it could not read.
pub open spec fn client_reply_error_text_spec(e: ReplyErrorModel) -> Seq<char> {
    match e {
        ReplyErrorModel::UnexpectedType(t) => "Incorrect message type found: "@ + t,
        ReplyErrorModel::MalformedBody(reason) => reason,
        ReplyErrorModel::NotAMessage => "expected DIDComm message respoonse, instead we got something else"@,
    }
}

/// How the client reports a reply from the vault that it could not read.
pub fn client_reply_error_text(e: &ReplyError) -> (t: String)
    ensures
        t@ == client_reply_error_text_spec(e@),
{
    match e {
        ReplyError::UnexpectedType(t) => concat2("Incorrect message type found: ", t.as_str()),
        ReplyError::MalformedBody(reason) => reason.clone(),
        ReplyError::NotAMessage => String::from_str(
            "expected DIDComm message respoonse, instead we got something else",
        ),
    }
}

/// What the client learns from the vault's reply: the password, `None`
/// when the vault has none under the key, or why the reply could not be read.
pub open spec fn read_vault_reply_spec(reply: ReplyModel) -> Result<Option<Seq<char>>, Seq<char>> {
    match interpret_reply_spec(reply) {
        Ok(p) => Ok(p),
        Err(e) => Err(client_reply_error_text_spec(e)),
    }
}

/// What the client learns from the vault's reply.
pub fn read_vault_reply(reply: Reply) -> (r: Result<Option<String>, String>)
    ensures
        crate::bridge::outcome_view(r) == read_vault_reply_spec(reply@),
{
    let read = interpret_reply(reply);
    proof {
        assert(lookup_result_view(read) == interpret_reply_spec(reply@));
    }
    match read {
        Ok(p) => Ok(p),
        Err(e) => Err(client_reply_error_text(&e)),
    }
}

/// A reply of the response type is read for exactly what it says: a
/// not-found answer as "no password" and a found answer as its password,
/// unchanged, whatever the password and whatever follows the type's prefix.
pub proof fn law_client_reads_answer_as_sent(type_: Seq<char>, response: ResponseModel)
    requires
        has_prefix(type_, response_type_spec()),
    ensures
        read_vault_reply_spec(ReplyModel::Message { type_, body: Ok(response) }) == match response {
            ResponseModel::NotFound => Ok::<Option<Seq<char>>, Seq<char>>(None),
            ResponseModel::Found { key, password } => Ok(Some(password)),
        },
{
}

/// The client that asks the vault for `key` reports the password the vault
/// stores under `key`, or that it stores none.
pub proof fn law_client_reports_stored_password(store: Map<Seq<char>, Seq<char>>, key: Seq<char>)
    ensures
        read_vault_reply_spec(
            ReplyModel::Message { type_: response_type_spec(), body: Ok(answer_spec(store, key)) },
        ) == if store.contains_key(key) {
            Ok::<Option<Seq<char>>, Seq<char>>(Some(store[key]))
        } else {
            Ok(None)
        },
{
    lemma_message_types_distinct();
}

} // verus!
