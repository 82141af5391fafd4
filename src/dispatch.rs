//! Classification of an outgoing command by the marker that its text holds.
use vstd::prelude::*;
use vstd::string::StringSliceAdditionalSpecFns;
use crate::http::{make_request, method_of, object_text, HttpCall, RequestError};
use crate::records::{Chat, Customer, Message, Request};
use crate::store::{chat_upsert, customer_upsert, message_upsert, upsert_chats, upsert_customer, upsert_messages, Upsert, UpsertView};
use crate::text::{contains, contains_bytes};

verus! {

/// The four kinds of outgoing command.
#[derive(Debug, Clone, Copy, PartialEq, Eq, Structural)]
pub enum OutgoingKind {
    UpsertChat,
    UpsertCustomer,
    UpsertMessage,
    SendRequest,
}

/// The marker of each kind, as UTF-8 bytes.
pub open spec fn marker(k: OutgoingKind) -> Seq<u8> {
    match k {
        OutgoingKind::UpsertChat => "upsertChat".spec_bytes(),
        OutgoingKind::UpsertCustomer => "upsertCustomer".spec_bytes(),
        OutgoingKind::UpsertMessage => "upsertMessage".spec_bytes(),
        OutgoingKind::SendRequest => "sendRequest".spec_bytes(),
    }
}

/// The kind of a payload: the first marker, in the order upsertChat,
/// upsertCustomer, upsertMessage, sendRequest, that the payload contains
/// (case-sensitive); none when it contains none of them.
pub open spec fn classified(data: Seq<u8>) -> Option<OutgoingKind> {
    if contains_bytes(data, marker(OutgoingKind::UpsertChat)) {
        Some(OutgoingKind::UpsertChat)
    } else if contains_bytes(data, marker(OutgoingKind::UpsertCustomer)) {
        Some(OutgoingKind::UpsertCustomer)
    } else if contains_bytes(data, marker(OutgoingKind::UpsertMessage)) {
        Some(OutgoingKind::UpsertMessage)
    } else if contains_bytes(data, marker(OutgoingKind::SendRequest)) {
        Some(OutgoingKind::SendRequest)
    } else {
        None
    }
}

/// Classifies a raw outgoing payload. The markers are ASCII, and decoding
/// the payload as UTF-8 (invalid sequences replaced) keeps every ASCII byte
/// where it is, so the markers are sought in the bytes themselves.
pub fn classify_outgoing(data: &[u8]) -> (r: Option<OutgoingKind>)
    ensures
        r == classified(data@),
{
    if contains(data, "upsertChat".as_bytes()) {
        Some(OutgoingKind::UpsertChat)
    } else if contains(data, "upsertCustomer".as_bytes()) {
        Some(OutgoingKind::UpsertCustomer)
    } else if contains(data, "upsertMessage".as_bytes()) {
        Some(OutgoingKind::UpsertMessage)
    } else if contains(data, "sendRequest".as_bytes()) {
        Some(OutgoingKind::SendRequest)
    } else {
        None
    }
}

/// An outgoing command, read from a payload of its kind.
pub enum OutgoingCommand {
    UpsertChat(Chat),
    UpsertCustomer(Customer),
    UpsertMessage(Message),
    SendRequest(Request),
}

/// Where an outgoing command goes: a write to the relational store, or an
/// HTTP call.
pub enum OutgoingAction {
    Store(Upsert),
    Send(HttpCall),
}

/// The upsert a store command asks for.
pub open spec fn upsert_of(c: OutgoingCommand) -> UpsertView {
    match c {
        OutgoingCommand::UpsertChat(x) => chat_upsert(x),
        OutgoingCommand::UpsertCustomer(x) => customer_upsert(x),
        OutgoingCommand::UpsertMessage(x) => message_upsert(x),
        OutgoingCommand::SendRequest(_) => arbitrary(),
    }
}

/// Routes a command: chats, customers and messages to the relational store
/// (with the upsert of the record), requests to the HTTP executor (failing
/// with `UnsupportedMethod` for a method it does not know).
pub fn route_outgoing(cmd: OutgoingCommand) -> (r: Result<OutgoingAction, RequestError>)
    ensures
        match cmd {
            OutgoingCommand::SendRequest(req) => match r {
                Ok(OutgoingAction::Send(call)) => {
                    &&& method_of(req.method@) is Some
                    &&& call.method == method_of(req.method@)->0
                    &&& call.url@ == req.url@
                    &&& call.headers@ == req.headers@
                    &&& call.body is Some <==> req.body is Some
                    &&& req.body is Some ==> call.body->0@ == object_text(req.body->0@)
                },
                Ok(OutgoingAction::Store(_)) => false,
                Err(e) => method_of(req.method@) is None && e == RequestError::UnsupportedMethod,
            },
            _ => match r {
                Ok(OutgoingAction::Store(u)) => u@ == upsert_of(cmd),
                _ => false,
            },
        },
{
    match cmd {
        OutgoingCommand::UpsertChat(chat) => Ok(OutgoingAction::Store(upsert_chats(&chat))),
        OutgoingCommand::UpsertCustomer(customer) => Ok(OutgoingAction::Store(upsert_customer(&customer))),
        OutgoingCommand::UpsertMessage(message) => Ok(OutgoingAction::Store(upsert_messages(&message))),
        OutgoingCommand::SendRequest(request) => match make_request(request) {
            Ok(call) => Ok(OutgoingAction::Send(call)),
            Err(e) => Err(e),
        },
    }
}

/// A payload that holds the upsertChat marker is an upsertChat command,
/// whatever other markers it holds: the declared order decides.
pub proof fn lemma_upsert_chat_first(data: Seq<u8>)
    requires
        contains_bytes(data, marker(OutgoingKind::UpsertChat)),
    ensures
        classified(data) == Some(OutgoingKind::UpsertChat),
{
}

/// A payload is a sendRequest command exactly when it holds that marker and
/// none of the three that come before it.
pub proof fn lemma_send_request_last(data: Seq<u8>)
    ensures
        classified(data) == Some(OutgoingKind::SendRequest) <==> {
            &&& contains_bytes(data, marker(OutgoingKind::SendRequest))
            &&& !contains_bytes(data, marker(OutgoingKind::UpsertChat))
            &&& !contains_bytes(data, marker(OutgoingKind::UpsertCustomer))
            &&& !contains_bytes(data, marker(OutgoingKind::UpsertMessage))
        },
{
}

} // verus!
