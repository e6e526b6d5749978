//! What the server does with the requests of a client.
use vstd::prelude::*;
use vstd::string::*;
use super::{KnownClients, WeakClient, CheckIfDeadError, GetId, has_id, without_first, exit_change};
use crate::comms::network::NetworkChanges;
use crate::comms::network::api::{GenericMessage, MessageType, Status};
use crate::json::Json;

verus! {

/// Why a client could not join.
#[derive(Debug)]
pub enum JoinError {
    BadJSON,
    IOError(std::io::Error),
}

impl JoinError {
    /// The text shown for the error: a fixed text for a bad request, the
    /// text of the I/O error otherwise.
    pub fn to_string(&self) -> (s: String)
        ensures
            self matches JoinError::BadJSON ==> s@
                == "Request wasn't a JSON or has a bad structure"@,
    {
        match self {
            JoinError::BadJSON => String::from_str("Request wasn't a JSON or has a bad structure"),
            JoinError::IOError(e) => e.to_string(),
        }
    }
}

/// Whether `m` is the answer to a request with the given status and error
/// text.
pub open spec fn is_result(m: GenericMessage, status: Status, error: Seq<char>) -> bool {
    &&& m.response_type == MessageType::Result
    &&& m.status == status
    &&& m.error matches Some(e) && e@ == error
}

/// The answer to a request that the server does not take: an error that
/// says `Wrong request`.
pub fn wrong_request() -> (m: GenericMessage)
    ensures
        is_result(m, Status::Error, "Wrong request"@),
{
    GenericMessage::result(Status::Error, Some("Wrong request"))
}

/// Handles a client that asks to leave: it is removed as
/// `KnownClients::remove` removes it. The answers to write come back in
/// order: when the client was not registered, an error that says `Client not
/// found` and then, in every case, an `ok`.
pub fn exit_network(
    clients: &mut KnownClients,
    client: &WeakClient,
    log: &mut NetworkChanges,
) -> (res: (bool, Vec<GenericMessage>))
    ensures
        res.0 == has_id(old(clients)@, client.spec_id()),
        final(clients)@ == without_first(old(clients)@, client.spec_id()),
        final(clients).next_id_value() == old(clients).next_id_value(),
        final(log)@ == if res.0 {
            old(log)@.push(exit_change())
        } else {
            old(log)@
        },
        res.0 ==> res.1@.len() == 1 && is_result(res.1@[0], Status::Success, "null"@),
        !res.0 ==> res.1@.len() == 2 && is_result(res.1@[0], Status::Error, "Client not found"@)
            && is_result(res.1@[1], Status::Success, "null"@),
{
    let removed = clients.remove(client, log);
    let mut responses: Vec<GenericMessage> = Vec::new();
    if !removed {
        responses.push(GenericMessage::result(Status::Error, Some("Client not found")));
    }
    responses.push(GenericMessage::result(Status::Success, None));
    (removed, responses)
}

/// Handles a client reported dead by another: `check` is what asking it
/// gave. Only where that failed is the client removed, as
/// `KnownClients::remove` removes it. The one answer is an `ok`.
pub fn found_dead_client(
    clients: &mut KnownClients,
    reported: &WeakClient,
    check: &Result<bool, CheckIfDeadError>,
    log: &mut NetworkChanges,
) -> (res: (bool, GenericMessage))
    ensures
        check is Ok ==> !res.0 && final(clients)@ == old(clients)@ && final(log)@ == old(log)@,
        check is Err ==> {
            &&& res.0 == has_id(old(clients)@, reported.spec_id())
            &&& final(clients)@ == without_first(old(clients)@, reported.spec_id())
            &&& final(log)@ == if res.0 {
                old(log)@.push(exit_change())
            } else {
                old(log)@
            }
        },
        final(clients).next_id_value() == old(clients).next_id_value(),
        is_result(res.1, Status::Success, "null"@),
{
    let removed = match check {
        Err(_) => clients.remove(reported, log),
        Ok(_) => false,
    };
    (removed, GenericMessage::result(Status::Success, None))
}

/// The name under which a request to join asks to be known: the string at
/// `client.name`.
pub open spec fn client_name_of(request: Json) -> Option<Seq<char>> {
    match request.field("client"@) {
        Some(client) => match client.field("name"@) {
            Some(name) => name.text(),
            None => None,
        },
        None => None,
    }
}

/// A request to join names its client by the string at `client.name`,
/// whatever that string is, and by nothing else: where the request has a
/// `client` member with a `name` member that is a string, that string is the
/// name; in every other request there is none.
pub proof fn lemma_join_name_is_the_client_name(request: Json, client: Json, name: Json, text: Seq<char>)
    ensures
        request.field("client"@) == Some(client) && client.field("name"@) == Some(name)
            && name.text() == Some(text) ==> client_name_of(request) == Some(text),
        client_name_of(request) is Some <==> (request.field("client"@) matches Some(c) && c.field(
            "name"@,
        ) matches Some(n) && n.text() is Some),
{
}

/// Reads a request to join: the name the client asks to be known under, or,
/// where the request has none, the error to answer with, which says
/// `Client's name not found`.
pub fn join_network(request: &Json) -> (res: Result<String, GenericMessage>)
    ensures
        match res {
            Ok(name) => client_name_of(*request) == Some(name@),
            Err(m) => client_name_of(*request) is None && is_result(
                m,
                Status::Error,
                "Client's name not found"@,
            ),
        },
{
    let client_key: &'static str = "client";
    let name_key: &'static str = "name";
    proof {
        reveal_strlit("client");
        reveal_strlit("name");
    }
    let name = match request.get(client_key) {
        Some(client) => match client.get(name_key) {
            Some(value) => value.as_str(),
            None => None,
        },
        None => None,
    };
    match name {
        Some(n) => Ok(String::from_str(n)),
        None => Err(GenericMessage::result(Status::Error, Some("Client's name not found"))),
    }
}

} // verus!
