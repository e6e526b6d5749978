//! The decisions of the tasks that serve the clients.
use vstd::prelude::*;
use vstd::string::*;
use crate::comms::network::api::{GenericMessage, MessageError, MessageType, Status};
use crate::json::Json;

verus! {

/// What the server does with the first request of a connection.
#[derive(Debug)]
pub enum NewRequestRoute {
    /// The client asks to join: the request follows.
    Join(Json),
    /// The request could not be read.
    Unreadable(MessageError),
    /// The request is of a type a new client may not send.
    WrongType(MessageType),
}

/// Routes the first request of a connection: only a request to join is
/// taken, every other one is answered as a wrong request.
pub fn route_new_request(request: Result<(MessageType, Json), MessageError>) -> (route: NewRequestRoute)
    ensures
        match request {
            Ok((MessageType::JoinNetwork, v)) => route == NewRequestRoute::Join(v),
            Ok((t, _)) => route == NewRequestRoute::WrongType(t),
            Err(e) => route == NewRequestRoute::Unreadable(e),
        },
{
    match request {
        Ok((MessageType::JoinNetwork, value)) => NewRequestRoute::Join(value),
        Ok((other, _)) => NewRequestRoute::WrongType(other),
        Err(e) => NewRequestRoute::Unreadable(e),
    }
}

/// What the handler of a registered client does with one of its requests.
#[derive(Debug)]
pub enum RegisteredRoute {
    GiveNetworkState,
    ExitNetwork,
    /// Another client is reported dead: the request follows.
    FoundDeadClient(Json),
    /// The request could not be read.
    Unreadable(MessageError),
    /// The request is of a type a registered client may not send.
    WrongType(MessageType),
}

/// Routes a request of a registered client: the network's state, leaving,
/// and reports of dead clients are taken; every other request is answered as
/// a wrong request.
pub fn route_registered_request(request: Result<(MessageType, Json), MessageError>) -> (route: RegisteredRoute)
    ensures
        match request {
            Ok((MessageType::GetNetworkState, _)) => route == RegisteredRoute::GiveNetworkState,
            Ok((MessageType::ExitNetwork, _)) => route == RegisteredRoute::ExitNetwork,
            Ok((MessageType::FoundDeadClient, v)) => route == RegisteredRoute::FoundDeadClient(v),
            Ok((t, _)) => route == RegisteredRoute::WrongType(t),
            Err(e) => route == RegisteredRoute::Unreadable(e),
        },
{
    match request {
        Ok((MessageType::GetNetworkState, _)) => RegisteredRoute::GiveNetworkState,
        Ok((MessageType::ExitNetwork, _)) => RegisteredRoute::ExitNetwork,
        Ok((MessageType::FoundDeadClient, value)) => RegisteredRoute::FoundDeadClient(value),
        Ok((other, _)) => RegisteredRoute::WrongType(other),
        Err(e) => RegisteredRoute::Unreadable(e),
    }
}

/// What a handler did for a request of the server.
pub enum ServerRequestOutcome {
    /// It sent the client an update; whether that went through.
    Updated(bool),
    /// It checked the client; what the check answered.
    Checked(bool),
}

/// The answer a handler sends back to the server: for an update, whether it
/// went through; for a check, the opposite of what the check answered, so
/// that `true` means the client is dead.
pub fn server_request_reply(outcome: ServerRequestOutcome) -> (reply: bool)
    ensures
        match outcome {
            ServerRequestOutcome::Updated(ok) => reply == ok,
            ServerRequestOutcome::Checked(answer) => reply == !answer,
        },
{
    match outcome {
        ServerRequestOutcome::Updated(ok) => ok,
        ServerRequestOutcome::Checked(answer) => !answer,
    }
}

/// What a check of a client answers, from the client's reply read as a
/// message (nothing where writing, reading or parsing failed): `false` for
/// no reply and for a reply of type `StillAlive`, `true` for any other reply.
pub fn vibe_check_answer(reply: Option<&GenericMessage>) -> (answer: bool)
    ensures
        answer == (reply matches Some(m) && m.response_type != MessageType::StillAlive),
{
    match reply {
        None => false,
        Some(m) => match m.response_type {
            MessageType::StillAlive => false,
            _ => true,
        },
    }
}

/// The request that checks a client: a `VibeCheck` message with status
/// `ok`.
pub fn vibe_check_request() -> (m: GenericMessage)
    ensures
        m.response_type == MessageType::VibeCheck,
        m.status == Status::Success,
        m.error matches Some(e) && e@ == "null"@,
{
    GenericMessage::new(MessageType::VibeCheck, Status::Success, None)
}

/// What to report of a client's reply to an update, read as a message
/// (nothing where it could not be parsed): a complaint where it could not be
/// parsed or has the status `error`, nothing otherwise.
pub open spec fn update_report_of(reply: Option<GenericMessage>) -> Option<Seq<char>> {
    match reply {
        None => Some("Error while updating client: cannot parse client's response"@),
        Some(m) => if m.status == Status::Error {
            match m.error {
                Some(e) => Some("Error while updating client: "@ + e@),
                None => Some(
                    "Error while updating client, but no error description was given"@,
                ),
            }
        } else {
            None
        },
    }
}

/// The report on a client's reply to an update.
pub fn update_client_report(reply: Option<&GenericMessage>) -> (report: Option<String>)
    ensures
        match report {
            Some(r) => update_report_of(match reply {
                Some(m) => Some(*m),
                None => None,
            }) == Some(r@),
            None => update_report_of(match reply {
                Some(m) => Some(*m),
                None => None,
            }) is None,
        },
{
    match reply {
        None => Some(String::from_str("Error while updating client: cannot parse client's response")),
        Some(m) => match m.status {
            Status::Error => match &m.error {
                Some(e) => {
                    let mut r = String::from_str("Error while updating client: ");
                    r.append(e.as_str());
                    Some(r)
                },
                None => Some(
                    String::from_str(
                        "Error while updating client, but no error description was given",
                    ),
                ),
            },
            _ => None,
        },
    }
}

} // verus!
