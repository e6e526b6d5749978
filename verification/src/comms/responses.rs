//! The first form of the protocol's messages, with five request types.
use vstd::prelude::*;
use vstd::string::*;
use crate::comms::client_data::Client;
use crate::comms::network::api::{error_string, error_text_or_null};
use crate::json::{Json, json_of_text, parse_json};
use crate::text::same_text;

verus! {

/// The purpose of a message.
#[derive(Debug, Clone, Copy, PartialEq, Eq, Structural)]
pub enum RequestType {
    JoinNetwork,
    Result,
    StillAlive,
    VibeCheck,
    NetworkChange,
}

impl RequestType {
    /// The name by which a request names its type: the variant's own name.
    pub open spec fn name(self) -> Seq<char> {
        match self {
            RequestType::JoinNetwork => "JoinNetwork"@,
            RequestType::Result => "Result"@,
            RequestType::StillAlive => "StillAlive"@,
            RequestType::VibeCheck => "VibeCheck"@,
            RequestType::NetworkChange => "NetworkChange"@,
        }
    }

    /// The type named `s`, matched exactly.
    pub fn from_name(s: &str) -> (t: Option<RequestType>)
        ensures
            match t {
                Some(t) => t.name() == s@,
                None => forall|u: RequestType| u.name() != s@,
            },
    {
        if same_text(s, "JoinNetwork") {
            Some(RequestType::JoinNetwork)
        } else if same_text(s, "Result") {
            Some(RequestType::Result)
        } else if same_text(s, "StillAlive") {
            Some(RequestType::StillAlive)
        } else if same_text(s, "VibeCheck") {
            Some(RequestType::VibeCheck)
        } else if same_text(s, "NetworkChange") {
            Some(RequestType::NetworkChange)
        } else {
            None
        }
    }
}

/// No two request types share a name.
pub proof fn lemma_request_type_names_distinct(t: RequestType, u: RequestType)
    ensures
        t.name() == u.name() <==> t == u,
{
    reveal_strlit("JoinNetwork");
    reveal_strlit("Result");
    reveal_strlit("StillAlive");
    reveal_strlit("VibeCheck");
    reveal_strlit("NetworkChange");
    if t != u {
        assert(t.name().len() != u.name().len() || t.name()[0] != u.name()[0]);
    }
}

/// Reading the name of a type gives that type back: whatever `from_name`
/// may answer for the name of `t` is `t`.
pub proof fn lemma_from_name_of_name(t: RequestType, found: Option<RequestType>)
    requires
        match found {
            Some(u) => u.name() == t.name(),
            None => forall|u: RequestType| u.name() != t.name(),
        },
    ensures
        found == Some(t),
{
    match found {
        Some(u) => lemma_request_type_names_distinct(t, u),
        None => assert(t.name() == t.name()),
    }
}

/// What changed in the network.
#[derive(Debug, Clone, Copy, PartialEq, Eq, Structural)]
pub enum NetworkChangeType {
    ExitNetwork,
    JoinNetwork,
    ClientChange,
    ServerShutdown,
}

/// The status of a message.
#[derive(Debug, Clone, Copy, PartialEq, Eq, Structural)]
pub enum Status {
    Success,
    Error,
    ServerError,
    WrongClientInput,
    UnknownClient,
}

impl Status {
    /// The text shown for a status.
    pub open spec fn display(self) -> Seq<char> {
        match self {
            Status::Success => "ok"@,
            Status::Error => "error"@,
            Status::ServerError => "server_error"@,
            Status::WrongClientInput => "wrong_client_input"@,
            Status::UnknownClient => "unknown_client"@,
        }
    }

    pub fn to_string(&self) -> (s: String)
        ensures
            s@ == self.display(),
    {
        match self {
            Status::Success => String::from_str("ok"),
            Status::Error => String::from_str("error"),
            Status::ServerError => String::from_str("server_error"),
            Status::WrongClientInput => String::from_str("wrong_client_input"),
            Status::UnknownClient => String::from_str("unknown_client"),
        }
    }
}

/// Why a request could not be read.
#[derive(Debug)]
pub enum RequestError {
    BadJSON,
    BadType,
    CouldNotFound(&'static str),
}

impl RequestError {
    /// The text shown for the error.
    pub open spec fn display(&self) -> Seq<char> {
        match self {
            RequestError::BadJSON => "Request wasn't a JSON or has a bad structure"@,
            RequestError::CouldNotFound(field) => "Could not found field \""@ + field@
                + "\" in request"@,
            RequestError::BadType => "Wrong type was used in request"@,
        }
    }

    pub fn to_string(&self) -> (s: String)
        ensures
            s@ == self.display(),
    {
        match self {
            RequestError::BadJSON => String::from_str(
                "Request wasn't a JSON or has a bad structure",
            ),
            RequestError::CouldNotFound(field) => {
                let mut s = String::from_str("Could not found field \"");
                s.append(field);
                s.append("\" in request");
                s
            },
            RequestError::BadType => String::from_str("Wrong type was used in request"),
        }
    }
}

/// Why a change could not be built.
#[derive(Debug, Clone, Copy, PartialEq, Eq, Structural)]
pub enum NetworkChangeMessageError {
    ClientNotProvided,
}

impl NetworkChangeMessageError {
    /// The text shown for the error.
    pub fn to_string(&self) -> (s: String)
        ensures
            s@ == "Change was about a client, but the client was not provided"@,
    {
        String::from_str("Change was about a client, but the client was not provided")
    }
}

/// A message with no content beside its status.
#[derive(Debug)]
pub struct GenericMessage {
    pub response_type: RequestType,
    pub status: Status,
    pub error: Option<String>,
}

/// A message of the given type and status. The error is always present:
/// the given text, or the text `null` when none is given.
pub fn generic_message(message_type: RequestType, status: Status, error: Option<&str>) -> (m: GenericMessage)
    ensures
        m.response_type == message_type,
        m.status == status,
        m.error matches Some(e) && e@ == error_text_or_null(error),
{
    GenericMessage { response_type: message_type, status, error: Some(error_string(error)) }
}

/// The answer to a request: a message of type `Result`.
pub fn result_response(status: Status, error: Option<&str>) -> (m: GenericMessage)
    ensures
        m.response_type == RequestType::Result,
        m.status == status,
        m.error matches Some(e) && e@ == error_text_or_null(error),
{
    GenericMessage { response_type: RequestType::Result, status, error: Some(error_string(error)) }
}

/// The state of the network: the clients it has.
#[derive(Debug)]
pub struct NetworkStateMessage {
    pub response_type: RequestType,
    pub status: Status,
    pub error: Option<String>,
    pub clients: Vec<Client>,
}

/// A batch of changes of the network.
#[derive(Debug)]
pub struct NetworkChanges {
    pub response_type: RequestType,
    pub status: Status,
    pub error: Option<String>,
    pub changes: Vec<NetworkChange>,
}

impl NetworkChanges {
    pub fn new(changes: Vec<NetworkChange>) -> (m: NetworkChanges)
        ensures
            m.response_type == RequestType::NetworkChange,
            m.status == Status::Success,
            m.error is None,
            m.changes@ == changes@,
    {
        NetworkChanges {
            response_type: RequestType::NetworkChange,
            status: Status::Success,
            error: None,
            changes,
        }
    }
}

/// One change of the network.
#[derive(Debug, Clone)]
pub struct NetworkChange {
    pub change_type: NetworkChangeType,
    pub client: Option<Client>,
}

/// The change that `network_change` builds: every kind but a shutdown needs
/// a client; the change holds no client.
pub open spec fn change_of(change_type: NetworkChangeType, client_given: bool) -> Result<
    NetworkChange,
    NetworkChangeMessageError,
> {
    if change_type != NetworkChangeType::ServerShutdown && !client_given {
        Err(NetworkChangeMessageError::ClientNotProvided)
    } else {
        Ok(NetworkChange { change_type, client: None })
    }
}

/// A change of the given kind, about `client`.
pub fn network_change(change_type: NetworkChangeType, client: Option<&Client>) -> (res: Result<
    NetworkChange,
    NetworkChangeMessageError,
>)
    ensures
        res == change_of(change_type, client is Some),
{
    match change_type {
        NetworkChangeType::ServerShutdown => Ok(
            NetworkChange { change_type: NetworkChangeType::ServerShutdown, client: None },
        ),
        _ => match client {
            Some(_) => Ok(NetworkChange { change_type, client: None }),
            None => Err(NetworkChangeMessageError::ClientNotProvided),
        },
    }
}

/// What reading the type of `root` gives: the type named by its `type`
/// member, an error where that member is missing or names no type.
pub open spec fn request_type_of(root: Json) -> Option<Option<RequestType>> {
    match root.field("type"@) {
        None => None,
        Some(v) => Some(
            if exists|t: RequestType| t.name() == v.text().unwrap() {
                Some(choose|t: RequestType| t.name() == v.text().unwrap())
            } else {
                None
            },
        ),
    }
}

/// Whether the `type` member of `root`, where there is one, is a string.
pub open spec fn type_member_readable(root: Json) -> bool {
    root.field("type"@) matches Some(v) ==> v.text() is Some
}

/// `res` is what reading the type of `root` gives.
pub open spec fn reads_type_of(root: Json, res: Result<(RequestType, Json), RequestError>) -> bool {
    match res {
        Ok((t, v)) => request_type_of(root) == Some(Some(t)) && v == root,
        Err(RequestError::CouldNotFound(f)) => request_type_of(root) is None && f@ == "type"@,
        Err(RequestError::BadType) => request_type_of(root) == Some(None::<RequestType>),
        Err(RequestError::BadJSON) => false,
    }
}

/// Reads the type of a request already parsed as JSON, and hands the request
/// back with it.
pub fn get_request_type_value(root: Json) -> (res: Result<(RequestType, Json), RequestError>)
    requires
        type_member_readable(root),
    ensures
        reads_type_of(root, res),
{
    let field: &'static str = "type";
    proof {
        reveal_strlit("type");
    }
    let found = match root.get(field) {
        None => None,
        Some(v) => match v.as_str() {
            Some(name) => Some(RequestType::from_name(name)),
            None => None,
        },
    };
    match found {
        None => Err(RequestError::CouldNotFound(field)),
        Some(None) => Err(RequestError::BadType),
        Some(Some(t)) => {
            proof {
                lemma_request_type_names_distinct(t, choose|u: RequestType| u.name() == t.name());
            }
            Ok((t, root))
        },
    }
}

/// Whether reading the type of the request `request` succeeds without a
/// panic of the reader: where the text is JSON, its `type` member, if any, is
/// a string.
pub open spec fn request_readable(request: Seq<char>) -> bool {
    json_of_text(request) matches Some(root) ==> type_member_readable(root)
}

/// `res` is what reading the type of the request `request` gives: `BadJSON`
/// where the text is no JSON, otherwise what `get_request_type_value` gives.
pub open spec fn reads_request(request: Seq<char>, res: Result<(RequestType, Json), RequestError>) -> bool {
    match json_of_text(request) {
        None => res matches Err(RequestError::BadJSON),
        Some(root) => reads_type_of(root, res),
    }
}

/// Parses a request and reads its type.
pub fn get_request_type_str(request: &str) -> (res: Result<(RequestType, Json), RequestError>)
    requires
        request_readable(request@),
    ensures
        json_of_text(request@) is None <==> res matches Err(RequestError::BadJSON),
        reads_request(request@, res),
{
    match parse_json(request) {
        None => Err(RequestError::BadJSON),
        Some(root) => get_request_type_value(root),
    }
}

/// Parses a request and reads its type, where that can be done: nothing
/// where the request is JSON whose `type` member is no string, which
/// `get_request_type_str` does not take.
pub fn read_request_type(request: &str) -> (res: Option<Result<(RequestType, Json), RequestError>>)
    ensures
        res is None <==> !request_readable(request@),
        res matches Some(r) ==> reads_request(request@, r),
{
    proof {
        reveal_strlit("type");
    }
    let readable = match parse_json(request) {
        None => true,
        Some(root) => match root.get("type") {
            None => true,
            Some(v) => v.as_str().is_some(),
        },
    };
    if readable {
        Some(get_request_type_str(request))
    } else {
        None
    }
}

} // verus!
