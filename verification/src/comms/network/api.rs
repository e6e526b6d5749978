//! The messages of the protocol.
use vstd::prelude::*;
use vstd::string::*;
use crate::comms::client_data::Client;
use crate::json::{Json, json_of_text, parse_json};
use crate::text::same_text;

verus! {

/// The purpose of a message.
#[derive(Debug, Clone, Copy, PartialEq, Eq, Structural)]
pub enum MessageType {
    JoinNetwork,
    Result,
    StillAlive,
    VibeCheck,
    NetworkChange,
    FoundDeadClient,
    ExitNetwork,
    GetNetworkState,
}

impl MessageType {
    /// The name by which a request names its type: the variant's own name.
    pub open spec fn name(self) -> Seq<char> {
        match self {
            MessageType::JoinNetwork => "JoinNetwork"@,
            MessageType::Result => "Result"@,
            MessageType::StillAlive => "StillAlive"@,
            MessageType::VibeCheck => "VibeCheck"@,
            MessageType::NetworkChange => "NetworkChange"@,
            MessageType::FoundDeadClient => "FoundDeadClient"@,
            MessageType::ExitNetwork => "ExitNetwork"@,
            MessageType::GetNetworkState => "GetNetworkState"@,
        }
    }

    /// The type named `s`, matched exactly.
    pub fn from_name(s: &str) -> (t: Option<MessageType>)
        ensures
            match t {
                Some(t) => t.name() == s@,
                None => forall|u: MessageType| u.name() != s@,
            },
    {
        if same_text(s, "JoinNetwork") {
            Some(MessageType::JoinNetwork)
        } else if same_text(s, "Result") {
            Some(MessageType::Result)
        } else if same_text(s, "StillAlive") {
            Some(MessageType::StillAlive)
        } else if same_text(s, "VibeCheck") {
            Some(MessageType::VibeCheck)
        } else if same_text(s, "NetworkChange") {
            Some(MessageType::NetworkChange)
        } else if same_text(s, "FoundDeadClient") {
            Some(MessageType::FoundDeadClient)
        } else if same_text(s, "ExitNetwork") {
            Some(MessageType::ExitNetwork)
        } else if same_text(s, "GetNetworkState") {
            Some(MessageType::GetNetworkState)
        } else {
            None
        }
    }
}

/// No two message types share a name, so the type that `from_name` finds
/// for the name of `t` is `t`.
pub proof fn lemma_message_type_names_distinct(t: MessageType, u: MessageType)
    ensures
        t.name() == u.name() <==> t == u,
{
    reveal_strlit("JoinNetwork");
    reveal_strlit("Result");
    reveal_strlit("StillAlive");
    reveal_strlit("VibeCheck");
    reveal_strlit("NetworkChange");
    reveal_strlit("FoundDeadClient");
    reveal_strlit("ExitNetwork");
    reveal_strlit("GetNetworkState");
    if t != u {
        assert(t.name().len() != u.name().len() || t.name()[0] != u.name()[0]);
    }
}


/// Reading the name of a type gives that type back: whatever `from_name`
/// may answer for the name of `t` is `t`.
pub proof fn lemma_from_name_of_name(t: MessageType, found: Option<MessageType>)
    requires
        match found {
            Some(u) => u.name() == t.name(),
            None => forall|u: MessageType| u.name() != t.name(),
        },
    ensures
        found == Some(t),
{
    match found {
        Some(u) => lemma_message_type_names_distinct(t, u),
        None => assert(t.name() == t.name()),
    }
}

/// The status of a message.
#[derive(Debug, Clone, Copy, PartialEq, Eq, Structural)]
pub enum Status {
    Success,
    Error,
    ServerError,
    WrongClientInput,
    UnknownClient,
}

impl Status {
    /// The text shown for a status.
    pub open spec fn display(self) -> Seq<char> {
        match self {
            Status::Success => "ok"@,
            Status::Error => "error"@,
            Status::ServerError => "server_error"@,
            Status::WrongClientInput => "wrong_client_input"@,
            Status::UnknownClient => "unknown_client"@,
        }
    }

    pub fn to_string(&self) -> (s: String)
        ensures
            s@ == self.display(),
    {
        match self {
            Status::Success => String::from_str("ok"),
            Status::Error => String::from_str("error"),
            Status::ServerError => String::from_str("server_error"),
            Status::WrongClientInput => String::from_str("wrong_client_input"),
            Status::UnknownClient => String::from_str("unknown_client"),
        }
    }
}

/// Why a request could not be read.
#[derive(Debug)]
pub enum MessageError {
    BadJSON,
    BadType,
    CouldNotFound(&'static str),
}

impl MessageError {
    /// The text shown for the error.
    pub open spec fn display(&self) -> Seq<char> {
        match self {
            MessageError::BadJSON => "Request wasn't a JSON or has a bad structure"@,
            MessageError::CouldNotFound(field) => "Could not found field \""@ + field@
                + "\" in request"@,
            MessageError::BadType => "Wrong type was used in request"@,
        }
    }

    pub fn to_string(&self) -> (s: String)
        ensures
            s@ == self.display(),
    {
        match self {
            MessageError::BadJSON => String::from_str(
                "Request wasn't a JSON or has a bad structure",
            ),
            MessageError::CouldNotFound(field) => {
                let mut s = String::from_str("Could not found field \"");
                s.append(field);
                s.append("\" in request");
                s
            },
            MessageError::BadType => String::from_str("Wrong type was used in request"),
        }
    }
}

/// The text that stands in a message's error when no error is given.
pub open spec fn error_text_or_null(error: Option<&str>) -> Seq<char> {
    match error {
        Some(e) => e@,
        None => "null"@,
    }
}

/// The error text of a message: the given text, or `null`.
pub fn error_string(error: Option<&str>) -> (s: String)
    ensures
        s@ == error_text_or_null(error),
{
    match error {
        Some(e) => String::from_str(e),
        None => String::from_str("null"),
    }
}

/// A message of the protocol with no content beside its status.
#[derive(Debug)]
pub struct GenericMessage {
    pub response_type: MessageType,
    pub status: Status,
    pub error: Option<String>,
}

impl GenericMessage {
    /// A message of the given type and status. The error is always present:
    /// the given text, or the text `null` when none is given.
    pub fn new(message_type: MessageType, status: Status, error: Option<&str>) -> (m: GenericMessage)
        ensures
            m.response_type == message_type,
            m.status == status,
            m.error matches Some(e) && e@ == error_text_or_null(error),
    {
        GenericMessage { response_type: message_type, status, error: Some(error_string(error)) }
    }

    /// The answer to a request: a message of type `Result`.
    pub fn result(status: Status, error: Option<&str>) -> (m: GenericMessage)
        ensures
            m.response_type == MessageType::Result,
            m.status == status,
            m.error matches Some(e) && e@ == error_text_or_null(error),
    {
        GenericMessage {
            response_type: MessageType::Result,
            status,
            error: Some(error_string(error)),
        }
    }
}

/// What changed in the network.
#[derive(Debug, Clone, Copy, PartialEq, Eq, Structural)]
pub enum NetworkChangeType {
    ExitNetwork,
    JoinNetwork,
    ClientChange,
    ServerShutdown,
}

/// The state of the network: the clients it has.
#[derive(Debug)]
pub struct NetworkStateMessage {
    pub response_type: MessageType,
    pub status: Status,
    pub error: Option<String>,
    pub clients: Vec<Client>,
}

impl NetworkStateMessage {
    pub fn new(clients: Vec<Client>) -> (m: NetworkStateMessage)
        ensures
            m.response_type == MessageType::GetNetworkState,
            m.status == Status::Success,
            m.error is None,
            m.clients@ == clients@,
    {
        NetworkStateMessage {
            response_type: MessageType::GetNetworkState,
            status: Status::Success,
            error: None,
            clients,
        }
    }
}

/// A batch of changes of the network, as sent to the clients.
#[derive(Debug)]
pub struct NetworkChangesMessage {
    pub response_type: MessageType,
    pub status: Status,
    pub error: Option<String>,
    pub changes: Vec<NetworkChange>,
}

impl NetworkChangesMessage {
    pub fn new(changes: Vec<NetworkChange>) -> (m: NetworkChangesMessage)
        ensures
            m.response_type == MessageType::NetworkChange,
            m.status == Status::Success,
            m.error is None,
            m.changes@ == changes@,
    {
        NetworkChangesMessage {
            response_type: MessageType::NetworkChange,
            status: Status::Success,
            error: None,
            changes,
        }
    }
}

/// One change of the network.
#[derive(Debug, Clone)]
pub struct NetworkChange {
    pub change_type: NetworkChangeType,
    pub client: Option<Client>,
}

/// Why a change could not be built.
#[derive(Debug, Clone, Copy, PartialEq, Eq, Structural)]
pub enum NetworkChangeMessageError {
    ClientNotProvided,
}

/// The change that `NetworkChange::new` builds: every kind but a shutdown
/// needs a client. The message it is read back from names the client's
/// fields beside the type and has no `client` member, so the change holds no
/// client.
pub open spec fn change_of(change_type: NetworkChangeType, client_given: bool) -> Result<
    NetworkChange,
    NetworkChangeMessageError,
> {
    if change_type != NetworkChangeType::ServerShutdown && !client_given {
        Err(NetworkChangeMessageError::ClientNotProvided)
    } else {
        Ok(NetworkChange { change_type, client: None })
    }
}

impl NetworkChange {
    pub fn new(change_type: NetworkChangeType, client: Option<&Client>) -> (res: Result<
        NetworkChange,
        NetworkChangeMessageError,
    >)
        ensures
            res == change_of(change_type, client is Some),
    {
        match change_type {
            NetworkChangeType::ServerShutdown => Ok(
                NetworkChange { change_type: NetworkChangeType::ServerShutdown, client: None },
            ),
            _ => match client {
                Some(_) => Ok(NetworkChange { change_type, client: None }),
                None => Err(NetworkChangeMessageError::ClientNotProvided),
            },
        }
    }
}

/// A request that carries a client: one that joins the network, or one that
/// reports a client as dead.
#[derive(Debug)]
pub struct JoinNetworkMessage {
    pub response_type: MessageType,
    pub status: Status,
    pub error: Option<String>,
    pub client: Client,
}

/// The name of the member that holds a request's type.
pub open spec fn type_member() -> Seq<char> {
    "type"@
}

/// Whether a request can be read without a panic of the reader: its type
/// member, where there is one, is a string.
pub open spec fn type_member_readable(root: Json) -> bool {
    root.field(type_member()) matches Some(v) ==> v.text() is Some
}

/// What reading the type of `root` gives: the type named by its `type`
/// member, an error where that member is missing or names no type.
pub open spec fn request_type_of(root: Json) -> Option<Option<MessageType>> {
    match root.field(type_member()) {
        None => None,
        Some(v) => Some(
            if exists|t: MessageType| t.name() == v.text().unwrap() {
                Some(choose|t: MessageType| t.name() == v.text().unwrap())
            } else {
                None
            },
        ),
    }
}

/// `res` is what reading the type of `root` gives: `CouldNotFound("type")`
/// exactly where there is no `type` member, `BadType` exactly where it names
/// no message type, and otherwise the type it names, with `root` unchanged.
pub open spec fn reads_type_of(root: Json, res: Result<(MessageType, Json), MessageError>) -> bool {
    match res {
        Ok((t, v)) => request_type_of(root) == Some(Some(t)) && v == root,
        Err(MessageError::CouldNotFound(f)) => request_type_of(root) is None && f@ == type_member(),
        Err(MessageError::BadType) => request_type_of(root) == Some(None::<MessageType>),
        Err(MessageError::BadJSON) => false,
    }
}

/// Reads the type of a request already parsed as JSON, and hands the request
/// back with it.
pub fn get_request_type_value(root: Json) -> (res: Result<(MessageType, Json), MessageError>)
    requires
        type_member_readable(root),
    ensures
        reads_type_of(root, res),
{
    let field: &'static str = "type";
    proof {
        reveal_strlit("type");
    }
    let found = match root.get(field) {
        None => None,
        Some(v) => match v.as_str() {
            Some(name) => Some(MessageType::from_name(name)),
            None => None,
        },
    };
    match found {
        None => Err(MessageError::CouldNotFound(field)),
        Some(None) => Err(MessageError::BadType),
        Some(Some(t)) => {
            proof {
                lemma_message_type_names_distinct(t, choose|u: MessageType| u.name() == t.name());
            }
            Ok((t, root))
        },
    }
}

/// Whether reading the type of the request `request` succeeds without a
/// panic of the reader: where the text is JSON, its `type` member, if any, is
/// a string.
pub open spec fn request_readable(request: Seq<char>) -> bool {
    json_of_text(request) matches Some(root) ==> type_member_readable(root)
}

/// `res` is what reading the type of the request `request` gives: `BadJSON`
/// where the text is no JSON, otherwise what `get_request_type_value` gives.
pub open spec fn reads_request(request: Seq<char>, res: Result<(MessageType, Json), MessageError>) -> bool {
    match json_of_text(request) {
        None => res matches Err(MessageError::BadJSON),
        Some(root) => reads_type_of(root, res),
    }
}

/// Parses a request and reads its type.
pub fn get_request_type_str(request: &str) -> (res: Result<(MessageType, Json), MessageError>)
    requires
        request_readable(request@),
    ensures
        json_of_text(request@) is None <==> res matches Err(MessageError::BadJSON),
        reads_request(request@, res),
{
    match parse_json(request) {
        None => Err(MessageError::BadJSON),
        Some(root) => get_request_type_value(root),
    }
}

/// Parses a request and reads its type, where that can be done: nothing
/// where the request is JSON whose `type` member is no string, which
/// `get_request_type_str` does not take.
pub fn read_request_type(request: &str) -> (res: Option<Result<(MessageType, Json), MessageError>>)
    ensures
        res is None <==> !request_readable(request@),
        res matches Some(r) ==> reads_request(request@, r),
{
    proof {
        reveal_strlit("type");
    }
    let readable = match parse_json(request) {
        None => true,
        Some(root) => match root.get("type") {
            None => true,
            Some(v) => v.as_str().is_some(),
        },
    };
    if readable {
        Some(get_request_type_str(request))
    } else {
        None
    }
}

} // verus!
