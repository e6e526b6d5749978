use lemon_communicator::comms::client::client_handler::{
    route_new_request, route_registered_request, server_request_reply, update_client_report,
    vibe_check_answer, vibe_check_request, NewRequestRoute, RegisteredRoute, ServerRequestOutcome,
};
use lemon_communicator::comms::client::client_reqs::{join_network, wrong_request, JoinError};
use lemon_communicator::comms::client_data::Client;
use lemon_communicator::comms::network::api::{
    get_request_type_str, get_request_type_value, read_request_type, GenericMessage, MessageError, MessageType,
    NetworkChange, NetworkChangeMessageError, NetworkChangeType, NetworkChangesMessage,
    NetworkStateMessage, Status,
};
use lemon_communicator::comms::network::NetworkChanges;
use lemon_communicator::json::Json;

fn text(s: &str) -> Json {
    Json::Str(s.to_string())
}

fn object(members: Vec<(&str, Json)>) -> Json {
    Json::Object(members.into_iter().map(|(k, v)| (k.to_string(), v)).collect())
}

fn client() -> Client {
    Client { id: 4, addr: "127.0.0.1:9000".to_string(), name: "c".to_string() }
}

#[test]
fn message_type_names_read_back() {
    let all = [
        MessageType::JoinNetwork,
        MessageType::Result,
        MessageType::StillAlive,
        MessageType::VibeCheck,
        MessageType::NetworkChange,
        MessageType::FoundDeadClient,
        MessageType::ExitNetwork,
        MessageType::GetNetworkState,
    ];
    let names = [
        "JoinNetwork",
        "Result",
        "StillAlive",
        "VibeCheck",
        "NetworkChange",
        "FoundDeadClient",
        "ExitNetwork",
        "GetNetworkState",
    ];
    for (t, n) in all.iter().zip(names.iter()) {
        assert_eq!(MessageType::from_name(n), Some(*t));
    }
    assert_eq!(MessageType::from_name("join_network"), None);
    assert_eq!(MessageType::from_name("joinnetwork"), None);
    assert_eq!(MessageType::from_name(""), None);
}

#[test]
fn status_texts() {
    assert_eq!(Status::Success.to_string(), "ok");
    assert_eq!(Status::Error.to_string(), "error");
    assert_eq!(Status::ServerError.to_string(), "server_error");
    assert_eq!(Status::WrongClientInput.to_string(), "wrong_client_input");
    assert_eq!(Status::UnknownClient.to_string(), "unknown_client");
}

#[test]
fn message_error_texts() {
    assert_eq!(MessageError::BadJSON.to_string(), "Request wasn't a JSON or has a bad structure");
    assert_eq!(MessageError::BadType.to_string(), "Wrong type was used in request");
    assert_eq!(
        MessageError::CouldNotFound("type").to_string(),
        "Could not found field \"type\" in request"
    );
    assert_eq!(JoinError::BadJSON.to_string(), "Request wasn't a JSON or has a bad structure");
    let io = JoinError::IOError(std::io::Error::new(std::io::ErrorKind::Other, "boom"));
    assert_eq!(io.to_string(), "boom");
}

#[test]
fn generic_messages_always_carry_an_error_text() {
    let m = GenericMessage::new(MessageType::VibeCheck, Status::Success, None);
    assert_eq!(m.response_type, MessageType::VibeCheck);
    assert_eq!(m.status, Status::Success);
    assert_eq!(m.error.as_deref(), Some("null"));
    let r = GenericMessage::result(Status::Error, Some("Wrong request"));
    assert_eq!(r.response_type, MessageType::Result);
    assert_eq!(r.status, Status::Error);
    assert_eq!(r.error.as_deref(), Some("Wrong request"));
    let w = wrong_request();
    assert_eq!(w.error.as_deref(), Some("Wrong request"));
    assert_eq!(w.status, Status::Error);
    let v = vibe_check_request();
    assert_eq!(v.response_type, MessageType::VibeCheck);
}

#[test]
fn state_and_change_messages() {
    let s = NetworkStateMessage::new(vec![client()]);
    assert_eq!(s.response_type, MessageType::GetNetworkState);
    assert_eq!(s.status, Status::Success);
    assert!(s.error.is_none());
    assert_eq!(s.clients[0].id, 4);
    let c = NetworkChangesMessage::new(vec![]);
    assert_eq!(c.response_type, MessageType::NetworkChange);
    assert!(c.changes.is_empty());
}

#[test]
fn network_change_needs_a_client_but_for_shutdown() {
    let c = client();
    for kind in [NetworkChangeType::ExitNetwork, NetworkChangeType::JoinNetwork, NetworkChangeType::ClientChange] {
        let change = NetworkChange::new(kind, Some(&c)).unwrap();
        assert_eq!(change.change_type, kind);
        assert!(change.client.is_none());
        assert!(matches!(
            NetworkChange::new(kind, None),
            Err(NetworkChangeMessageError::ClientNotProvided)
        ));
    }
    let shutdown = NetworkChange::new(NetworkChangeType::ServerShutdown, None).unwrap();
    assert_eq!(shutdown.change_type, NetworkChangeType::ServerShutdown);
    assert!(NetworkChange::new(NetworkChangeType::ServerShutdown, Some(&c)).is_ok());
}

#[test]
fn change_log_appends_and_resets() {
    let mut log = NetworkChanges::new();
    assert!(log.get_changes().is_none());
    let c = client();
    log.add(NetworkChange::new(NetworkChangeType::JoinNetwork, Some(&c)).unwrap());
    log.add_multiple(vec![
        NetworkChange::new(NetworkChangeType::ExitNetwork, Some(&c)).unwrap(),
        NetworkChange::new(NetworkChangeType::ServerShutdown, None).unwrap(),
    ]);
    let m = log.get_changes().unwrap();
    assert_eq!(m.response_type, MessageType::NetworkChange);
    assert_eq!(m.status, Status::Success);
    assert!(m.error.is_none());
    let kinds: Vec<NetworkChangeType> = m.changes.iter().map(|c| c.change_type).collect();
    assert_eq!(
        kinds,
        vec![NetworkChangeType::JoinNetwork, NetworkChangeType::ExitNetwork, NetworkChangeType::ServerShutdown]
    );
    log.reset_changes();
    assert!(log.get_changes().is_none());
}

#[test]
fn request_type_is_read_from_the_type_member() {
    let request = object(vec![("type", text("ExitNetwork")), ("extra", Json::Null)]);
    match get_request_type_value(request) {
        Ok((t, Json::Object(members))) => {
            assert_eq!(t, MessageType::ExitNetwork);
            assert_eq!(members.len(), 2);
            assert_eq!(members[1].0, "extra");
        }
        other => panic!("unexpected {:?}", other),
    }
}

#[test]
fn request_type_errors() {
    assert!(matches!(get_request_type_str("not json"), Err(MessageError::BadJSON)));
    assert!(matches!(get_request_type_str(""), Err(MessageError::BadJSON)));
    assert!(matches!(
        get_request_type_str("{\"kind\": \"ExitNetwork\"}"),
        Err(MessageError::CouldNotFound("type"))
    ));
    assert!(matches!(get_request_type_str("[1, 2]"), Err(MessageError::CouldNotFound("type"))));
    assert!(matches!(
        get_request_type_value(Json::Array(vec![text("type")])),
        Err(MessageError::CouldNotFound("type"))
    ));
    assert!(matches!(
        get_request_type_value(object(vec![("type", text("exit_network"))])),
        Err(MessageError::BadType)
    ));
    assert!(matches!(
        get_request_type_str("{\"type\": \"GetNetworkState\"}\n"),
        Ok((MessageType::GetNetworkState, _))
    ));
    assert!(matches!(
        get_request_type_str("{\"type\": \"get_network_state\"}"),
        Err(MessageError::BadType)
    ));
}

#[test]
fn requests_are_parsed_from_their_text() {
    let read = get_request_type_str(
        "{\"type\": \"FoundDeadClient\", \"client\": {\"id\": 3, \"name\": \"bob\"}, \"ok\": [true, null]}",
    );
    match read {
        Ok((MessageType::FoundDeadClient, root)) => {
            assert!(matches!(root.get("type"), Some(Json::Str(t)) if t == "FoundDeadClient"));
            let client = root.get("client").unwrap();
            assert!(matches!(client.get("id"), Some(Json::Number(n)) if n == "3"));
            assert_eq!(client.get("name").unwrap().as_str(), Some("bob"));
            assert!(matches!(root.get("ok"), Some(Json::Array(items)) if items.len() == 2));
        }
        other => panic!("unexpected {:?}", other),
    }
    let name = join_network(&get_request_type_str("{\"type\":\"JoinNetwork\",\"client\":{\"name\":\"al\"}}").unwrap().1);
    assert_eq!(name.unwrap(), "al");
}

#[test]
fn a_type_member_that_is_no_string_is_not_read() {
    assert!(read_request_type("{\"type\": 3}").is_none());
    assert!(read_request_type("{\"type\": null}").is_none());
    assert!(matches!(read_request_type("nope"), Some(Err(MessageError::BadJSON))));
    assert!(matches!(read_request_type("{\"type\": \"ExitNetwork\"}"), Some(Ok((MessageType::ExitNetwork, _)))));
    assert!(matches!(read_request_type("{}"), Some(Err(MessageError::CouldNotFound("type")))));
}

#[test]
fn json_lookup() {
    let v = object(vec![
        ("a", Json::Number("1".to_string())),
        ("b", Json::Bool(true)),
        ("a", text("second")),
    ]);
    assert!(matches!(v.get("a"), Some(Json::Number(n)) if n == "1"));
    assert!(matches!(v.get("b"), Some(Json::Bool(true))));
    assert!(v.get("c").is_none());
    assert!(text("x").get("a").is_none());
    assert_eq!(text("x").as_str(), Some("x"));
    assert_eq!(Json::Null.as_str(), None);
}

#[test]
fn join_request_names_the_client() {
    let request = object(vec![
        ("type", text("JoinNetwork")),
        ("client", object(vec![("name", text("alice"))])),
    ]);
    assert_eq!(join_network(&request).unwrap(), "alice");
    for bad in [
        object(vec![("type", text("JoinNetwork"))]),
        object(vec![("client", object(vec![]))]),
        object(vec![("client", object(vec![("name", Json::Number("3".to_string()))]))]),
        object(vec![("client", text("alice"))]),
    ] {
        let answer = join_network(&bad).unwrap_err();
        assert_eq!(answer.response_type, MessageType::Result);
        assert_eq!(answer.status, Status::Error);
        assert_eq!(answer.error.as_deref(), Some("Client's name not found"));
    }
}

#[test]
fn routes_of_new_connections() {
    let join = object(vec![("type", text("JoinNetwork"))]);
    assert!(matches!(
        route_new_request(Ok((MessageType::JoinNetwork, join))),
        NewRequestRoute::Join(Json::Object(_))
    ));
    assert!(matches!(
        route_new_request(Ok((MessageType::ExitNetwork, Json::Null))),
        NewRequestRoute::WrongType(MessageType::ExitNetwork)
    ));
    assert!(matches!(
        route_new_request(Err(MessageError::BadJSON)),
        NewRequestRoute::Unreadable(MessageError::BadJSON)
    ));
}

#[test]
fn routes_of_registered_clients() {
    assert!(matches!(
        route_registered_request(Ok((MessageType::GetNetworkState, Json::Null))),
        RegisteredRoute::GiveNetworkState
    ));
    assert!(matches!(
        route_registered_request(Ok((MessageType::ExitNetwork, Json::Null))),
        RegisteredRoute::ExitNetwork
    ));
    assert!(matches!(
        route_registered_request(Ok((MessageType::FoundDeadClient, Json::Bool(false)))),
        RegisteredRoute::FoundDeadClient(Json::Bool(false))
    ));
    assert!(matches!(
        route_registered_request(Ok((MessageType::JoinNetwork, Json::Null))),
        RegisteredRoute::WrongType(MessageType::JoinNetwork)
    ));
    assert!(matches!(
        route_registered_request(Err(MessageError::BadType)),
        RegisteredRoute::Unreadable(MessageError::BadType)
    ));
}

#[test]
fn replies_to_the_server() {
    assert!(server_request_reply(ServerRequestOutcome::Updated(true)));
    assert!(!server_request_reply(ServerRequestOutcome::Updated(false)));
    assert!(!server_request_reply(ServerRequestOutcome::Checked(true)));
    assert!(server_request_reply(ServerRequestOutcome::Checked(false)));
}

#[test]
fn vibe_check_answers() {
    assert!(!vibe_check_answer(None));
    let alive = GenericMessage::new(MessageType::StillAlive, Status::Success, None);
    assert!(!vibe_check_answer(Some(&alive)));
    let other = GenericMessage::new(MessageType::Result, Status::Success, None);
    assert!(vibe_check_answer(Some(&other)));
}

#[test]
fn update_reports() {
    assert_eq!(
        update_client_report(None).as_deref(),
        Some("Error while updating client: cannot parse client's response")
    );
    let failed = GenericMessage::result(Status::Error, Some("full"));
    assert_eq!(update_client_report(Some(&failed)).as_deref(), Some("Error while updating client: full"));
    let bare = GenericMessage { response_type: MessageType::Result, status: Status::Error, error: None };
    assert_eq!(
        update_client_report(Some(&bare)).as_deref(),
        Some("Error while updating client, but no error description was given")
    );
    let fine = GenericMessage::result(Status::Success, None);
    assert_eq!(update_client_report(Some(&fine)), None);
}
