use lemon_communicator::command_args::{parse_commands, CommandMatches};
use lemon_communicator::comms::output::{
    choose_peer, menu_action, ChoosingPeerError, MenuAction, GET_PEER_HASHTABLE, SEND_MESSAGE,
};
use lemon_communicator::comms::peer_data::{is_known_addresses_request, KNOWN_ADDRESSES_REQUEST};
use lemon_communicator::myio::{input_from_line, InputError};
use lemon_communicator::peer::{Address, Peer};
use lemon_communicator::text::{parse_usize, same_text, trim};

fn peers() -> Vec<Peer> {
    vec![
        Peer::new(Address::new("10.0.0.1".to_string(), 1).unwrap()),
        Peer::new(Address::new("10.0.0.2".to_string(), 2).unwrap()),
    ]
}

#[test]
fn defaults_of_the_settings() {
    let args = parse_commands(&CommandMatches { port: None, update_interval: None, vibe_check_interval: None });
    assert_eq!(args.port, 10002);
    assert_eq!(args.update_client_interval.as_secs(), 15);
    assert_eq!(args.vibe_check_interval.as_secs(), 15);
}

#[test]
fn intervals_come_from_the_update_interval() {
    let args = parse_commands(&CommandMatches {
        port: Some(7000),
        update_interval: Some(3),
        vibe_check_interval: Some(99),
    });
    assert_eq!(args.port, 7000);
    assert_eq!(args.update_client_interval.as_secs(), 3);
    assert_eq!(args.vibe_check_interval.as_secs(), 3);
    let only_vibe = parse_commands(&CommandMatches { port: None, update_interval: None, vibe_check_interval: Some(5) });
    assert_eq!(only_vibe.vibe_check_interval.as_secs(), 15);
}

#[test]
fn trimming_input() {
    assert_eq!(trim("  hello world \n"), "hello world");
    assert_eq!(trim("\t\r\n"), "");
    assert_eq!(trim(""), "");
    assert_eq!(trim("x"), "x");
    assert_eq!(trim("\u{3000}a b\u{a0}"), "a b");
    assert_eq!(input_from_line("  2\n"), "2");
    for s in ["  a  ", "\u{2028}b\u{85}", "c"] {
        assert_eq!(trim(s), s.trim());
        assert_eq!(trim(&trim(s)), trim(s));
    }
}

#[test]
fn parsing_numbers() {
    assert_eq!(parse_usize("0"), Some(0));
    assert_eq!(parse_usize("42"), Some(42));
    assert_eq!(parse_usize("+7"), Some(7));
    assert_eq!(parse_usize("007"), Some(7));
    assert_eq!(parse_usize(""), None);
    assert_eq!(parse_usize("+"), None);
    assert_eq!(parse_usize("-1"), None);
    assert_eq!(parse_usize(" 1"), None);
    assert_eq!(parse_usize("1a"), None);
    assert_eq!(parse_usize("18446744073709551615"), "18446744073709551615".parse::<usize>().ok());
    assert_eq!(parse_usize("99999999999999999999999"), None);
    for s in ["12", "+3", "x", "", "4294967296"] {
        assert_eq!(parse_usize(s), s.parse::<usize>().ok());
    }
}

#[test]
fn same_text_compares_characters() {
    assert!(same_text("abc", "abc"));
    assert!(!same_text("abc", "abd"));
    assert!(!same_text("abc", "ab"));
}

#[test]
fn choosing_a_peer() {
    let list = peers();
    let chosen = choose_peer(&list, Ok("1".to_string())).unwrap();
    assert_eq!(chosen, list[1]);
    assert_eq!(choose_peer(&list, Ok("0".to_string())).unwrap(), list[0]);
    assert_eq!(choose_peer(&list, Ok("2".to_string())), Err(ChoosingPeerError::WrongOption));
    assert_eq!(choose_peer(&list, Ok("one".to_string())), Err(ChoosingPeerError::ParsingError));
    assert_eq!(choose_peer(&list, Ok("".to_string())), Err(ChoosingPeerError::ParsingError));
    assert_eq!(
        choose_peer(&list, Err(InputError::StdinError)),
        Err(ChoosingPeerError::InputError(InputError::StdinError))
    );
    assert_eq!(choose_peer(&vec![], Ok("0".to_string())), Err(ChoosingPeerError::WrongOption));
}

#[test]
fn error_texts_of_the_session() {
    assert_eq!(ChoosingPeerError::WrongOption.to_string(), "Provided wrong option");
    assert_eq!(ChoosingPeerError::ParsingError.to_string(), "Option was not a number");
    assert_eq!(ChoosingPeerError::PeerNotFound.to_string(), "Peer not found in the saved peers");
    assert_eq!(ChoosingPeerError::InputError(InputError::ParsingError).to_string(), "Input parsing error");
    assert_eq!(InputError::StdinError.to_string(), "Input stdin error");
}

#[test]
fn menu_options() {
    assert_eq!(SEND_MESSAGE, 0);
    assert_eq!(GET_PEER_HASHTABLE, 1);
    assert_eq!(menu_action(Some(0)), MenuAction::SendMessage);
    assert_eq!(menu_action(Some(1)), MenuAction::GetPeerHashtable);
    assert_eq!(menu_action(Some(2)), MenuAction::UnknownOption);
    assert_eq!(menu_action(None), MenuAction::UnreadableOption);
}

#[test]
fn known_addresses_request_byte() {
    assert_eq!(KNOWN_ADDRESSES_REQUEST, 1);
    assert!(is_known_addresses_request(1));
    assert!(!is_known_addresses_request(0));
}
