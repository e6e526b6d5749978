//! The decisions of the terminal session that talks to peers.
use vstd::prelude::*;
use vstd::string::*;
use crate::myio::InputError;
use crate::peer::Peer;
use crate::text::{parse_usize, unsigned_value};

verus! {

/// The option that sends a message to the chosen peer.
pub const SEND_MESSAGE: u8 = 0;

/// The option that asks the chosen peer for the peers it knows.
pub const GET_PEER_HASHTABLE: u8 = 1;

/// What the session does with the option read from the terminal.
#[derive(Debug, Clone, Copy, PartialEq, Eq, Structural)]
pub enum MenuAction {
    SendMessage,
    GetPeerHashtable,
    /// The input was no option at all.
    UnreadableOption,
    /// The input is a number that names no option.
    UnknownOption,
}

/// The action for the option read from the terminal (nothing where the
/// input could not be read as a number).
pub fn menu_action(option: Option<u8>) -> (action: MenuAction)
    ensures
        action == match option {
            None => MenuAction::UnreadableOption,
            Some(o) => if o == SEND_MESSAGE {
                MenuAction::SendMessage
            } else if o == GET_PEER_HASHTABLE {
                MenuAction::GetPeerHashtable
            } else {
                MenuAction::UnknownOption
            },
        },
{
    match option {
        None => MenuAction::UnreadableOption,
        Some(o) => if o == SEND_MESSAGE {
            MenuAction::SendMessage
        } else if o == GET_PEER_HASHTABLE {
            MenuAction::GetPeerHashtable
        } else {
            MenuAction::UnknownOption
        },
    }
}

/// Why no peer was chosen.
#[derive(Debug, Clone, Copy, PartialEq, Eq, Structural)]
pub enum ChoosingPeerError {
    WrongOption,
    ParsingError,
    PeerNotFound,
    InputError(InputError),
}

impl ChoosingPeerError {
    /// The text shown for the error.
    pub open spec fn display(self) -> Seq<char> {
        match self {
            ChoosingPeerError::WrongOption => "Provided wrong option"@,
            ChoosingPeerError::ParsingError => "Option was not a number"@,
            ChoosingPeerError::PeerNotFound => "Peer not found in the saved peers"@,
            ChoosingPeerError::InputError(e) => e.display(),
        }
    }

    pub fn to_string(&self) -> (s: String)
        ensures
            s@ == self.display(),
    {
        match self {
            ChoosingPeerError::WrongOption => String::from_str("Provided wrong option"),
            ChoosingPeerError::ParsingError => String::from_str("Option was not a number"),
            ChoosingPeerError::PeerNotFound => String::from_str("Peer not found in the saved peers"),
            ChoosingPeerError::InputError(e) => e.to_string(),
        }
    }
}

/// Chooses a peer from the list shown to the user, numbered from 0 in
/// order, by the line the user typed (or the error reading it gave).
pub fn choose_peer(peers: &Vec<Peer>, input: Result<String, InputError>) -> (res: Result<Peer, ChoosingPeerError>)
    ensures
        match input {
            Err(e) => res == Err::<Peer, ChoosingPeerError>(ChoosingPeerError::InputError(e)),
            Ok(text) => match unsigned_value(text@) {
                None => res == Err::<Peer, ChoosingPeerError>(ChoosingPeerError::ParsingError),
                Some(v) => if v > usize::MAX {
                    res == Err::<Peer, ChoosingPeerError>(ChoosingPeerError::ParsingError)
                } else if v >= peers.len() {
                    res == Err::<Peer, ChoosingPeerError>(ChoosingPeerError::WrongOption)
                } else {
                    res matches Ok(p) && p@ == peers@[v as int]@
                },
            },
        },
{
    let text = match input {
        Err(e) => return Err(ChoosingPeerError::InputError(e)),
        Ok(text) => text,
    };
    let index = match parse_usize(text.as_str()) {
        None => return Err(ChoosingPeerError::ParsingError),
        Some(i) => i,
    };
    if index >= peers.len() {
        return Err(ChoosingPeerError::WrongOption);
    }
    Ok(peers[index].copied())
}

} // verus!
