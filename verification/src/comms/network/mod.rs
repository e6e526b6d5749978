//! The change log of the network and the messages of the protocol.
pub mod api;

use vstd::prelude::*;
use self::api::{NetworkChange, NetworkChangesMessage, MessageType, Status};

verus! {

/// The changes of the network that the clients have not been told of yet.
pub struct NetworkChanges {
    changes: NetworkChangesMessage,
}

impl View for NetworkChanges {
    type V = Seq<NetworkChange>;

    closed spec fn view(&self) -> Seq<NetworkChange> {
        self.changes.changes@
    }
}

impl NetworkChanges {
    /// A message of changes can be sent at any time: it has the type
    /// `NetworkChange`, the status `ok` and no error.
    #[verifier::type_invariant]
    spec fn is_change_message(self) -> bool {
        &&& self.changes.response_type == MessageType::NetworkChange
        &&& self.changes.status == Status::Success
        &&& self.changes.error is None
    }

    /// An empty log.
    pub fn new() -> (log: NetworkChanges)
        ensures
            log@ == Seq::<NetworkChange>::empty(),
    {
        NetworkChanges { changes: NetworkChangesMessage::new(Vec::new()) }
    }

    /// Records one change after the others.
    pub fn add(&mut self, network_change: NetworkChange)
        ensures
            final(self)@ == old(self)@.push(network_change),
    {
        proof {
            use_type_invariant(&*self);
        }
        let mut changes: Vec<NetworkChange> = Vec::new();
        std::mem::swap(&mut changes, &mut self.changes.changes);
        changes.push(network_change);
        self.changes.changes = changes;
    }

    /// Records several changes after the others, in their order.
    pub fn add_multiple(&mut self, network_changes: Vec<NetworkChange>)
        ensures
            final(self)@ == old(self)@ + network_changes@,
    {
        proof {
            use_type_invariant(&*self);
        }
        let mut changes: Vec<NetworkChange> = Vec::new();
        std::mem::swap(&mut changes, &mut self.changes.changes);
        let ghost before = changes@;
        let mut incoming = network_changes;
        changes.append(&mut incoming);
        assert(changes@ =~= before + network_changes@);
        self.changes.changes = changes;
    }

    /// The message that tells the clients of the recorded changes, when
    /// there are any.
    pub fn get_changes(&self) -> (message: Option<&NetworkChangesMessage>)
        ensures
            self@.len() == 0 <==> message is None,
            message matches Some(m) ==> m.changes@ == self@ && m.response_type
                == MessageType::NetworkChange && m.status == Status::Success && m.error is None,
    {
        proof {
            use_type_invariant(self);
        }
        if self.changes.changes.len() == 0 {
            None
        } else {
            Some(&self.changes)
        }
    }

    /// Forgets every recorded change.
    pub fn reset_changes(&mut self)
        ensures
            final(self)@ == Seq::<NetworkChange>::empty(),
    {
        proof {
            use_type_invariant(&*self);
        }
        self.changes.changes = Vec::new();
    }
}

} // verus!
