//! The clients registered with the server.
pub mod client_handler;
pub mod client_reqs;

use vstd::prelude::*;
use vstd::string::*;
use crate::comms::client_data::{Client, ClientView, IdCounter, next_after};
use crate::comms::network::NetworkChanges;
use crate::comms::network::api::{
    NetworkChange, NetworkChangeMessageError, NetworkChangeType, NetworkStateMessage, MessageType, Status,
    change_of,
};

verus! {

/// `std::io::Error`, the error of a failed read or write.
#[verifier::external_type_specification]
#[verifier::external_body]
pub struct ExIoError(std::io::Error);

/// Why a client could not be checked.
#[derive(Debug)]
pub enum CheckIfDeadError {
    NotFound,
    IOError(std::io::Error),
}

/// Values that name a client by its id.
pub trait GetId {
    spec fn spec_id(&self) -> u64;

    fn get_id(&self) -> (id: u64)
        ensures
            id == self.spec_id(),
    ;
}

/// Values that can give the public part of a client.
pub trait GetWeak {
    spec fn weak_view(&self) -> ClientView;

    fn weak(&self) -> (w: WeakClient)
        ensures
            w@ == self.weak_view(),
    ;
}

/// Values that know the socket address of a client.
pub trait GetAddr {
    spec fn addr_view(&self) -> Seq<char>;

    fn get_addr(&self) -> (addr: &str)
        ensures
            addr@ == self.addr_view(),
    ;
}

impl GetId for u64 {
    open spec fn spec_id(&self) -> u64 {
        *self
    }

    fn get_id(&self) -> (id: u64) {
        *self
    }
}

/// A client registered with the server. The channel on which the server
/// talks to the client's handler is kept beside the registry, under the
/// client's id.
#[derive(Debug, Clone)]
pub struct RegisteredClient {
    pub id: u64,
    pub addr: String,
    pub name: String,
}

impl View for RegisteredClient {
    type V = ClientView;

    open spec fn view(&self) -> ClientView {
        ClientView { id: self.id, addr: self.addr@, name: self.name@ }
    }
}

impl RegisteredClient {
    fn copied(&self) -> (r: RegisteredClient)
        ensures
            r@ == self@,
    {
        RegisteredClient { id: self.id, addr: self.addr.clone(), name: self.name.clone() }
    }

    /// The registration of `client`.
    pub fn from<T: GetWeak>(client: &T) -> (r: RegisteredClient)
        ensures
            r@ == client.weak_view(),
    {
        let w = client.weak();
        RegisteredClient { id: w.id, addr: w.addr, name: w.name }
    }
}

impl GetId for RegisteredClient {
    open spec fn spec_id(&self) -> u64 {
        self.id
    }

    fn get_id(&self) -> (id: u64) {
        self.id
    }
}

impl GetWeak for RegisteredClient {
    open spec fn weak_view(&self) -> ClientView {
        self@
    }

    fn weak(&self) -> (w: WeakClient) {
        WeakClient { id: self.id, addr: self.addr.clone(), name: self.name.clone() }
    }
}

impl GetAddr for RegisteredClient {
    open spec fn addr_view(&self) -> Seq<char> {
        self.addr@
    }

    fn get_addr(&self) -> (addr: &str) {
        self.addr.as_str()
    }
}

/// The public part of a client: what other clients may know of it.
#[derive(Debug, Clone)]
pub struct WeakClient {
    id: u64,
    pub addr: String,
    pub name: String,
}

impl View for WeakClient {
    type V = ClientView;

    closed spec fn view(&self) -> ClientView {
        ClientView { id: self.id, addr: self.addr@, name: self.name@ }
    }
}

impl WeakClient {
    pub fn new(id: u64, addr: String, name: String) -> (w: WeakClient)
        ensures
            w@ == (ClientView { id, addr: addr@, name: name@ }),
    {
        WeakClient { id, addr, name }
    }

    /// The client as messages carry it.
    pub fn to_client(&self) -> (c: Client)
        ensures
            c@ == self@,
    {
        Client { id: self.id, addr: self.addr.clone(), name: self.name.clone() }
    }
}

impl GetId for WeakClient {
    open spec fn spec_id(&self) -> u64 {
        self@.id
    }

    fn get_id(&self) -> (id: u64) {
        self.id
    }
}

impl GetWeak for WeakClient {
    open spec fn weak_view(&self) -> ClientView {
        self@
    }

    fn weak(&self) -> (w: WeakClient) {
        WeakClient { id: self.id, addr: self.addr.clone(), name: self.name.clone() }
    }
}

impl GetAddr for WeakClient {
    open spec fn addr_view(&self) -> Seq<char> {
        self@.addr
    }

    fn get_addr(&self) -> (addr: &str) {
        self.addr.as_str()
    }
}

/// Whether a client with id `id` is among `clients`.
pub open spec fn has_id(clients: Seq<ClientView>, id: u64) -> bool {
    exists|i: int| 0 <= i < clients.len() && clients[i].id == id
}

/// Whether `i` is the first position of a client with id `id`.
pub open spec fn is_first_with_id(clients: Seq<ClientView>, id: u64, i: int) -> bool {
    &&& 0 <= i < clients.len()
    &&& clients[i].id == id
    &&& forall|j: int| 0 <= j < i ==> clients[j].id != id
}

/// The first position of a client with id `id`.
pub open spec fn first_with_id(clients: Seq<ClientView>, id: u64) -> int {
    choose|i: int| is_first_with_id(clients, id, i)
}

/// `clients` without its first client of id `id`, if it has one.
pub open spec fn without_first(clients: Seq<ClientView>, id: u64) -> Seq<ClientView> {
    if has_id(clients, id) {
        clients.remove(first_with_id(clients, id))
    } else {
        clients
    }
}

/// The first position of a client is the one `first_with_id` names.
pub proof fn lemma_first_with_id(clients: Seq<ClientView>, id: u64, i: int)
    requires
        is_first_with_id(clients, id, i),
    ensures
        first_with_id(clients, id) == i,
        has_id(clients, id),
{
    let k = first_with_id(clients, id);
    assert(is_first_with_id(clients, id, k));
    if k < i {
        assert(clients[k].id != id);
    } else if k > i {
        assert(clients[i].id != id);
    }
}

/// Whether no two of `clients` share an id.
pub open spec fn ids_unique(clients: Seq<ClientView>) -> bool {
    forall|i: int, j: int|
        0 <= i < clients.len() && 0 <= j < clients.len() && i != j ==> clients[i].id
            != clients[j].id
}

/// A client just added is registered.
pub proof fn lemma_added_client_is_registered(clients: Seq<ClientView>, client: ClientView)
    ensures
        has_id(clients.push(client), client.id),
{
    assert(clients.push(client)[clients.len() as int].id == client.id);
}

/// Removing a client just added, whose id no other client had, gives back
/// the registry as it was.
pub proof fn lemma_remove_undoes_add(clients: Seq<ClientView>, client: ClientView)
    requires
        !has_id(clients, client.id),
    ensures
        without_first(clients.push(client), client.id) == clients,
{
    let s = clients.push(client);
    assert(is_first_with_id(s, client.id, clients.len() as int));
    lemma_first_with_id(s, client.id, clients.len() as int);
    assert(s.remove(clients.len() as int) =~= clients);
}

/// Where no two clients share an id, a removed client is registered no
/// more, and the others stay in their order.
pub proof fn lemma_removed_client_is_gone(clients: Seq<ClientView>, id: u64)
    requires
        ids_unique(clients),
    ensures
        !has_id(without_first(clients, id), id),
        ids_unique(without_first(clients, id)),
        without_first(clients, id) == clients.filter(|c: ClientView| c.id != id),
{
    let pred = |c: ClientView| c.id != id;
    if has_id(clients, id) {
        let k = choose|i: int| 0 <= i < clients.len() && clients[i].id == id;
        assert(is_first_with_id(clients, id, k));
        lemma_first_with_id(clients, id, k);
        let r = clients.remove(k);
        assert forall|i: int| 0 <= i < r.len() implies r[i].id != id by {
            if i < k {
                assert(r[i] == clients[i]);
            } else {
                assert(r[i] == clients[i + 1]);
            }
        }
        lemma_filter_removes(clients, id, k);
    } else {
        lemma_filter_keeps_all(clients, id);
    }
}

proof fn lemma_filter_keeps_all(clients: Seq<ClientView>, id: u64)
    requires
        !has_id(clients, id),
    ensures
        clients.filter(|c: ClientView| c.id != id) == clients,
    decreases clients.len(),
{
    let pred = |c: ClientView| c.id != id;
    if clients.len() > 0 {
        let front = clients.drop_last();
        assert(!has_id(front, id)) by {
            if has_id(front, id) {
                let i = choose|i: int| 0 <= i < front.len() && front[i].id == id;
                assert(clients[i].id == id);
            }
        }
        lemma_filter_keeps_all(front, id);
        assert(clients.last().id != id) by {
            assert(clients[clients.len() - 1].id != id);
        }
        assert(front.push(clients.last()) =~= clients);
        front.lemma_filter_push(clients.last(), pred);
    } else {
        assert(clients.filter(pred) =~= clients) by {
            reveal(Seq::filter);
        }
    }
}

proof fn lemma_filter_removes(clients: Seq<ClientView>, id: u64, k: int)
    requires
        ids_unique(clients),
        0 <= k < clients.len(),
        clients[k].id == id,
    ensures
        clients.filter(|c: ClientView| c.id != id) == clients.remove(k),
    decreases clients.len(),
{
    let pred = |c: ClientView| c.id != id;
    let front = clients.drop_last();
    assert(front.push(clients.last()) =~= clients);
    front.lemma_filter_push(clients.last(), pred);
    if k == clients.len() - 1 {
        assert(!has_id(front, id)) by {
            if has_id(front, id) {
                let i = choose|i: int| 0 <= i < front.len() && front[i].id == id;
                assert(clients[i].id == clients[k].id);
            }
        }
        lemma_filter_keeps_all(front, id);
        assert(clients.remove(k) =~= front);
    } else {
        assert(ids_unique(front));
        lemma_filter_removes(front, id, k);
        assert(clients.last().id != id);
        assert(clients.remove(k) =~= front.remove(k).push(clients.last()));
    }
}

/// An id handed out by the counter, below which every registered id lies,
/// is registered nowhere; registering a client under it keeps the ids
/// unique, and below the advanced counter unless the counter wraps.
pub proof fn lemma_fresh_id_keeps_ids_unique(clients: Seq<ClientView>, next: u64, client: ClientView)
    requires
        ids_unique(clients),
        forall|i: int| 0 <= i < clients.len() ==> #[trigger] clients[i].id < next,
        client.id == next,
    ensures
        !has_id(clients, next),
        ids_unique(clients.push(client)),
        next < u64::MAX ==> forall|i: int|
            0 <= i < clients.len() + 1 ==> #[trigger] clients.push(client)[i].id < next_after(next),
{
    assert(!has_id(clients, next)) by {
        if has_id(clients, next) {
            let i = choose|i: int| 0 <= i < clients.len() && clients[i].id == next;
            assert(clients[i].id < next);
        }
    }
    let s = clients.push(client);
    assert forall|i: int, j: int|
        0 <= i < s.len() && 0 <= j < s.len() && i != j implies s[i].id != s[j].id by {
        if i < clients.len() && j < clients.len() {
            assert(s[i] == clients[i] && s[j] == clients[j]);
        } else if i < clients.len() {
            assert(s[i] == clients[i]);
            assert(clients[i].id < next);
        } else {
            assert(s[j] == clients[j]);
            assert(clients[j].id < next);
        }
    }
}

/// The clients of `clients` whose id is among `dead_ids`, in order.
pub open spec fn reported_among(clients: Seq<ClientView>, dead_ids: Seq<u64>) -> Seq<ClientView> {
    clients.filter(|c: ClientView| dead_ids.contains(c.id))
}

/// After clients are found dead, every client still registered is one of
/// those reported dead.
pub proof fn lemma_remove_multiple_keeps_only_reported(clients: Seq<ClientView>, dead_ids: Seq<u64>)
    ensures
        forall|i: int|
            0 <= i < reported_among(clients, dead_ids).len() ==> dead_ids.contains(
                #[trigger] reported_among(clients, dead_ids)[i].id,
            ),
{
    let pred = |c: ClientView| dead_ids.contains(c.id);
    assert forall|i: int| 0 <= i < reported_among(clients, dead_ids).len() implies dead_ids.contains(
        reported_among(clients, dead_ids)[i].id,
    ) by {
        clients.lemma_filter_pred(pred, i);
    }
}

/// The change recorded when a client leaves.
pub open spec fn exit_change() -> NetworkChange {
    NetworkChange { change_type: NetworkChangeType::ExitNetwork, client: None }
}

/// The change recorded when a client joins.
pub open spec fn join_change() -> NetworkChange {
    NetworkChange { change_type: NetworkChangeType::JoinNetwork, client: None }
}

/// The change that `NetworkChange::new` builds for `client` and `kind`.
fn change_for(kind: NetworkChangeType, client: &WeakClient) -> (change: NetworkChange)
    requires
        kind != NetworkChangeType::ServerShutdown,
    ensures
        change_of(kind, true) == Ok::<NetworkChange, NetworkChangeMessageError>(change),
{
    let record = client.to_client();
    match NetworkChange::new(kind, Some(&record)) {
        Ok(change) => change,
        Err(_) => vstd::pervasive::unreached(),
    }
}

/// The ids of `clients`, in order.
pub open spec fn ids_of<T: GetId>(clients: Seq<T>) -> Seq<u64> {
    clients.map_values(|c: T| c.spec_id())
}

/// The ids of the checked clients whose check reported them dead.
pub open spec fn reported_dead(checked: Seq<ClientView>, dead: Seq<bool>) -> Seq<u64>
    decreases checked.len(),
{
    if checked.len() == 0 {
        Seq::empty()
    } else {
        let rest = reported_dead(checked.drop_last(), dead);
        if dead[checked.len() - 1] {
            rest.push(checked.last().id)
        } else {
            rest
        }
    }
}

/// Whether some checked client whose check said dead has the id `id`.
pub open spec fn was_reported_dead(checked: Seq<ClientView>, dead: Seq<bool>, id: u64) -> bool {
    exists|i: int| 0 <= i < checked.len() && dead[i] && checked[i].id == id
}

/// The reported-dead ids are exactly the ids of the checked clients whose
/// check said dead: every such client is among them, the first one as much as
/// any, and each of them is such a client; there are no more of them than
/// clients checked.
pub proof fn lemma_reported_dead_are_the_dead(checked: Seq<ClientView>, dead: Seq<bool>)
    requires
        checked.len() <= dead.len(),
    ensures
        forall|i: int|
            0 <= i < checked.len() && dead[i] ==> reported_dead(checked, dead).contains(
                #[trigger] checked[i].id,
            ),
        forall|k: int|
            0 <= k < reported_dead(checked, dead).len() ==> was_reported_dead(
                checked,
                dead,
                #[trigger] reported_dead(checked, dead)[k],
            ),
        reported_dead(checked, dead).len() <= checked.len(),
    decreases checked.len(),
{
    if checked.len() > 0 {
        let front = checked.drop_last();
        let rest = reported_dead(front, dead);
        let all = reported_dead(checked, dead);
        lemma_reported_dead_are_the_dead(front, dead);
        assert forall|i: int| 0 <= i < checked.len() && dead[i] implies all.contains(
            #[trigger] checked[i].id,
        ) by {
            if i < checked.len() - 1 {
                assert(front[i] == checked[i]);
                assert(rest.contains(front[i].id));
                let k = choose|k: int| 0 <= k < rest.len() && rest[k] == front[i].id;
                assert(all[k] == rest[k]);
            } else {
                assert(all[all.len() - 1] == checked[i].id);
            }
        }
        assert forall|k: int| 0 <= k < all.len() implies was_reported_dead(
            checked,
            dead,
            #[trigger] all[k],
        ) by {
            if k < rest.len() {
                assert(all[k] == rest[k]);
                assert(was_reported_dead(front, dead, rest[k]));
                let i = choose|i: int| 0 <= i < front.len() && dead[i] && front[i].id == rest[k];
                assert(front[i] == checked[i]);
                assert(0 <= i < checked.len() && dead[i] && all[k] == checked[i].id);
            } else {
                let i = checked.len() - 1;
                assert(dead[i]);
                assert(all[k] == checked[i].id);
                assert(0 <= i < checked.len() && dead[i] && all[k] == checked[i].id);
            }
        }
    }
}

/// A vibe check keeps registered exactly the registered clients whose id
/// some check reported dead: the first checked client as much as any.
pub proof fn lemma_vibe_check_keeps_the_dead(
    clients: Seq<ClientView>,
    checked: Seq<ClientView>,
    dead: Seq<bool>,
    i: int,
)
    requires
        checked.len() == dead.len(),
        0 <= i < checked.len(),
        dead[i],
        has_id(clients, checked[i].id),
    ensures
        has_id(reported_among(clients, reported_dead(checked, dead)), checked[i].id),
{
    lemma_reported_dead_are_the_dead(checked, dead);
    let ids = reported_dead(checked, dead);
    let pred = |c: ClientView| ids.contains(c.id);
    let j = choose|j: int| 0 <= j < clients.len() && clients[j].id == checked[i].id;
    assert(ids.contains(checked[i].id));
    assert(pred(clients[j]));
    clients.lemma_filter_contains(pred, j);
    let kept = clients.filter(pred);
    let k = choose|k: int| 0 <= k < kept.len() && kept[k] == clients[j];
    assert(kept[k].id == checked[i].id);
}

/// Where a client has id `id`, `first_with_id` names the first such.
pub proof fn lemma_first_exists(clients: Seq<ClientView>, id: u64, j: int)
    requires
        0 <= j < clients.len(),
        clients[j].id == id,
    ensures
        is_first_with_id(clients, id, first_with_id(clients, id)),
    decreases j,
{
    if exists|k: int| 0 <= k < j && clients[k].id == id {
        let k = choose|k: int| 0 <= k < j && clients[k].id == id;
        lemma_first_exists(clients, id, k);
    } else {
        assert(is_first_with_id(clients, id, j));
    }
}

/// Removing the first client with one id leaves every other id as
/// registered as it was, and registers nothing new.
pub proof fn lemma_without_first_other_ids(clients: Seq<ClientView>, removed: u64, x: u64)
    ensures
        has_id(without_first(clients, removed), x) ==> has_id(clients, x),
        x != removed ==> (has_id(without_first(clients, removed), x) <==> has_id(clients, x)),
{
    if has_id(clients, removed) {
        let j = choose|j: int| 0 <= j < clients.len() && clients[j].id == removed;
        lemma_first_exists(clients, removed, j);
        let k = first_with_id(clients, removed);
        let r = clients.remove(k);
        if has_id(r, x) {
            let i = choose|i: int| 0 <= i < r.len() && r[i].id == x;
            if i < k {
                assert(r[i] == clients[i]);
            } else {
                assert(r[i] == clients[i + 1]);
            }
        }
        if x != removed && has_id(clients, x) {
            let i = choose|i: int| 0 <= i < clients.len() && clients[i].id == x;
            assert(i != k);
            if i < k {
                assert(r[i] == clients[i]);
            } else {
                assert(r[i - 1] == clients[i]);
            }
        }
    }
}

/// After an update, every client whose update failed and that was
/// registered had its id given back for disconnecting; where no two clients
/// shared an id, no client whose update failed is registered any more, and
/// ids stay unique. Every id given back is that of a client whose update
/// failed.
pub proof fn lemma_failed_updates_are_unregistered(
    clients: Seq<ClientView>,
    updated: Seq<ClientView>,
    succeeded: Seq<bool>,
    n: nat,
)
    requires
        n <= updated.len(),
        n <= succeeded.len(),
    ensures
        forall|i: int|
            0 <= i < n && !succeeded[i] && has_id(clients, #[trigger] updated[i].id)
                ==> removed_by_updates(clients, updated, succeeded, n).contains(updated[i].id),
        ids_unique(clients) ==> ids_unique(after_updates(clients, updated, succeeded, n)),
        ids_unique(clients) ==> forall|i: int|
            0 <= i < n && !succeeded[i] ==> !has_id(
                after_updates(clients, updated, succeeded, n),
                #[trigger] updated[i].id,
            ),
        forall|x: u64|
            has_id(clients, x) && !has_id(after_updates(clients, updated, succeeded, n), x)
                ==> #[trigger] removed_by_updates(clients, updated, succeeded, n).contains(x),
        forall|k: int|
            0 <= k < removed_by_updates(clients, updated, succeeded, n).len() ==> exists|i: int|
                0 <= i < n && !succeeded[i] && #[trigger] removed_by_updates(
                    clients,
                    updated,
                    succeeded,
                    n,
                )[k] == updated[i].id,
    decreases n,
{
    if n > 0 {
        let m = (n - 1) as nat;
        lemma_failed_updates_are_unregistered(clients, updated, succeeded, m);
        let before = after_updates(clients, updated, succeeded, m);
        let after = after_updates(clients, updated, succeeded, n);
        let rest = removed_by_updates(clients, updated, succeeded, m);
        let all = removed_by_updates(clients, updated, succeeded, n);
        let y = updated[m as int].id;
        assert(rest.len() <= all.len());
        assert forall|k: int| 0 <= k < rest.len() implies all[k] == rest[k] by {}
        assert forall|x: u64| has_id(clients, x) && !has_id(after, x) implies #[trigger] all.contains(
            x,
        ) by {
            lemma_without_first_other_ids(before, y, x);
            if !has_id(before, x) {
                assert(rest.contains(x));
                let k = choose|k: int| 0 <= k < rest.len() && rest[k] == x;
                assert(all[k] == x);
            } else {
                assert(!succeeded[m as int] && x == y);
                assert(all[all.len() - 1] == x);
            }
        }
        assert forall|i: int|
            0 <= i < n && !succeeded[i] && has_id(clients, #[trigger] updated[i].id) implies all.contains(
            updated[i].id,
        ) by {
            let x = updated[i].id;
            if i < m {
                assert(rest.contains(x));
                let k = choose|k: int| 0 <= k < rest.len() && rest[k] == x;
                assert(all[k] == x);
            } else {
                lemma_without_first_other_ids(before, y, x);
                if has_id(before, x) {
                    assert(all[all.len() - 1] == x);
                } else {
                    assert(has_id(clients, x) && !has_id(before, x));
                    assert(rest.contains(x));
                    let k = choose|k: int| 0 <= k < rest.len() && rest[k] == x;
                    assert(all[k] == x);
                }
            }
        }
        assert forall|k: int| 0 <= k < all.len() implies exists|i: int|
            0 <= i < n && !succeeded[i] && #[trigger] all[k] == updated[i].id by {
            if k < rest.len() {
                assert(all[k] == rest[k]);
            } else {
                assert(all[k] == updated[m as int].id);
            }
        }
        if ids_unique(clients) {
            lemma_removed_client_is_gone(before, y);
            assert forall|i: int| 0 <= i < n && !succeeded[i] implies !has_id(
                after,
                #[trigger] updated[i].id,
            ) by {
                lemma_without_first_other_ids(before, y, updated[i].id);
            }
        }
    }
}

/// The registry after the first `n` updated clients were handled: each whose
/// update failed is unregistered.
pub open spec fn after_updates(
    clients: Seq<ClientView>,
    updated: Seq<ClientView>,
    succeeded: Seq<bool>,
    n: nat,
) -> Seq<ClientView>
    decreases n,
{
    if n == 0 {
        clients
    } else {
        let before = after_updates(clients, updated, succeeded, (n - 1) as nat);
        if succeeded[n - 1] {
            before
        } else {
            without_first(before, updated[n - 1].id)
        }
    }
}

/// The ids of the clients that were unregistered while the first `n`
/// updated clients were handled.
pub open spec fn removed_by_updates(
    clients: Seq<ClientView>,
    updated: Seq<ClientView>,
    succeeded: Seq<bool>,
    n: nat,
) -> Seq<u64>
    decreases n,
{
    if n == 0 {
        Seq::empty()
    } else {
        let before = after_updates(clients, updated, succeeded, (n - 1) as nat);
        let removed = removed_by_updates(clients, updated, succeeded, (n - 1) as nat);
        if !succeeded[n - 1] && has_id(before, updated[n - 1].id) {
            removed.push(updated[n - 1].id)
        } else {
            removed
        }
    }
}

/// Whether some client of `clients` has the id `id`.
fn contains_id<T: GetId>(clients: &Vec<T>, id: u64) -> (found: bool)
    ensures
        found == ids_of(clients@).contains(id),
{
    let mut i: usize = 0;
    while i < clients.len()
        invariant
            0 <= i <= clients.len(),
            forall|j: int| 0 <= j < i ==> clients@[j].spec_id() != id,
        decreases clients.len() - i,
    {
        if clients[i].get_id() == id {
            assert(ids_of(clients@)[i as int] == id);
            return true;
        }
        i = i + 1;
    }
    assert forall|j: int| 0 <= j < ids_of(clients@).len() implies ids_of(clients@)[j] != id by {
        assert(ids_of(clients@)[j] == clients@[j].spec_id());
    }
    false
}

/// The clients registered with the server, in the order in which they
/// joined, and the counter their ids come from.
pub struct KnownClients {
    registered_clients: Vec<RegisteredClient>,
    id: IdCounter,
}

impl View for KnownClients {
    type V = Seq<ClientView>;

    closed spec fn view(&self) -> Seq<ClientView> {
        self.registered_clients@.map_values(|c: RegisteredClient| c@)
    }
}

impl KnownClients {
    /// The id the next client will get.
    pub closed spec fn next_id_value(&self) -> u64 {
        self.id@
    }

    /// No client yet; the first id is 0.
    pub fn create() -> (k: KnownClients)
        ensures
            k@ == Seq::<ClientView>::empty(),
            k.next_id_value() == 0,
    {
        let k = KnownClients { registered_clients: Vec::new(), id: IdCounter::new() };
        assert(k@ =~= Seq::<ClientView>::empty());
        k
    }

    /// The public parts of the registered clients, in order.
    pub fn to_weak(&self) -> (weak: Vec<WeakClient>)
        ensures
            weak@.map_values(|w: WeakClient| w@) == self@,
    {
        let mut weak_clients: Vec<WeakClient> = Vec::new();
        let mut i: usize = 0;
        while i < self.registered_clients.len()
            invariant
                0 <= i <= self.registered_clients.len(),
                self@ == self.registered_clients@.map_values(|c: RegisteredClient| c@),
                weak_clients@.map_values(|w: WeakClient| w@) =~= self@.take(i as int),
            decreases self.registered_clients.len() - i,
        {
            weak_clients.push(self.registered_clients[i].weak());
            assert(self@.take(i + 1) =~= self@.take(i as int).push(self@[i as int]));
            i = i + 1;
        }
        assert(self@.take(self@.len() as int) =~= self@);
        weak_clients
    }

    /// Takes the id for a new client.
    pub fn next_id(&mut self) -> (id: u64)
        ensures
            id == old(self).next_id_value(),
            final(self).next_id_value() == next_after(old(self).next_id_value()),
            final(self)@ == old(self)@,
    {
        self.id.fetch_add()
    }

    /// The first position of a client with id `id`.
    fn position(&self, id: u64) -> (pos: Option<usize>)
        ensures
            match pos {
                Some(i) => is_first_with_id(self@, id, i as int),
                None => !has_id(self@, id),
            },
    {
        let mut i: usize = 0;
        while i < self.registered_clients.len()
            invariant
                0 <= i <= self.registered_clients.len(),
                self@ == self.registered_clients@.map_values(|c: RegisteredClient| c@),
                forall|j: int| 0 <= j < i ==> self@[j].id != id,
            decreases self.registered_clients.len() - i,
        {
            if self.registered_clients[i].id == id {
                return Some(i);
            }
            i = i + 1;
        }
        None
    }

    /// Registers `client` after the others and records that it joined.
    pub fn add(&mut self, client: RegisteredClient, log: &mut NetworkChanges)
        ensures
            final(self)@ == old(self)@.push(client@),
            final(self).next_id_value() == old(self).next_id_value(),
            final(log)@ == old(log)@.push(join_change()),
    {
        let weak = client.weak();
        let change = change_for(NetworkChangeType::JoinNetwork, &weak);
        let ghost before = self@;
        self.registered_clients.push(client);
        assert(self@ =~= before.push(client@));
        log.add(change);
    }

    /// Whether a client with the id of `client` is registered.
    pub fn check_if_exists<T: GetId>(&self, client: &T) -> (found: bool)
        ensures
            found == has_id(self@, client.spec_id()),
    {
        let id = client.get_id();
        match self.position(id) {
            Some(i) => {
                proof {
                    lemma_first_with_id(self@, id, i as int);
                }
                true
            },
            None => false,
        }
    }

    /// Unregisters the first client with the id of `client`, and records
    /// that it left. Tells whether there was such a client; the caller then
    /// tells that client's handler to disconnect.
    pub fn remove<T: GetId + GetWeak>(&mut self, client: &T, log: &mut NetworkChanges) -> (removed: bool)
        ensures
            removed == has_id(old(self)@, client.spec_id()),
            final(self)@ == without_first(old(self)@, client.spec_id()),
            final(self).next_id_value() == old(self).next_id_value(),
            final(log)@ == if removed {
                old(log)@.push(exit_change())
            } else {
                old(log)@
            },
    {
        let id = client.get_id();
        match self.position(id) {
            None => false,
            Some(pos) => {
                proof {
                    lemma_first_with_id(self@, id, pos as int);
                }
                let weak = client.weak();
                let change = change_for(NetworkChangeType::ExitNetwork, &weak);
                let ghost before = self@;
                self.registered_clients.remove(pos);
                assert(self@ =~= before.remove(pos as int));
                log.add(change);
                true
            },
        }
    }

    /// Handles clients found dead: records that each of `dead_clients` left,
    /// and keeps registered exactly the clients whose id is among
    /// `dead_clients`, whose handlers the caller tells to disconnect: it gives
    /// their ids, in the order of the registry.
    pub fn remove_multiple<T: GetId + GetWeak>(
        &mut self,
        dead_clients: &Vec<T>,
        log: &mut NetworkChanges,
    ) -> (disconnected: Vec<u64>)
        ensures
            final(log)@ == old(log)@ + Seq::new(dead_clients@.len(), |i: int| exit_change()),
            final(self)@ == reported_among(old(self)@, ids_of(dead_clients@)),
            disconnected@ == final(self)@.map_values(|c: ClientView| c.id),
            final(self).next_id_value() == old(self).next_id_value(),
    {
        let mut changes: Vec<NetworkChange> = Vec::new();
        let mut i: usize = 0;
        while i < dead_clients.len()
            invariant
                0 <= i <= dead_clients.len(),
                changes@ =~= Seq::new(i as nat, |k: int| exit_change()),
            decreases dead_clients.len() - i,
        {
            let weak = dead_clients[i].weak();
            changes.push(change_for(NetworkChangeType::ExitNetwork, &weak));
            i = i + 1;
        }
        let ghost before = self@;
        let ghost keep = |c: ClientView| ids_of(dead_clients@).contains(c.id);
        let mut kept: Vec<RegisteredClient> = Vec::new();
        let mut disconnected: Vec<u64> = Vec::new();
        let mut j: usize = 0;
        while j < self.registered_clients.len()
            invariant
                0 <= j <= self.registered_clients.len(),
                before == self@,
                self@ == self.registered_clients@.map_values(|c: RegisteredClient| c@),
                keep == (|c: ClientView| ids_of(dead_clients@).contains(c.id)),
                kept@.map_values(|c: RegisteredClient| c@) =~= before.take(j as int).filter(keep),
                disconnected@ =~= kept@.map_values(|c: RegisteredClient| c@).map_values(
                    |c: ClientView| c.id,
                ),
            decreases self.registered_clients.len() - j,
        {
            assert(before.take(j + 1) =~= before.take(j as int).push(before[j as int]));
            proof {
                before.take(j as int).lemma_filter_push(before[j as int], keep);
            }
            let c = &self.registered_clients[j];
            let found = contains_id(dead_clients, c.id);
            assert(before[j as int] == c@);
            assert(keep(before[j as int]) == found);
            assert(before.take(j + 1).filter(keep) == if found {
                before.take(j as int).filter(keep).push(before[j as int])
            } else {
                before.take(j as int).filter(keep)
            });
            if found {
                disconnected.push(c.id);
                kept.push(c.copied());
            }
            j = j + 1;
        }
        assert(before.take(before.len() as int) =~= before);
        self.registered_clients = kept;
        log.add_multiple(changes);
        disconnected
    }

    /// The client to ask whether the client with the id of `client` is
    /// dead: its id, or `NotFound` where no such client is registered.
    pub fn check_if_dead<T: GetId>(&self, client: &T) -> (target: Result<u64, CheckIfDeadError>)
        ensures
            has_id(self@, client.spec_id()) ==> (target matches Ok(id) && id == client.spec_id()),
            !has_id(self@, client.spec_id()) ==> target matches Err(CheckIfDeadError::NotFound),
    {
        let id = client.get_id();
        match self.position(id) {
            Some(i) => {
                proof {
                    lemma_first_with_id(self@, id, i as int);
                }
                Ok(id)
            },
            None => Err(CheckIfDeadError::NotFound),
        }
    }

    /// Ends a check of every client: `checked` are the clients that were
    /// asked, `dead[i]` tells whether `checked[i]` was found dead. The clients
    /// found dead are handled as `remove_multiple` handles them.
    pub fn vibe_check(
        &mut self,
        checked: &Vec<WeakClient>,
        dead: &Vec<bool>,
        log: &mut NetworkChanges,
    ) -> (disconnected: Vec<u64>)
        requires
            checked.len() == dead.len(),
        ensures
            final(log)@ == old(log)@ + Seq::new(
                reported_dead(checked@.map_values(|w: WeakClient| w@), dead@).len(),
                |i: int| exit_change(),
            ),
            final(self)@ == reported_among(
                old(self)@,
                reported_dead(checked@.map_values(|w: WeakClient| w@), dead@),
            ),
            disconnected@ == final(self)@.map_values(|c: ClientView| c.id),
            final(self).next_id_value() == old(self).next_id_value(),
    {
        let ghost views = checked@.map_values(|w: WeakClient| w@);
        let mut dead_clients: Vec<WeakClient> = Vec::new();
        let mut i: usize = 0;
        while i < checked.len()
            invariant
                0 <= i <= checked.len(),
                checked.len() == dead.len(),
                views == checked@.map_values(|w: WeakClient| w@),
                ids_of(dead_clients@) =~= reported_dead(views.take(i as int), dead@),
            decreases checked.len() - i,
        {
            assert(views.take(i + 1).drop_last() =~= views.take(i as int));
            if dead[i] {
                dead_clients.push(checked[i].weak());
            }
            i = i + 1;
        }
        assert(views.take(views.len() as int) =~= views);
        self.remove_multiple(&dead_clients, log)
    }

    /// Ends an update of every client: `updated` are the clients that were
    /// sent the update, `succeeded[i]` tells whether `updated[i]` took it.
    /// Each client whose update failed is removed, in order, as `remove`
    /// removes it; the ids of those actually removed come back, for their
    /// handlers to be told to disconnect.
    pub fn update_clients(
        &mut self,
        updated: &Vec<WeakClient>,
        succeeded: &Vec<bool>,
        log: &mut NetworkChanges,
    ) -> (disconnected: Vec<u64>)
        requires
            updated.len() == succeeded.len(),
        ensures
            final(self)@ == after_updates(
                old(self)@,
                updated@.map_values(|w: WeakClient| w@),
                succeeded@,
                updated.len() as nat,
            ),
            disconnected@ == removed_by_updates(
                old(self)@,
                updated@.map_values(|w: WeakClient| w@),
                succeeded@,
                updated.len() as nat,
            ),
            final(log)@ == old(log)@ + Seq::new(disconnected@.len(), |i: int| exit_change()),
            final(self).next_id_value() == old(self).next_id_value(),
    {
        let ghost start = self@;
        let ghost start_log = log@;
        let ghost views = updated@.map_values(|w: WeakClient| w@);
        let mut disconnected: Vec<u64> = Vec::new();
        let mut i: usize = 0;
        while i < updated.len()
            invariant
                0 <= i <= updated.len(),
                updated.len() == succeeded.len(),
                views == updated@.map_values(|w: WeakClient| w@),
                self@ == after_updates(start, views, succeeded@, i as nat),
                disconnected@ == removed_by_updates(start, views, succeeded@, i as nat),
                log@ =~= start_log + Seq::new(disconnected@.len(), |k: int| exit_change()),
                self.next_id_value() == old(self).next_id_value(),
            decreases updated.len() - i,
        {
            if !succeeded[i] {
                let removed = self.remove(&updated[i], log);
                if removed {
                    disconnected.push(updated[i].get_id());
                }
            }
            i = i + 1;
        }
        disconnected
    }

    /// The state of the network: every registered client.
    pub fn get_network_state(&self) -> (m: NetworkStateMessage)
        ensures
            m.clients@.map_values(|c: Client| c@) == self@,
            m.response_type == MessageType::GetNetworkState,
            m.status == Status::Success,
            m.error is None,
    {
        let weak = self.to_weak();
        let mut clients: Vec<Client> = Vec::new();
        let mut i: usize = 0;
        while i < weak.len()
            invariant
                0 <= i <= weak.len(),
                weak@.map_values(|w: WeakClient| w@) == self@,
                clients@.map_values(|c: Client| c@) =~= self@.take(i as int),
            decreases weak.len() - i,
        {
            clients.push(weak[i].to_client());
            assert(self@[i as int] == weak@[i as int]@);
            assert(self@.take(i + 1) =~= self@.take(i as int).push(self@[i as int]));
            i = i + 1;
        }
        assert(self@.take(self@.len() as int) =~= self@);
        NetworkStateMessage::new(clients)
    }
}

} // verus!
