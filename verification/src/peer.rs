//! Peers of this node: their addresses and the book of known peers.
use vstd::prelude::*;
use vstd::string::*;
use vstd::std_specs::cmp::PartialEqSpecImpl;
use crate::text::{digit_value, digits_value, is_digit, unsigned_digits, unsigned_value};

verus! {

/// `regex::Error`, the error of a pattern that does not compile.
#[verifier::external_type_specification]
#[verifier::external_body]
pub struct ExRegexError(regex::Error);

/// Whether `regex::Regex::new` accepts `pattern`.
pub uninterp spec fn regex_compiles(pattern: Seq<char>) -> bool;

/// What `regex::Regex::is_match` answers, for the regex compiled from
/// `pattern`, on `haystack`.
pub uninterp spec fn regex_is_match(pattern: Seq<char>, haystack: Seq<char>) -> bool;

/// Compiles `pattern` with `regex::Regex::new` and, when that succeeds, asks
/// `Regex::is_match` whether it matches `haystack`. The contract claims that
/// success depends on the pattern alone, and that the answer is a function of
/// the pattern and the haystack; it says nothing of which patterns compile or
/// of what they match.
#[verifier::external_body]
fn regex_match(pattern: &str, haystack: &str) -> (res: Result<bool, regex::Error>)
    ensures
        res is Ok <==> regex_compiles(pattern@),
        res matches Ok(b) ==> b == regex_is_match(pattern@, haystack@),
{
    match regex::Regex::new(pattern) {
        Ok(re) => Ok(re.is_match(haystack)),
        Err(e) => Err(e),
    }
}

/// The pattern that a dotted IPv4 address must match.
pub const IPV4_PATTERN: &'static str = r"^((25[0-5]|(2[0-4]|1\d|[1-9]|)\d)\.?\b){4}$";

/// The character of the decimal digit `d`.
pub open spec fn digit_char(d: nat) -> char {
    (48 + d) as char
}

/// The decimal text of `n`, without leading zeros.
pub open spec fn decimal_text(n: nat) -> Seq<char>
    decreases n,
{
    if n < 10 {
        seq![digit_char(n)]
    } else {
        decimal_text(n / 10).push(digit_char(n % 10))
    }
}

proof fn lemma_digit_char(d: nat)
    requires
        d < 10,
    ensures
        is_digit(digit_char(d)),
        digit_value(digit_char(d)) == d,
{
    assert(digit_char(d) as u32 == 48 + d);
}

proof fn lemma_decimal_text_digits(n: nat)
    ensures
        decimal_text(n).len() > 0,
        forall|i: int| 0 <= i < decimal_text(n).len() ==> is_digit(#[trigger] decimal_text(n)[i]),
        digits_value(decimal_text(n)) == n,
    decreases n,
{
    lemma_digit_char(n % 10);
    if n < 10 {
        assert(decimal_text(n).drop_last() =~= Seq::<char>::empty());
        assert(decimal_text(n).last() == digit_char(n));
        assert(n % 10 == n);
        assert(digits_value(Seq::<char>::empty()) == 0);
        assert(digits_value(decimal_text(n)) == digits_value(decimal_text(n).drop_last()) * 10
            + digit_value(decimal_text(n).last()));
    } else {
        lemma_decimal_text_digits(n / 10);
        let s = decimal_text(n / 10);
        assert(decimal_text(n).drop_last() =~= s);
        assert(decimal_text(n).last() == digit_char(n % 10));
        assert((n / 10) * 10 + n % 10 == n) by (nonlinear_arith);
        assert(digits_value(decimal_text(n)) == digits_value(s) * 10 + digit_value(
            digit_char(n % 10),
        ));
    }
}

/// The decimal text of a number reads back as that number.
pub proof fn lemma_decimal_text_reads_back(n: nat)
    ensures
        unsigned_value(decimal_text(n)) == Some(n),
{
    lemma_decimal_text_digits(n);
    let s = decimal_text(n);
    assert(s[0] != '+');
    assert(unsigned_digits(s) == s);
}

fn digit_str(d: u16) -> (s: &'static str)
    requires
        d < 10,
    ensures
        s@ == seq![digit_char(d as nat)],
{
    proof {
        reveal_strlit("0");
        reveal_strlit("1");
        reveal_strlit("2");
        reveal_strlit("3");
        reveal_strlit("4");
        reveal_strlit("5");
        reveal_strlit("6");
        reveal_strlit("7");
        reveal_strlit("8");
        reveal_strlit("9");
    }
    match d {
        0 => "0",
        1 => "1",
        2 => "2",
        3 => "3",
        4 => "4",
        5 => "5",
        6 => "6",
        7 => "7",
        8 => "8",
        _ => "9",
    }
}

/// Appends the decimal text of `n` to `out`.
pub fn push_decimal(out: &mut String, n: u16)
    ensures
        final(out)@ == old(out)@ + decimal_text(n as nat),
    decreases n,
{
    if n >= 10 {
        push_decimal(out, n / 10);
    }
    out.append(digit_str(n % 10));
    assert(decimal_text(n as nat) =~= if n < 10 {
        seq![digit_char(n as nat)]
    } else {
        decimal_text((n / 10) as nat).push(digit_char((n % 10) as nat))
    });
}

/// The errors of building an address.
#[derive(Debug)]
pub enum AddressError {
    WrongAddr,
    WrongPort,
}

impl AddressError {
    /// The text shown for every address error.
    pub fn to_string(&self) -> (s: String)
        ensures
            s@ == "Oh no, something bad went down"@,
    {
        String::from_str("Oh no, something bad went down")
    }
}

/// What an address is: its text and its port.
pub struct AddressView {
    pub addr: Seq<char>,
    pub port: u16,
}

/// The address of a peer: an IPv4 address as text, and a port.
#[derive(Debug, Clone, Eq, Hash)]
pub struct Address {
    addr: String,
    port: u16,
}

impl View for Address {
    type V = AddressView;

    closed spec fn view(&self) -> AddressView {
        AddressView { addr: self.addr@, port: self.port }
    }
}

impl PartialEq for Address {
    fn eq(&self, other: &Self) -> (r: bool) {
        self.addr == other.addr && self.port == other.port
    }
}

impl PartialEqSpecImpl for Address {
    open spec fn obeys_eq_spec() -> bool {
        true
    }

    open spec fn eq_spec(&self, other: &Self) -> bool {
        self@ == other@
    }
}

impl Address {
    /// Builds the address once the text has been checked against
    /// `IPV4_PATTERN`: `matched` is the answer of that check.
    pub fn from_match(addr: String, port: u16, matched: bool) -> (res: Result<Address, AddressError>)
        ensures
            matched ==> (res matches Ok(a) && a@ == (AddressView { addr: addr@, port })),
            !matched ==> res matches Err(AddressError::WrongAddr),
    {
        if !matched {
            return Err(AddressError::WrongAddr);
        }
        Ok(Address { addr, port })
    }

    /// Builds an address from `addr` and `port` when `addr` matches
    /// `IPV4_PATTERN`; otherwise, and should the pattern not compile, the
    /// error is `WrongAddr`.
    pub fn new(addr: String, port: u16) -> (res: Result<Address, AddressError>)
        ensures
            (regex_compiles(IPV4_PATTERN@) && regex_is_match(IPV4_PATTERN@, addr@)) ==> (
            res matches Ok(a) && a@ == (AddressView { addr: addr@, port })),
            !(regex_compiles(IPV4_PATTERN@) && regex_is_match(IPV4_PATTERN@, addr@)) ==> res matches Err(
                AddressError::WrongAddr,
            ),
    {
        let matched = match regex_match(IPV4_PATTERN, addr.as_str()) {
            Ok(b) => b,
            Err(_) => false,
        };
        Address::from_match(addr, port, matched)
    }

    /// An address from its parts as they were read from a peer, without the
    /// check of `new`.
    pub fn from_parts(addr: String, port: u16) -> (a: Address)
        ensures
            a@ == (AddressView { addr: addr@, port }),
    {
        Address { addr, port }
    }

    pub fn get_port(&self) -> (p: u16)
        ensures
            p == self@.port,
    {
        self.port
    }

    pub fn get_addr(&self) -> (s: &str)
        ensures
            s@ == self@.addr,
    {
        self.addr.as_str()
    }

    fn copied(&self) -> (a: Address)
        ensures
            a@ == self@,
    {
        Address { addr: self.addr.clone(), port: self.port }
    }
}

/// The text `addr:port` of an address.
pub open spec fn address_text(a: AddressView) -> Seq<char> {
    a.addr + seq![':'] + decimal_text(a.port as nat)
}

/// The port at the end of a peer's address text, in decimal, reads back as
/// that port.
pub proof fn lemma_address_text_ends_in_port(a: AddressView)
    ensures
        unsigned_value(decimal_text(a.port as nat)) == Some(a.port as nat),
{
    lemma_decimal_text_reads_back(a.port as nat);
}

/// A peer of this node, known by its address.
#[derive(Debug, Clone, Eq, Hash)]
pub struct Peer {
    address: Address,
}

impl View for Peer {
    type V = AddressView;

    closed spec fn view(&self) -> AddressView {
        self.address@
    }
}

impl PartialEq for Peer {
    fn eq(&self, other: &Self) -> (r: bool) {
        self.address == other.address
    }
}

impl PartialEqSpecImpl for Peer {
    open spec fn obeys_eq_spec() -> bool {
        true
    }

    open spec fn eq_spec(&self, other: &Self) -> bool {
        self@ == other@
    }
}

impl Peer {
    pub fn new(address: Address) -> (p: Peer)
        ensures
            p@ == address@,
    {
        Peer { address }
    }

    /// The address of the peer.
    pub fn address(&self) -> (a: &Address)
        ensures
            a@ == self@,
    {
        &self.address
    }

    /// The peer's address as `addr:port`, the port in decimal.
    pub fn get_address(&self) -> (s: String)
        ensures
            s@ == address_text(self@),
    {
        let mut s = String::from_str(self.address.addr.as_str());
        proof {
            reveal_strlit(":");
        }
        s.append(":");
        push_decimal(&mut s, self.address.port);
        s
    }

    /// The text shown for a peer: its address as `addr:port`.
    pub fn to_string(&self) -> (s: String)
        ensures
            s@ == address_text(self@),
    {
        self.get_address()
    }

    /// A copy of the peer.
    pub fn copied(&self) -> (p: Peer)
        ensures
            p@ == self@,
    {
        Peer { address: self.address.copied() }
    }
}

/// The book of known peers: each address at most once, in the order in
/// which the peers became known.
pub struct KnownAddresses {
    peers: Vec<Peer>,
}

impl View for KnownAddresses {
    type V = Seq<AddressView>;

    closed spec fn view(&self) -> Seq<AddressView> {
        self.peers@.map_values(|p: Peer| p@)
    }
}

impl KnownAddresses {
    #[verifier::type_invariant]
    spec fn no_peer_twice(self) -> bool {
        self@.no_duplicates()
    }

    /// An empty book.
    pub fn new() -> (k: KnownAddresses)
        ensures
            k@ == Seq::<AddressView>::empty(),
    {
        let k = KnownAddresses { peers: Vec::new() };
        assert(k@ =~= Seq::<AddressView>::empty());
        k
    }

    /// Whether the book holds `peer`.
    pub fn contains(&self, peer: &Peer) -> (found: bool)
        ensures
            found == self@.contains(peer@),
    {
        let mut i: usize = 0;
        while i < self.peers.len()
            invariant
                0 <= i <= self.peers.len(),
                self@ == self.peers@.map_values(|p: Peer| p@),
                forall|j: int| 0 <= j < i ==> self@[j] != peer@,
            decreases self.peers.len() - i,
        {
            if self.peers[i] == *peer {
                assert(self@[i as int] == peer@);
                return true;
            }
            i = i + 1;
        }
        false
    }

    /// Copies of the known peers, in the order of the book.
    pub fn get_peers(&self) -> (peers: Vec<Peer>)
        ensures
            peers@.map_values(|p: Peer| p@) == self@,
    {
        let mut out: Vec<Peer> = Vec::new();
        let mut i: usize = 0;
        while i < self.peers.len()
            invariant
                0 <= i <= self.peers.len(),
                self@ == self.peers@.map_values(|p: Peer| p@),
                out@.map_values(|p: Peer| p@) =~= self@.take(i as int),
            decreases self.peers.len() - i,
        {
            out.push(self.peers[i].copied());
            assert(self@.take(i + 1) =~= self@.take(i as int).push(self@[i as int]));
            i = i + 1;
        }
        assert(self@.take(self@.len() as int) =~= self@);
        out
    }

    /// Adds `peer` unless the book already holds it; tells whether it was
    /// added.
    pub fn add_peer(&mut self, peer: Peer) -> (added: bool)
        ensures
            added == !old(self)@.contains(peer@),
            final(self)@ == book_after_add(old(self)@, peer@),
    {
        proof {
            use_type_invariant(&*self);
        }
        if self.contains(&peer) {
            return false;
        }
        let ghost before = self@;
        let mut peers: Vec<Peer> = Vec::new();
        std::mem::swap(&mut peers, &mut self.peers);
        peers.push(peer);
        assert(peers@.map_values(|p: Peer| p@) =~= before.push(peer@));
        self.peers = peers;
        true
    }
}

/// The book after `add_peer`: `peer` is added unless the book holds it.
pub open spec fn book_after_add(book: Seq<AddressView>, peer: AddressView) -> Seq<AddressView> {
    if book.contains(peer) {
        book
    } else {
        book.push(peer)
    }
}

/// Adding a peer forgets none: every peer known before is known after, the
/// added peer is known, nothing else becomes known, and a new peer grows the
/// book by exactly one while a known one leaves it unchanged.
pub proof fn lemma_add_peer_keeps_every_peer(book: Seq<AddressView>, peer: AddressView)
    ensures
        forall|p: AddressView| book.contains(p) ==> #[trigger] book_after_add(book, peer).contains(p),
        book_after_add(book, peer).contains(peer),
        forall|p: AddressView|
            #[trigger] book_after_add(book, peer).contains(p) ==> book.contains(p) || p == peer,
        !book.contains(peer) ==> book_after_add(book, peer).len() == book.len() + 1,
        book.contains(peer) ==> book_after_add(book, peer) == book,
        forall|i: int| 0 <= i < book.len() ==> #[trigger] book_after_add(book, peer)[i] == book[i],
{
    let b = book_after_add(book, peer);
    if !book.contains(peer) {
        assert(b[book.len() as int] == peer);
        assert forall|p: AddressView| book.contains(p) implies #[trigger] b.contains(p) by {
            let i = choose|i: int| 0 <= i < book.len() && book[i] == p;
            assert(b[i] == p);
        }
        assert forall|p: AddressView| #[trigger] b.contains(p) implies book.contains(p) || p == peer by {
            let i = choose|i: int| 0 <= i < b.len() && b[i] == p;
            if i < book.len() {
                assert(book[i] == p);
            }
        }
    }
}

/// Adding a peer twice adds it once: the book holds it after the first
/// addition, the second finds it there and changes nothing, and no peer is
/// held twice.
pub proof fn lemma_add_peer_twice(book: Seq<AddressView>, peer: AddressView)
    requires
        book.no_duplicates(),
    ensures
        book_after_add(book, peer).contains(peer),
        book_after_add(book_after_add(book, peer), peer) == book_after_add(book, peer),
        book_after_add(book, peer).no_duplicates(),
{
    if !book.contains(peer) {
        let b = book.push(peer);
        assert(b[book.len() as int] == peer);
        assert forall|i: int, j: int| 0 <= i < b.len() && 0 <= j < b.len() && i != j implies b[i]
            != b[j] by {
            if i < book.len() && j < book.len() {
            } else if i < book.len() {
                assert(book[i] == b[i]);
            } else {
                assert(book[j] == b[j]);
            }
        }
    }
}

} // verus!
