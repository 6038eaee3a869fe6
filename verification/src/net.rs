//! Message framing buffers, session messages, the port table of a host,
//! and the login reply exchanged when a connection is established.

use vstd::prelude::*;
use std::collections::HashMap;

verus! {

broadcast use vstd::std_specs::hash::group_hash_axioms;

/// An outgoing message being assembled: encoded values are appended one
/// after another.
pub struct Writer {
    buffer: Vec<u8>,
}

impl View for Writer {
    type V = Seq<u8>;

    closed spec fn view(&self) -> Seq<u8> {
        self.buffer@
    }
}

impl Writer {
    /// An empty message.
    pub fn new() -> (w: Self)
        ensures
            w@ == Seq::<u8>::empty(),
    {
        Writer { buffer: Vec::new() }
    }

    /// Appends the encoding of a value.
    pub fn write_bytes(&mut self, bytes: &[u8])
        ensures
            final(self)@ == old(self)@ + bytes@,
    {
        let mut i: usize = 0;
        while i < bytes.len()
            invariant
                i <= bytes@.len(),
                self@ == old(self)@ + bytes@.subrange(0, i as int),
            decreases bytes@.len() - i,
        {
            self.buffer.push(bytes[i]);
            assert(self@ =~= old(self)@ + bytes@.subrange(0, i + 1));
            i = i + 1;
        }
        assert(bytes@.subrange(0, bytes@.len() as int) =~= bytes@);
    }

    /// The bytes of the message.
    pub fn into_inner(self) -> (bytes: Vec<u8>)
        ensures
            bytes@ == self@,
    {
        self.buffer
    }
}

/// An incoming message being decoded: values are taken from the front.
pub struct Reader {
    bytes: Vec<u8>,
    pos: usize,
}

impl Reader {
    #[verifier::type_invariant]
    spec fn inv(&self) -> bool {
        self.pos <= self.bytes@.len()
    }
}

impl View for Reader {
    type V = Seq<u8>;

    /// The bytes not decoded yet.
    closed spec fn view(&self) -> Seq<u8> {
        self.bytes@.subrange(self.pos as int, self.bytes@.len() as int)
    }
}

impl Reader {
    /// A reader at the start of a received message.
    pub fn new(bytes: Vec<u8>) -> (r: Self)
        ensures
            r@ == bytes@,
    {
        let r = Reader { bytes, pos: 0 };
        assert(r@ =~= r.bytes@);
        r
    }

    /// The bytes not decoded yet.
    pub fn remaining(&self) -> (s: &[u8])
        ensures
            s@ == self@,
    {
        proof {
            use_type_invariant(self);
        }
        let all = self.bytes.as_slice();
        vstd::slice::slice_subrange(all, self.pos, all.len())
    }

    /// Marks the first `n` remaining bytes as decoded.
    pub fn advance(&mut self, n: usize)
        requires
            n <= old(self)@.len(),
        ensures
            final(self)@ == old(self)@.subrange(n as int, old(self)@.len() as int),
    {
        proof {
            use_type_invariant(&*self);
            assert(self.bytes@.len() == self.bytes.len());
        }
        self.pos = self.pos + n;
        assert(self@ =~= old(self)@.subrange(n as int, old(self)@.len() as int));
    }
}

/// What a session delivers to a service: a client connected, sent a
/// message, or disconnected.
#[derive(Debug)]
pub enum SessionMessage<I, M> {
    Connect(I),
    Message(I, M),
    Disconnect(I),
}

/// The receivers bound to the ports of a host.
pub struct Ports<R> {
    ports: HashMap<u16, R>,
}

impl<R> View for Ports<R> {
    type V = Map<u16, R>;

    closed spec fn view(&self) -> Map<u16, R> {
        self.ports@
    }
}

impl<R> Ports<R> {
    /// A host with no port bound.
    pub fn new() -> (p: Self)
        ensures
            p@ == Map::<u16, R>::empty(),
    {
        Ports { ports: HashMap::new() }
    }

    /// Binds `receiver` to `port` unless the port is taken; returns whether
    /// it was bound.
    pub fn bind(&mut self, port: u16, receiver: R) -> (bound: bool)
        ensures
            bound <==> !old(self)@.contains_key(port),
            bound ==> final(self)@ == old(self)@.insert(port, receiver),
            !bound ==> final(self)@ == old(self)@,
    {
        if self.ports.contains_key(&port) {
            false
        } else {
            self.ports.insert(port, receiver);
            true
        }
    }

    /// Frees `port`.
    pub fn release(&mut self, port: u16)
        ensures
            final(self)@ == old(self)@.remove(port),
    {
        self.ports.remove(&port);
    }

    /// The receiver bound to `port`, if any.
    pub fn get(&self, port: u16) -> (r: Option<&R>)
        ensures
            match r {
                Some(v) => self@.contains_key(port) && *v == self@[port],
                None => !self@.contains_key(port),
            },
    {
        self.ports.get(&port)
    }
}

/// A port can be bound only once until it is released; a released port can
/// be bound again, and a bound port delivers to the receiver bound to it.
pub proof fn lemma_bind_release<R>(m: Map<u16, R>, port: u16, r1: R, r2: R)
    requires
        !m.contains_key(port),
    ensures
        m.insert(port, r1).contains_key(port),
        m.insert(port, r1)[port] == r1,
        !m.insert(port, r1).remove(port).contains_key(port),
        m.insert(port, r1).remove(port).insert(port, r2)[port] == r2,
        m.insert(port, r1).remove(port) == m,
{
    assert(m.insert(port, r1).remove(port) =~= m);
}

/// Why a connection could not be established after the login exchange.
#[derive(PartialEq, Eq, Debug)]
pub enum EstablishConnectionError {
    /// The server's reply did not decode.
    Deserialize,
    /// The login result could not be encoded.
    Serialize,
    /// The server refused the token, for the reason given.
    TokenRejected(String),
}

/// A login result taken by the view of its reason.
pub open spec fn login_view(login: Result<u64, String>) -> Result<u64, Seq<char>> {
    match login {
        Ok(id) => Ok(id),
        Err(reason) => Err(reason@),
    }
}

/// A decoded reply taken by its view.
pub open spec fn reply_view(reply: Option<Result<u64, String>>) -> Option<Result<u64, Seq<char>>> {
    match reply {
        None => None,
        Some(login) => Some(login_view(login)),
    }
}

/// The login result that bincode decodes from the bytes of a reply, or
/// `None` when they do not decode.
pub uninterp spec fn spec_decode_reply(bytes: Seq<u8>) -> Option<Result<u64, Seq<char>>>;

/// The bytes that bincode encodes a login result into.
pub uninterp spec fn spec_encode_reply(login: Result<u64, Seq<char>>) -> Seq<u8>;

/// `bincode::deserialize::<Result<u64, String>>`: decodes a reply; a decoding
/// error becomes `None`. The contract claims only that the result is the
/// one named by `spec_decode_reply` for these bytes.
#[verifier::external_body]
fn decode_reply(bytes: &[u8]) -> (r: Option<Result<u64, String>>)
    ensures
        reply_view(r) == spec_decode_reply(bytes@),
{
    bincode::deserialize::<Result<u64, String>>(bytes).ok()
}

/// `bincode::serialize` of a login result; an encoding error becomes
/// `None`. The contract claims that encoding succeeds (with the default
/// options there is no size limit, and writing into a `Vec` does not fail),
/// that the bytes are those named by `spec_encode_reply`, and that bincode
/// decodes them back to the same result (as its documentation shows).
#[verifier::external_body]
fn encode_reply(login: &Result<u64, String>) -> (r: Option<Vec<u8>>)
    ensures
        r is Some,
        r matches Some(bytes) ==> bytes@ == spec_encode_reply(login_view(*login))
            && spec_decode_reply(bytes@) == Some(login_view(*login)),
{
    bincode::serialize(login).ok()
}

/// The client's side of the login exchange: decodes the server's reply.
/// Bytes that do not decode give `Deserialize`; a granted login gives its
/// connection id; a refused one gives `TokenRejected` with the server's
/// reason.
pub fn connect_outcome(reply: &[u8]) -> (r: Result<u64, EstablishConnectionError>)
    ensures
        match spec_decode_reply(reply@) {
            None => r == Err::<u64, EstablishConnectionError>(
                EstablishConnectionError::Deserialize,
            ),
            Some(Ok(id)) => r == Ok::<u64, EstablishConnectionError>(id),
            Some(Err(reason)) => r matches Err(EstablishConnectionError::TokenRejected(t))
                && t@ == reason,
        },
{
    match decode_reply(reply) {
        None => Err(EstablishConnectionError::Deserialize),
        Some(Ok(id)) => Ok(id),
        Some(Err(reason)) => Err(EstablishConnectionError::TokenRejected(reason)),
    }
}

/// The server's side of the login exchange: the reply that carries the
/// login result to the client, which decodes it back to that result.
/// Encoding a login result always succeeds.
pub fn login_reply(login: &Result<u64, String>) -> (r: Result<Vec<u8>, EstablishConnectionError>)
    ensures
        r is Ok,
        match r {
            Ok(bytes) => bytes@ == spec_encode_reply(login_view(*login)) && spec_decode_reply(
                bytes@,
            ) == Some(login_view(*login)),
            Err(e) => e == EstablishConnectionError::Serialize,
        },
{
    match encode_reply(login) {
        Some(bytes) => Ok(bytes),
        None => Err(EstablishConnectionError::Serialize),
    }
}

/// What the server makes of a login result after replying: the
/// connection's id, or `TokenRejected` with the reason.
pub fn login_outcome(login: Result<u64, String>) -> (r: Result<u64, EstablishConnectionError>)
    ensures
        match login {
            Ok(id) => r == Ok::<u64, EstablishConnectionError>(id),
            Err(reason) => r == Err::<u64, EstablishConnectionError>(
                EstablishConnectionError::TokenRejected(reason),
            ),
        },
{
    match login {
        Ok(id) => Ok(id),
        Err(reason) => Err(EstablishConnectionError::TokenRejected(reason)),
    }
}

/// The name the client checks the server's certificate against: a server
/// given by IP address (`is_ip_address`) is checked as `localhost`, any
/// other by its own name.
pub fn certificate_name<'a>(server_name: &'a str, is_ip_address: bool) -> (name: &'a str)
    ensures
        is_ip_address ==> name@ == "localhost"@,
        !is_ip_address ==> name@ == server_name@,
{
    if is_ip_address {
        "localhost"
    } else {
        server_name
    }
}

} // verus!
