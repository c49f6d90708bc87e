//! The per-connection protocol machine as a mathematical model: its
//! states, what a driver reports to it, what it asks of the driver, and the
//! transition function that relates them.

use crate::server::wire::{
    lossy_utf8, offers_no_authentication, spec_decode_port, spec_method_selection, AddressType,
    IpAddress, Reply, SOCKS5ConnectionErr, TargetAddress, BUFFER_SIZE, PROTOCOL_VERSION,
    PROXY_CMD_CONNECT,
};
use vstd::prelude::*;

verus! {

/// One of the two streams of a connection.
#[derive(Clone, Copy, Debug, PartialEq, Eq, Structural)]
pub enum Side {
    /// The stream to the SOCKS5 client.
    Client,
    /// The stream to the destination the client asked for.
    Destination,
}

impl Side {
    /// The opposite stream.
    pub open spec fn spec_other(self) -> Side {
        match self {
            Side::Client => Side::Destination,
            Side::Destination => Side::Client,
        }
    }

    /// The stream that data read from this one is forwarded to.
    pub fn other(self) -> (side: Side)
        ensures
            side == self.spec_other(),
    {
        match self {
            Side::Client => Side::Destination,
            Side::Destination => Side::Client,
        }
    }
}

/// Where a connection stands. Each state but the last waits for the
/// outcome of one operation; transitions only lead forward.
#[derive(Clone, Copy, Debug, PartialEq, Eq, Structural)]
pub enum State {
    /// Waiting for the greeting's two leading bytes: version and method count.
    AwaitGreeting,
    /// Waiting for `count` method identifiers.
    AwaitMethods { count: u8 },
    /// The method selection is being written to the client.
    GreetingReplied,
    /// Waiting for the request's four leading bytes.
    AwaitRequestHeader,
    /// Waiting for the first read after the address-type tag.
    AwaitAddress { kind: AddressType },
    /// Waiting for the `len` bytes of a domain name.
    AwaitDomainName { len: u8 },
    /// The domain name is being resolved.
    Resolving,
    /// Waiting for the two bytes of the port.
    AwaitPort { host: IpAddress },
    /// The destination is known and is being connected.
    Resolved { target: TargetAddress },
    /// The success reply is being written to the client.
    Replying,
    /// The refusal reply is being written to the client.
    Refusing,
    /// Waiting for data on either stream.
    Relaying,
    /// Data read from one stream is being written to the stream `to`.
    Forwarding { to: Side },
    /// Both streams are to be closed; `error` says why, if anything failed.
    Closed { error: Option<SOCKS5ConnectionErr> },
}

/// What came of the operation a connection asked for.
#[derive(Debug, PartialEq, Eq)]
pub enum Outcome {
    /// The client stream was accepted; nothing has been read or written.
    Accepted,
    /// Exactly the requested number of bytes was read from the client.
    Read(Vec<u8>),
    /// All the bytes handed over were written.
    Written,
    /// The domain name resolved; this is the first address found.
    Resolved(IpAddress),
    /// The destination is connected; this is the local endpoint of that socket.
    Connected(TargetAddress),
    /// One read on the given stream returned these bytes; none means the
    /// peer closed it.
    Received(Side, Vec<u8>),
    /// Neither stream had anything to read after all.
    WouldBlock,
    /// The operation failed: an I/O error, a peer that closed too early, a
    /// name that does not resolve, a destination that cannot be connected.
    Failed,
}

/// The mathematical content of an [`Outcome`].
pub enum OutcomeView {
    Accepted,
    Read(Seq<u8>),
    Written,
    Resolved(IpAddress),
    Connected(TargetAddress),
    Received(Side, Seq<u8>),
    WouldBlock,
    Failed,
}

impl View for Outcome {
    type V = OutcomeView;

    open spec fn view(&self) -> OutcomeView {
        match self {
            Outcome::Accepted => OutcomeView::Accepted,
            Outcome::Read(bytes) => OutcomeView::Read(bytes@),
            Outcome::Written => OutcomeView::Written,
            Outcome::Resolved(ip) => OutcomeView::Resolved(*ip),
            Outcome::Connected(bound) => OutcomeView::Connected(*bound),
            Outcome::Received(side, data) => OutcomeView::Received(*side, data@),
            Outcome::WouldBlock => OutcomeView::WouldBlock,
            Outcome::Failed => OutcomeView::Failed,
        }
    }
}

/// What a connection asks its driver to do next.
#[derive(Debug, PartialEq, Eq)]
pub enum Operation {
    /// Read exactly this many bytes from the client.
    Read(usize),
    /// Write exactly these bytes to the client.
    Write(Vec<u8>),
    /// Resolve this host name to an IP address.
    Resolve(String),
    /// Open a TCP connection to this endpoint.
    Connect(TargetAddress),
    /// Wait until either stream is readable, then read from it once, at
    /// most this many bytes.
    Relay(usize),
    /// Write exactly these bytes to the given stream.
    Forward(Side, Vec<u8>),
    /// Close both streams; the connection is over.
    Close,
}

/// The mathematical content of an [`Operation`].
pub enum OperationView {
    Read(nat),
    Write(Seq<u8>),
    Resolve(Seq<char>),
    Connect(TargetAddress),
    Relay(nat),
    Forward(Side, Seq<u8>),
    Close,
}

impl View for Operation {
    type V = OperationView;

    open spec fn view(&self) -> OperationView {
        match self {
            Operation::Read(len) => OperationView::Read(*len as nat),
            Operation::Write(bytes) => OperationView::Write(bytes@),
            Operation::Resolve(name) => OperationView::Resolve(name@),
            Operation::Connect(target) => OperationView::Connect(*target),
            Operation::Relay(capacity) => OperationView::Relay(*capacity as nat),
            Operation::Forward(side, data) => OperationView::Forward(*side, data@),
            Operation::Close => OperationView::Close,
        }
    }
}

/// Dropping the connection because of `error`.
pub open spec fn dropped(error: SOCKS5ConnectionErr) -> (State, OperationView) {
    (State::Closed { error: Some(error) }, OperationView::Close)
}

/// After the two leading bytes of a greeting: a wrong version drops the
/// connection, the right one asks for the announced number of methods.
pub open spec fn greeting_step(header: Seq<u8>) -> (State, OperationView)
    recommends
        header.len() == 2,
{
    if header[0] != PROTOCOL_VERSION {
        dropped(SOCKS5ConnectionErr::InvalidVersion)
    } else {
        (State::AwaitMethods { count: header[1] }, OperationView::Read(header[1] as nat))
    }
}

/// After the offered methods: the method selection is written if "no
/// authentication required" is among them, else the connection is dropped.
pub open spec fn methods_step(methods: Seq<u8>) -> (State, OperationView) {
    if offers_no_authentication(methods) {
        (State::GreetingReplied, OperationView::Write(spec_method_selection()))
    } else {
        dropped(SOCKS5ConnectionErr::UnsupportedAuthMethod)
    }
}

/// After the four leading bytes of a request: version, command and
/// address type are checked in this order; the reserved byte is not.
pub open spec fn request_step(header: Seq<u8>) -> (State, OperationView)
    recommends
        header.len() == 4,
{
    if header[0] != PROTOCOL_VERSION {
        dropped(SOCKS5ConnectionErr::InvalidVersion)
    } else if header[1] != PROXY_CMD_CONNECT {
        dropped(SOCKS5ConnectionErr::UnsupportedCommand)
    } else {
        match AddressType::spec_from_tag(header[3]) {
            Some(kind) => (State::AwaitAddress { kind }, OperationView::Read(kind.spec_first_read())),
            None => dropped(SOCKS5ConnectionErr::InvalidAddressType),
        }
    }
}

/// After the first read that follows the address-type tag: a fixed-width
/// address is complete and the port comes next; a domain name has only
/// announced its length.
pub open spec fn address_step(kind: AddressType, bytes: Seq<u8>) -> (State, OperationView)
    recommends
        bytes.len() == kind.spec_first_read(),
{
    match kind {
        AddressType::DomainName => (
            State::AwaitDomainName { len: bytes[0] },
            OperationView::Read(bytes[0] as nat),
        ),
        _ => match IpAddress::spec_from_octets(kind, bytes) {
            Some(host) => (State::AwaitPort { host }, OperationView::Read(2)),
            None => dropped(SOCKS5ConnectionErr::ConnectionFailed),
        },
    }
}

/// After the two bytes of the port: the destination is known.
pub open spec fn port_step(host: IpAddress, bytes: Seq<u8>) -> (State, OperationView) {
    match spec_decode_port(bytes) {
        Some(port) => {
            let target = TargetAddress { ip: host, port };
            (State::Resolved { target }, OperationView::Connect(target))
        },
        None => dropped(SOCKS5ConnectionErr::ConnectionFailed),
    }
}

/// After one relay read on `from`: no bytes mean that peer closed, which
/// ends the connection; bytes that fit the buffer go to the other stream
/// as they are.
pub open spec fn relay_step(from: Side, data: Seq<u8>) -> (State, OperationView) {
    if data.len() == 0 {
        (State::Closed { error: None }, OperationView::Close)
    } else if data.len() <= BUFFER_SIZE {
        (
            State::Forwarding { to: from.spec_other() },
            OperationView::Forward(from.spec_other(), data),
        )
    } else {
        dropped(SOCKS5ConnectionErr::ConnectionFailed)
    }
}

/// The state that follows `state` when the driver reports `outcome`, and
/// the operation the connection asks for next.
///
/// An outcome that does not answer the pending operation, a read of the
/// wrong length among them, counts as a failed connection. A closed
/// connection stays closed.
pub open spec fn step(state: State, outcome: OutcomeView) -> (State, OperationView) {
    match (state, outcome) {
        (State::Closed { .. }, _) => (state, OperationView::Close),
        (State::AwaitGreeting, OutcomeView::Accepted) => (state, OperationView::Read(2)),
        (State::AwaitGreeting, OutcomeView::Read(bytes)) => if bytes.len() == 2 {
            greeting_step(bytes)
        } else {
            dropped(SOCKS5ConnectionErr::ConnectionFailed)
        },
        (State::AwaitMethods { count }, OutcomeView::Read(bytes)) => if bytes.len() == count {
            methods_step(bytes)
        } else {
            dropped(SOCKS5ConnectionErr::ConnectionFailed)
        },
        (State::GreetingReplied, OutcomeView::Written) => (
            State::AwaitRequestHeader,
            OperationView::Read(4),
        ),
        (State::AwaitRequestHeader, OutcomeView::Read(bytes)) => if bytes.len() == 4 {
            request_step(bytes)
        } else {
            dropped(SOCKS5ConnectionErr::ConnectionFailed)
        },
        (State::AwaitAddress { kind }, OutcomeView::Read(bytes)) => if bytes.len()
            == kind.spec_first_read() {
            address_step(kind, bytes)
        } else {
            dropped(SOCKS5ConnectionErr::ConnectionFailed)
        },
        (State::AwaitDomainName { len }, OutcomeView::Read(bytes)) => if bytes.len() == len {
            (State::Resolving, OperationView::Resolve(lossy_utf8(bytes)))
        } else {
            dropped(SOCKS5ConnectionErr::ConnectionFailed)
        },
        (State::Resolving, OutcomeView::Resolved(host)) => (
            State::AwaitPort { host },
            OperationView::Read(2),
        ),
        (State::AwaitPort { host }, OutcomeView::Read(bytes)) => port_step(host, bytes),
        (State::Resolved { .. }, OutcomeView::Connected(bound)) => (
            State::Replying,
            OperationView::Write(Reply::spec_succeeded(bound).spec_encode()),
        ),
        (State::Resolved { .. }, OutcomeView::Failed) => (
            State::Refusing,
            OperationView::Write(Reply::spec_refused().spec_encode()),
        ),
        (State::Replying, OutcomeView::Written) => (
            State::Relaying,
            OperationView::Relay(BUFFER_SIZE as nat),
        ),
        (State::Relaying, OutcomeView::Received(from, data)) => relay_step(from, data),
        (State::Relaying, OutcomeView::WouldBlock) => (
            State::Relaying,
            OperationView::Relay(BUFFER_SIZE as nat),
        ),
        (State::Forwarding { .. }, OutcomeView::Written) => (
            State::Relaying,
            OperationView::Relay(BUFFER_SIZE as nat),
        ),
        _ => dropped(SOCKS5ConnectionErr::ConnectionFailed),
    }
}

/// The state a connection reaches from `state` when the driver reports
/// `outcomes` in order, and the operations it asks for on the way, one per
/// outcome.
pub open spec fn run(state: State, outcomes: Seq<OutcomeView>) -> (State, Seq<OperationView>)
    decreases outcomes.len(),
{
    if outcomes.len() == 0 {
        (state, Seq::empty())
    } else {
        let before = run(state, outcomes.drop_last());
        let last = step(before.0, outcomes.last());
        (last.0, before.1.push(last.1))
    }
}

/// The bytes one operation sends to the stream `to`.
pub open spec fn payload(to: Side, operation: OperationView) -> Seq<u8> {
    match operation {
        OperationView::Write(bytes) if to == Side::Client => bytes,
        OperationView::Forward(side, bytes) if to == side => bytes,
        _ => Seq::empty(),
    }
}

/// All the bytes a sequence of operations sends to the stream `to`.
pub open spec fn sent(to: Side, operations: Seq<OperationView>) -> Seq<u8>
    decreases operations.len(),
{
    if operations.len() == 0 {
        Seq::empty()
    } else {
        sent(to, operations.drop_last()) + payload(to, operations.last())
    }
}

/// The states from which at least one outcome leads into the relay or
/// keeps it going: the reply to a successful connect is on its way or
/// has been written.
pub open spec fn tunnel_open(state: State) -> bool {
    state is Replying || state is Relaying || state is Forwarding
}

/// How far a connection has come: states are numbered in the order in
/// which a connection passes through them. The two replies share a
/// number, as do the two states of the relay.
pub open spec fn stage(state: State) -> nat {
    match state {
        State::AwaitGreeting => 0,
        State::AwaitMethods { .. } => 1,
        State::GreetingReplied => 2,
        State::AwaitRequestHeader => 3,
        State::AwaitAddress { .. } => 4,
        State::AwaitDomainName { .. } => 5,
        State::Resolving => 6,
        State::AwaitPort { .. } => 7,
        State::Resolved { .. } => 8,
        State::Replying | State::Refusing => 9,
        State::Relaying | State::Forwarding { .. } => 10,
        State::Closed { .. } => 11,
    }
}

} // verus!
