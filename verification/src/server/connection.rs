//! One client connection: the executable protocol machine.
//!
//! The connection owns no socket. Its driver hands it the outcome of the
//! operation it asked for last, and gets the next operation back.

use crate::server::machine::{step, Operation, Outcome, State};
use crate::server::wire::{
    accepts_methods, decode_host_name, decode_port, method_selection, AddressType, IpAddress,
    Reply, SOCKS5ConnectionErr, TargetAddress, BUFFER_SIZE, PROTOCOL_VERSION, PROXY_CMD_CONNECT,
};
use vstd::prelude::*;

verus! {

/// The protocol state of one accepted client.
#[derive(Debug)]
pub struct SOCKS5ClientConnection {
    state: State,
}

/// Drops the connection because of `error`.
fn drop_with(error: SOCKS5ConnectionErr) -> (next: (State, Operation))
    ensures
        next.0 == (State::Closed { error: Some(error) }),
        next.1 == Operation::Close,
{
    (State::Closed { error: Some(error) }, Operation::Close)
}

impl SOCKS5ClientConnection {
    /// The state this connection is in.
    pub closed spec fn spec_state(&self) -> State {
        self.state
    }

    /// A connection that has just been accepted: it waits for the greeting.
    pub fn new() -> (connection: Self)
        ensures
            connection.state() == State::AwaitGreeting,
    {
        SOCKS5ClientConnection { state: State::AwaitGreeting }
    }

    /// The state this connection is in.
    #[verifier::when_used_as_spec(spec_state)]
    pub fn state(&self) -> (state: State)
        ensures
            state == self.spec_state(),
    {
        self.state
    }

    /// Whether the connection is over.
    pub fn is_closed(&self) -> (closed: bool)
        ensures
            closed == (self.state() is Closed),
    {
        match self.state {
            State::Closed { .. } => true,
            _ => false,
        }
    }

    /// Why the connection was dropped: `None` while it is running and
    /// after it ended because a peer closed its stream.
    pub fn error(&self) -> (error: Option<SOCKS5ConnectionErr>)
        ensures
            error == match self.state() {
                State::Closed { error } => error,
                _ => None,
            },
    {
        match self.state {
            State::Closed { error } => error,
            _ => None,
        }
    }

    /// Takes the outcome of the pending operation, moves to the next state
    /// and returns the operation to carry out next.
    ///
    /// The first outcome of a connection is [`Outcome::Accepted`]; after
    /// [`Operation::Close`] every outcome is answered with it again.
    pub fn process(&mut self, outcome: Outcome) -> (operation: Operation)
        ensures
            (final(self).state(), operation@) == step(old(self).state(), outcome@),
    {
        let state = self.state;
        let (next, operation) = match state {
            State::AwaitGreeting | State::AwaitMethods { .. } | State::GreetingReplied => {
                Self::handle_shake(state, outcome)
            },
            State::AwaitRequestHeader
            | State::AwaitAddress { .. }
            | State::AwaitDomainName { .. }
            | State::Resolving
            | State::AwaitPort { .. } => Self::parse_command(state, outcome),
            State::Resolved { .. }
            | State::Replying
            | State::Refusing
            | State::Relaying
            | State::Forwarding { .. } => Self::process_connect(state, outcome),
            State::Closed { .. } => (state, Operation::Close),
        };
        self.state = next;
        operation
    }

    /// The greeting: version and method count, the offered methods, and
    /// the method selection sent in answer.
    fn handle_shake(state: State, outcome: Outcome) -> (next: (State, Operation))
        requires
            state is AwaitGreeting || state is AwaitMethods || state is GreetingReplied,
        ensures
            (next.0, next.1@) == step(state, outcome@),
    {
        match (state, outcome) {
            (State::AwaitGreeting, Outcome::Accepted) => (state, Operation::Read(2)),
            (State::AwaitGreeting, Outcome::Read(bytes)) => {
                if bytes.len() != 2 {
                    drop_with(SOCKS5ConnectionErr::ConnectionFailed)
                } else if bytes[0] != PROTOCOL_VERSION {
                    drop_with(SOCKS5ConnectionErr::InvalidVersion)
                } else {
                    let count = bytes[1];
                    (State::AwaitMethods { count }, Operation::Read(count as usize))
                }
            },
            (State::AwaitMethods { count }, Outcome::Read(bytes)) => {
                if bytes.len() != count as usize {
                    drop_with(SOCKS5ConnectionErr::ConnectionFailed)
                } else if accepts_methods(bytes.as_slice()) {
                    (State::GreetingReplied, Operation::Write(method_selection()))
                } else {
                    drop_with(SOCKS5ConnectionErr::UnsupportedAuthMethod)
                }
            },
            (State::GreetingReplied, Outcome::Written) => (
                State::AwaitRequestHeader,
                Operation::Read(4),
            ),
            _ => drop_with(SOCKS5ConnectionErr::ConnectionFailed),
        }
    }

    /// The request: its header, the address in one of three layouts, the
    /// resolution of a domain name, and the port.
    fn parse_command(state: State, outcome: Outcome) -> (next: (State, Operation))
        requires
            state is AwaitRequestHeader || state is AwaitAddress || state is AwaitDomainName
                || state is Resolving || state is AwaitPort,
        ensures
            (next.0, next.1@) == step(state, outcome@),
    {
        match (state, outcome) {
            (State::AwaitRequestHeader, Outcome::Read(bytes)) => {
                if bytes.len() != 4 {
                    drop_with(SOCKS5ConnectionErr::ConnectionFailed)
                } else if bytes[0] != PROTOCOL_VERSION {
                    drop_with(SOCKS5ConnectionErr::InvalidVersion)
                } else if bytes[1] != PROXY_CMD_CONNECT {
                    drop_with(SOCKS5ConnectionErr::UnsupportedCommand)
                } else {
                    match AddressType::from_tag(bytes[3]) {
                        Some(kind) => (
                            State::AwaitAddress { kind },
                            Operation::Read(kind.first_read()),
                        ),
                        None => drop_with(SOCKS5ConnectionErr::InvalidAddressType),
                    }
                }
            },
            (State::AwaitAddress { kind }, Outcome::Read(bytes)) => {
                if bytes.len() != kind.first_read() {
                    drop_with(SOCKS5ConnectionErr::ConnectionFailed)
                } else {
                    match kind {
                        AddressType::DomainName => {
                            let len = bytes[0];
                            (State::AwaitDomainName { len }, Operation::Read(len as usize))
                        },
                        _ => match IpAddress::from_octets(kind, bytes.as_slice()) {
                            Some(host) => (State::AwaitPort { host }, Operation::Read(2)),
                            None => drop_with(SOCKS5ConnectionErr::ConnectionFailed),
                        },
                    }
                }
            },
            (State::AwaitDomainName { len }, Outcome::Read(bytes)) => {
                if bytes.len() != len as usize {
                    drop_with(SOCKS5ConnectionErr::ConnectionFailed)
                } else {
                    let name = decode_host_name(bytes.as_slice());
                    (State::Resolving, Operation::Resolve(name))
                }
            },
            (State::Resolving, Outcome::Resolved(host)) => (
                State::AwaitPort { host },
                Operation::Read(2),
            ),
            (State::AwaitPort { host }, Outcome::Read(bytes)) => {
                match decode_port(bytes.as_slice()) {
                    Some(port) => {
                        let target = TargetAddress { ip: host, port };
                        (State::Resolved { target }, Operation::Connect(target))
                    },
                    None => drop_with(SOCKS5ConnectionErr::ConnectionFailed),
                }
            },
            _ => drop_with(SOCKS5ConnectionErr::ConnectionFailed),
        }
    }

    /// The connect attempt, the reply it is answered with, and the relay
    /// between the two streams that follows a success.
    fn process_connect(state: State, outcome: Outcome) -> (next: (State, Operation))
        requires
            state is Resolved || state is Replying || state is Refusing || state is Relaying
                || state is Forwarding,
        ensures
            (next.0, next.1@) == step(state, outcome@),
    {
        match (state, outcome) {
            (State::Resolved { .. }, Outcome::Connected(bound)) => (
                State::Replying,
                Operation::Write(Reply::succeeded(bound).encode()),
            ),
            (State::Resolved { .. }, Outcome::Failed) => (
                State::Refusing,
                Operation::Write(Reply::refused().encode()),
            ),
            (State::Replying, Outcome::Written) => (State::Relaying, Operation::Relay(BUFFER_SIZE)),
            (State::Relaying, Outcome::Received(from, data)) => {
                if data.len() == 0 {
                    (State::Closed { error: None }, Operation::Close)
                } else if data.len() <= BUFFER_SIZE {
                    let to = from.other();
                    (State::Forwarding { to }, Operation::Forward(to, data))
                } else {
                    drop_with(SOCKS5ConnectionErr::ConnectionFailed)
                }
            },
            (State::Relaying, Outcome::WouldBlock) => (
                State::Relaying,
                Operation::Relay(BUFFER_SIZE),
            ),
            (State::Forwarding { .. }, Outcome::Written) => (
                State::Relaying,
                Operation::Relay(BUFFER_SIZE),
            ),
            _ => drop_with(SOCKS5ConnectionErr::ConnectionFailed),
        }
    }
}

} // verus!
