//! What holds of every connection, proved from the transition function.

use crate::server::machine::{
    payload, run, sent, stage, step, tunnel_open, OperationView, OutcomeView, Side, State,
};
use crate::server::wire::{
    be_bytes, lemma_be_bytes_len, lemma_be_bytes_of_value, lemma_be_value_bound,
    lemma_be_value_of_bytes, lemma_pow256_values, lossy_utf8, offers_no_authentication,
    spec_decode_port, spec_method_selection, AddressType, IpAddress, Reply, SOCKS5ConnectionErr,
    TargetAddress, BUFFER_SIZE, PROTOCOL_VERSION, PROXY_CMD_CONNECT,
};
use vstd::prelude::*;

verus! {

/// Reporting one outcome is one step.
pub proof fn lemma_run_one(state: State, outcome: OutcomeView)
    ensures
        run(state, seq![outcome]) == (step(state, outcome).0, seq![step(state, outcome).1]),
{
    let outcomes = seq![outcome];
    assert(outcomes.drop_last() =~= Seq::<OutcomeView>::empty());
    assert(run(state, outcomes.drop_last()).1 =~= Seq::<OperationView>::empty());
    assert(run(state, outcomes).1 =~= seq![step(state, outcome).1]);
}

/// Reporting `first` and then `rest` is running on `rest` from where
/// `first` led; the operations follow each other.
pub proof fn lemma_run_concat(state: State, first: Seq<OutcomeView>, rest: Seq<OutcomeView>)
    ensures
        run(state, first + rest).0 == run(run(state, first).0, rest).0,
        run(state, first + rest).1 == run(state, first).1 + run(run(state, first).0, rest).1,
    decreases rest.len(),
{
    let middle = run(state, first).0;
    if rest.len() == 0 {
        assert(first + rest =~= first);
        assert(run(state, first).1 + run(middle, rest).1 =~= run(state, first).1);
    } else {
        let all = first + rest;
        assert(all.drop_last() =~= first + rest.drop_last());
        assert(all.last() == rest.last());
        lemma_run_concat(state, first, rest.drop_last());
        let before = run(middle, rest.drop_last());
        let last = step(before.0, rest.last());
        assert(run(state, all).1 =~= run(state, first).1 + before.1.push(last.1));
    }
}

/// Reporting `outcome` and then `rest` is one step followed by a run.
pub proof fn lemma_run_from(state: State, outcome: OutcomeView, rest: Seq<OutcomeView>)
    ensures
        run(state, seq![outcome] + rest).0 == run(step(state, outcome).0, rest).0,
        run(state, seq![outcome] + rest).1 == seq![step(state, outcome).1] + run(
            step(state, outcome).0,
            rest,
        ).1,
{
    lemma_run_one(state, outcome);
    lemma_run_concat(state, seq![outcome], rest);
}

/// A run asks for one operation per outcome.
pub proof fn lemma_run_len(state: State, outcomes: Seq<OutcomeView>)
    ensures
        run(state, outcomes).1.len() == outcomes.len(),
    decreases outcomes.len(),
{
    if outcomes.len() > 0 {
        lemma_run_len(state, outcomes.drop_last());
    }
}

/// What two runs of operations send is what the first sends, then what
/// the second sends.
pub proof fn lemma_sent_concat(to: Side, first: Seq<OperationView>, rest: Seq<OperationView>)
    ensures
        sent(to, first + rest) == sent(to, first) + sent(to, rest),
    decreases rest.len(),
{
    if rest.len() == 0 {
        assert(first + rest =~= first);
        assert(sent(to, first) + sent(to, rest) =~= sent(to, first));
    } else {
        let all = first + rest;
        assert(all.drop_last() =~= first + rest.drop_last());
        assert(all.last() == rest.last());
        lemma_sent_concat(to, first, rest.drop_last());
        assert(sent(to, all) =~= sent(to, first) + sent(to, rest));
    }
}

/// One operation sends its payload.
pub proof fn lemma_sent_one(to: Side, operation: OperationView)
    ensures
        sent(to, seq![operation]) == payload(to, operation),
{
    let operations = seq![operation];
    assert(operations.drop_last() =~= Seq::<OperationView>::empty());
    assert(sent(to, operations.drop_last()) =~= Seq::<u8>::empty());
    assert(sent(to, operations) =~= payload(to, operation));
}

/// A closed connection stays closed, whatever is reported to it: its
/// state and error never change, it asks for nothing but to close, and it
/// sends nothing to either stream.
pub proof fn closed_is_final(
    error: Option<SOCKS5ConnectionErr>,
    outcomes: Seq<OutcomeView>,
    to: Side,
)
    ensures
        run(State::Closed { error }, outcomes).0 == (State::Closed { error }),
        forall|i: int|
            0 <= i < outcomes.len() ==> (#[trigger] run(State::Closed { error }, outcomes).1[i])
                == OperationView::Close,
        sent(to, run(State::Closed { error }, outcomes).1) == Seq::<u8>::empty(),
    decreases outcomes.len(),
{
    let closed = State::Closed { error };
    if outcomes.len() > 0 {
        closed_is_final(error, outcomes.drop_last(), to);
        lemma_run_len(closed, outcomes.drop_last());
        let operations = run(closed, outcomes).1;
        assert(operations.drop_last() =~= run(closed, outcomes.drop_last()).1);
        assert(operations.last() == OperationView::Close);
    }
}

/// Reporting one more outcome after `outcomes` is one more step.
pub proof fn lemma_run_push(state: State, outcomes: Seq<OutcomeView>, outcome: OutcomeView)
    ensures
        run(state, outcomes.push(outcome)).0 == step(run(state, outcomes).0, outcome).0,
        run(state, outcomes.push(outcome)).1 == run(state, outcomes).1.push(
            step(run(state, outcomes).0, outcome).1,
        ),
{
    assert(outcomes.push(outcome).drop_last() =~= outcomes);
}

/// One more operation sends its payload after what was sent before.
pub proof fn lemma_sent_push(to: Side, operations: Seq<OperationView>, operation: OperationView)
    ensures
        sent(to, operations.push(operation)) == sent(to, operations) + payload(to, operation),
{
    assert(operations.push(operation).drop_last() =~= operations);
}

/// A step that closes the connection is the last that matters: whatever
/// is reported afterwards, the state stays as that step left it and
/// nothing is sent to either stream, by that step or later.
pub proof fn lemma_closing_step(
    state: State,
    outcome: OutcomeView,
    rest: Seq<OutcomeView>,
    to: Side,
)
    requires
        step(state, outcome).0 is Closed,
    ensures
        run(state, seq![outcome] + rest).0 == step(state, outcome).0,
        sent(to, run(state, seq![outcome] + rest).1) == Seq::<u8>::empty(),
        forall|i: int|
            0 <= i < rest.len() + 1 ==> (#[trigger] run(state, seq![outcome] + rest).1[i])
                == OperationView::Close,
{
    let closed = step(state, outcome).0;
    let error = closed->error;
    assert(closed == State::Closed { error });
    assert(step(state, outcome).1 == OperationView::Close);
    lemma_run_from(state, outcome, rest);
    closed_is_final(error, rest, to);
    lemma_run_len(closed, rest);
    let first = seq![OperationView::Close];
    let later = run(closed, rest).1;
    lemma_sent_one(to, OperationView::Close);
    lemma_sent_concat(to, first, later);
    assert(sent(to, first + later) =~= Seq::<u8>::empty());
    assert forall|i: int| 0 <= i < rest.len() + 1 implies (#[trigger] (first + later)[i])
        == OperationView::Close by {
        if i > 0 {
            assert((first + later)[i] == later[i - 1]);
        }
    }
}

/// The version gate: a greeting whose first byte is not the protocol
/// version closes the connection, and no byte is ever sent to the client.
/// The error is `InvalidVersion` when the greeting's two leading bytes
/// were read as asked.
pub proof fn version_gate(greeting: Seq<u8>, rest: Seq<OutcomeView>)
    requires
        greeting.len() > 0,
        greeting[0] != PROTOCOL_VERSION,
    ensures
        run(State::AwaitGreeting, seq![OutcomeView::Read(greeting)] + rest).0 is Closed,
        greeting.len() == 2 ==> run(
            State::AwaitGreeting,
            seq![OutcomeView::Read(greeting)] + rest,
        ).0 == (State::Closed { error: Some(SOCKS5ConnectionErr::InvalidVersion) }),
        sent(Side::Client, run(State::AwaitGreeting, seq![OutcomeView::Read(greeting)] + rest).1)
            == Seq::<u8>::empty(),
{
    lemma_closing_step(State::AwaitGreeting, OutcomeView::Read(greeting), rest, Side::Client);
}

/// The outcomes of reading a greeting that offers `methods`: its two
/// leading bytes, then the methods.
pub open spec fn greeting_read(methods: Seq<u8>) -> Seq<OutcomeView> {
    seq![
        OutcomeView::Read(seq![PROTOCOL_VERSION, methods.len() as u8]),
        OutcomeView::Read(methods),
    ]
}

/// Authentication, accepted: a greeting that offers "no authentication
/// required" is answered with exactly the two bytes 0x05 0x00, and the
/// connection goes on to the request.
pub proof fn no_authentication_is_selected(methods: Seq<u8>)
    requires
        methods.len() <= 255,
        offers_no_authentication(methods),
    ensures
        run(State::AwaitGreeting, greeting_read(methods)).0 == State::GreetingReplied,
        run(State::AwaitGreeting, greeting_read(methods)).1 == seq![
            OperationView::Read(methods.len()),
            OperationView::Write(seq![0x05u8, 0x00u8]),
        ],
        sent(Side::Client, run(State::AwaitGreeting, greeting_read(methods)).1) == seq![
            0x05u8,
            0x00u8,
        ],
        step(State::GreetingReplied, OutcomeView::Written) == (
            State::AwaitRequestHeader,
            OperationView::Read(4),
        ),
{
    let header = OutcomeView::Read(seq![PROTOCOL_VERSION, methods.len() as u8]);
    let start = State::AwaitGreeting;
    lemma_run_one(start, header);
    lemma_run_push(start, seq![header], OutcomeView::Read(methods));
    assert(seq![header].push(OutcomeView::Read(methods)) =~= greeting_read(methods));
    let operations = run(start, greeting_read(methods)).1;
    assert(spec_method_selection() =~= seq![0x05u8, 0x00u8]);
    assert(operations =~= seq![
        OperationView::Read(methods.len()),
        OperationView::Write(seq![0x05u8, 0x00u8]),
    ]);
    lemma_sent_one(Side::Client, OperationView::Read(methods.len()));
    lemma_sent_push(
        Side::Client,
        seq![OperationView::Read(methods.len())],
        OperationView::Write(seq![0x05u8, 0x00u8]),
    );
    assert(seq![OperationView::Read(methods.len())].push(
        OperationView::Write(seq![0x05u8, 0x00u8]),
    ) =~= operations);
    assert(sent(Side::Client, operations) =~= seq![0x05u8, 0x00u8]);
}

/// Authentication, rejected: a greeting that does not offer "no
/// authentication required" closes the connection with
/// `UnsupportedAuthMethod`, and no byte is ever sent to the client.
pub proof fn other_methods_are_rejected(methods: Seq<u8>, rest: Seq<OutcomeView>)
    requires
        methods.len() <= 255,
        !offers_no_authentication(methods),
    ensures
        run(State::AwaitGreeting, greeting_read(methods) + rest).0 == (State::Closed {
            error: Some(SOCKS5ConnectionErr::UnsupportedAuthMethod),
        }),
        sent(Side::Client, run(State::AwaitGreeting, greeting_read(methods) + rest).1)
            == Seq::<u8>::empty(),
{
    let header = OutcomeView::Read(seq![PROTOCOL_VERSION, methods.len() as u8]);
    let offered = OutcomeView::Read(methods);
    let start = State::AwaitGreeting;
    let waiting = State::AwaitMethods { count: methods.len() as u8 };
    assert(step(start, header).0 == waiting);
    assert(greeting_read(methods) + rest =~= seq![header] + (seq![offered] + rest));
    lemma_run_from(start, header, seq![offered] + rest);
    lemma_closing_step(waiting, offered, rest, Side::Client);
    let first = seq![step(start, header).1];
    let later = run(waiting, seq![offered] + rest).1;
    lemma_sent_one(Side::Client, step(start, header).1);
    lemma_sent_concat(Side::Client, first, later);
    assert(sent(Side::Client, first + later) =~= Seq::<u8>::empty());
}

/// The refusal reply: when the destination cannot be connected, the
/// client is sent exactly the ten bytes of a refusal that names the IPv4
/// address 0.0.0.0 and port 0, and from then on nothing else; the
/// connection closes with `ConnectionFailed` whether or not that reply
/// could be written.
pub proof fn refusal_reply_shape(target: TargetAddress, rest: Seq<OutcomeView>)
    ensures
        step(State::Resolved { target }, OutcomeView::Failed) == (
            State::Refusing,
            OperationView::Write(seq![0x05u8, 0x05u8, 0x00u8, 0x01u8, 0u8, 0u8, 0u8, 0u8, 0u8, 0u8]),
        ),
        sent(
            Side::Client,
            run(State::Resolved { target }, seq![OutcomeView::Failed] + rest).1,
        ) == seq![0x05u8, 0x05u8, 0x00u8, 0x01u8, 0u8, 0u8, 0u8, 0u8, 0u8, 0u8],
        rest.len() > 0 ==> run(State::Resolved { target }, seq![OutcomeView::Failed] + rest).0
            == (State::Closed { error: Some(SOCKS5ConnectionErr::ConnectionFailed) }),
{
    let refusal = seq![0x05u8, 0x05u8, 0x00u8, 0x01u8, 0u8, 0u8, 0u8, 0u8, 0u8, 0u8];
    assert(Reply::spec_refused().spec_encode() =~= refusal) by {
        reveal_with_fuel(be_bytes, 5);
    }
    let start = State::Resolved { target };
    let write = OperationView::Write(refusal);
    lemma_run_from(start, OutcomeView::Failed, rest);
    lemma_sent_one(Side::Client, write);
    if rest.len() == 0 {
        assert(seq![OutcomeView::Failed] + rest =~= seq![OutcomeView::Failed]);
        lemma_run_one(start, OutcomeView::Failed);
    } else {
        let next = rest[0];
        let later = rest.subrange(1, rest.len() as int);
        assert(rest =~= seq![next] + later);
        lemma_closing_step(State::Refusing, next, later, Side::Client);
        lemma_sent_concat(Side::Client, seq![write], run(State::Refusing, rest).1);
        assert(sent(Side::Client, seq![write] + run(State::Refusing, rest).1) =~= refusal);
    }
}

/// Relay termination, either way round: once the relay runs, a stream
/// that reports its peer closed ends the connection without an error. All
/// that is asked of the driver from then on is to close both streams, and
/// nothing more is sent to either.
pub proof fn relay_termination_symmetry(closed: Side, rest: Seq<OutcomeView>, to: Side)
    ensures
        run(
            State::Relaying,
            seq![OutcomeView::Received(closed, Seq::<u8>::empty())] + rest,
        ).0 == (State::Closed { error: None }),
        forall|i: int|
            0 <= i < rest.len() + 1 ==> (#[trigger] run(
                State::Relaying,
                seq![OutcomeView::Received(closed, Seq::<u8>::empty())] + rest,
            ).1[i]) == OperationView::Close,
        sent(
            to,
            run(State::Relaying, seq![OutcomeView::Received(closed, Seq::<u8>::empty())] + rest).1,
        ) == Seq::<u8>::empty(),
{
    lemma_closing_step(
        State::Relaying,
        OutcomeView::Received(closed, Seq::<u8>::empty()),
        rest,
        to,
    );
}

/// The relay passes data through as it is: what one read returned from a
/// stream, if it is not empty and fits the buffer, is written to the
/// other stream and to no other, byte for byte; once written, the relay
/// waits again.
pub proof fn relay_is_verbatim(from: Side, data: Seq<u8>)
    requires
        0 < data.len() <= BUFFER_SIZE,
    ensures
        run(State::Relaying, seq![OutcomeView::Received(from, data), OutcomeView::Written]) == (
            State::Relaying,
            seq![
                OperationView::Forward(from.spec_other(), data),
                OperationView::Relay(BUFFER_SIZE as nat),
            ],
        ),
        sent(
            from.spec_other(),
            run(State::Relaying, seq![OutcomeView::Received(from, data), OutcomeView::Written]).1,
        ) == data,
        sent(
            from,
            run(State::Relaying, seq![OutcomeView::Received(from, data), OutcomeView::Written]).1,
        ) == Seq::<u8>::empty(),
{
    let received = OutcomeView::Received(from, data);
    let to = from.spec_other();
    let outcomes = seq![received, OutcomeView::Written];
    lemma_run_one(State::Relaying, received);
    lemma_run_push(State::Relaying, seq![received], OutcomeView::Written);
    assert(seq![received].push(OutcomeView::Written) =~= outcomes);
    let forward = OperationView::Forward(to, data);
    let relay = OperationView::Relay(BUFFER_SIZE as nat);
    assert(run(State::Relaying, outcomes).1 =~= seq![forward, relay]);
    assert(seq![forward].push(relay) =~= seq![forward, relay]);
    lemma_sent_one(to, forward);
    lemma_sent_push(to, seq![forward], relay);
    lemma_sent_one(from, forward);
    lemma_sent_push(from, seq![forward], relay);
    assert(sent(to, seq![forward, relay]) =~= data);
    assert(sent(from, seq![forward, relay]) =~= Seq::<u8>::empty());
}

/// A read that would block is no error: the relay keeps waiting.
pub proof fn would_block_keeps_relaying()
    ensures
        step(State::Relaying, OutcomeView::WouldBlock) == (
            State::Relaying,
            OperationView::Relay(BUFFER_SIZE as nat),
        ),
{
}

/// Whether `outcomes[at]` reports a connected destination to a connection
/// that, started fresh, was waiting for just that.
pub open spec fn connected_at(outcomes: Seq<OutcomeView>, at: int) -> bool {
    &&& 0 <= at < outcomes.len()
    &&& outcomes[at] is Connected
    &&& run(State::AwaitGreeting, outcomes.take(at)).0 is Resolved
}

/// No relay without a destination: a connection that has reached the
/// success reply or the relay has been told, at some point when it was
/// waiting for it, that its destination is connected.
pub proof fn relay_needs_connection(outcomes: Seq<OutcomeView>)
    requires
        tunnel_open(run(State::AwaitGreeting, outcomes).0),
    ensures
        exists|at: int| connected_at(outcomes, at),
    decreases outcomes.len(),
{
    assert(outcomes.len() > 0);
    let earlier = outcomes.drop_last();
    let before = run(State::AwaitGreeting, earlier).0;
    if tunnel_open(before) {
        relay_needs_connection(earlier);
        let at = choose|at: int| connected_at(earlier, at);
        assert(earlier.take(at) =~= outcomes.take(at));
        assert(connected_at(outcomes, at));
    } else {
        let at = outcomes.len() - 1;
        assert(outcomes.take(at) =~= earlier);
        assert(connected_at(outcomes, at));
    }
}

/// Address round trip, from the value: the raw bytes of an IP address
/// decode to that address again.
pub proof fn octets_decode_to_their_address(ip: IpAddress)
    ensures
        IpAddress::spec_from_octets(ip.spec_kind(), ip.spec_octets()) == Some(ip),
{
    lemma_pow256_values();
    match ip {
        IpAddress::V4(bits) => {
            lemma_be_bytes_len(bits as nat, 4);
            lemma_be_value_of_bytes(bits as nat, 4);
        },
        IpAddress::V6(bits) => {
            lemma_be_bytes_len(bits as nat, 16);
            lemma_be_value_of_bytes(bits as nat, 16);
        },
    }
}

/// Address round trip, from the wire: whenever address bytes decode, the
/// address they decode to has the layout asked for and those raw bytes.
pub proof fn decoded_address_keeps_its_octets(kind: AddressType, bytes: Seq<u8>)
    requires
        IpAddress::spec_from_octets(kind, bytes) is Some,
    ensures
        IpAddress::spec_from_octets(kind, bytes)->0.spec_kind() == kind,
        IpAddress::spec_from_octets(kind, bytes)->0.spec_octets() == bytes,
{
    lemma_pow256_values();
    lemma_be_value_bound(bytes);
    lemma_be_bytes_of_value(bytes);
}

/// Port round trip: the two bytes of a port decode to that port, and two
/// bytes that decode to a port are that port's bytes.
pub proof fn port_round_trip(port: u16, bytes: Seq<u8>)
    ensures
        spec_decode_port(be_bytes(port as nat, 2)) == Some(port),
        bytes.len() == 2 ==> be_bytes(spec_decode_port(bytes)->0 as nat, 2) == bytes,
        bytes.len() != 2 ==> spec_decode_port(bytes) is None,
{
    lemma_pow256_values();
    lemma_be_bytes_len(port as nat, 2);
    lemma_be_value_of_bytes(port as nat, 2);
    if bytes.len() == 2 {
        lemma_be_value_bound(bytes);
        lemma_be_bytes_of_value(bytes);
    }
}

/// The outcomes of reading a CONNECT request that names an IP address:
/// the header with the address's tag, the raw address bytes, the port.
pub open spec fn address_request_read(reserved: u8, target: TargetAddress) -> Seq<OutcomeView> {
    seq![
        OutcomeView::Read(
            seq![PROTOCOL_VERSION, PROXY_CMD_CONNECT, reserved, target.ip.spec_kind().spec_tag()],
        ),
        OutcomeView::Read(target.ip.spec_octets()),
        OutcomeView::Read(be_bytes(target.port as nat, 2)),
    ]
}

/// Address decoding: a CONNECT request that carries an IPv4 or IPv6
/// address and a port, both in network order, is parsed to exactly that
/// endpoint, whatever the reserved byte holds, and the connection asks to
/// connect to it.
pub proof fn request_names_its_target(reserved: u8, target: TargetAddress)
    ensures
        run(State::AwaitRequestHeader, address_request_read(reserved, target)) == (
            State::Resolved { target },
            seq![
                OperationView::Read(target.ip.spec_octets().len()),
                OperationView::Read(2),
                OperationView::Connect(target),
            ],
        ),
        target.ip.spec_octets().len() == (if target.ip is V4 {
            4nat
        } else {
            16nat
        }),
{
    let kind = target.ip.spec_kind();
    let header = OutcomeView::Read(
        seq![PROTOCOL_VERSION, PROXY_CMD_CONNECT, reserved, kind.spec_tag()],
    );
    let address = OutcomeView::Read(target.ip.spec_octets());
    let port = OutcomeView::Read(be_bytes(target.port as nat, 2));
    let start = State::AwaitRequestHeader;
    octets_decode_to_their_address(target.ip);
    port_round_trip(target.port, Seq::<u8>::empty());
    match target.ip {
        IpAddress::V4(bits) => lemma_be_bytes_len(bits as nat, 4),
        IpAddress::V6(bits) => lemma_be_bytes_len(bits as nat, 16),
    }
    lemma_be_bytes_len(target.port as nat, 2);
    lemma_run_one(start, header);
    lemma_run_push(start, seq![header], address);
    lemma_run_push(start, seq![header, address], port);
    assert(seq![header].push(address) =~= seq![header, address]);
    assert(seq![header, address].push(port) =~= address_request_read(reserved, target));
    assert(run(start, address_request_read(reserved, target)).1 =~= seq![
        OperationView::Read(target.ip.spec_octets().len()),
        OperationView::Read(2),
        OperationView::Connect(target),
    ]);
}

/// The outcomes of reading a CONNECT request that names a host, up to the
/// point where the name is known: the header, the length byte, the name.
pub open spec fn domain_request_read(reserved: u8, name: Seq<u8>) -> Seq<OutcomeView> {
    seq![
        OutcomeView::Read(
            seq![
                PROTOCOL_VERSION,
                PROXY_CMD_CONNECT,
                reserved,
                AddressType::DomainName.spec_tag(),
            ],
        ),
        OutcomeView::Read(seq![name.len() as u8]),
        OutcomeView::Read(name),
    ]
}

/// Domain names are resolved before anything is connected: a CONNECT
/// request that names a host makes the connection ask for the resolution
/// of that name, decoded leniently, and for nothing else.
pub proof fn domain_name_is_resolved_first(reserved: u8, name: Seq<u8>)
    requires
        name.len() <= 255,
    ensures
        run(State::AwaitRequestHeader, domain_request_read(reserved, name)) == (
            State::Resolving,
            seq![
                OperationView::Read(1),
                OperationView::Read(name.len()),
                OperationView::Resolve(lossy_utf8(name)),
            ],
        ),
{
    let header = OutcomeView::Read(
        seq![PROTOCOL_VERSION, PROXY_CMD_CONNECT, reserved, AddressType::DomainName.spec_tag()],
    );
    let length = OutcomeView::Read(seq![name.len() as u8]);
    let start = State::AwaitRequestHeader;
    lemma_run_one(start, header);
    lemma_run_push(start, seq![header], length);
    lemma_run_push(start, seq![header, length], OutcomeView::Read(name));
    assert(seq![header].push(length) =~= seq![header, length]);
    assert(seq![header, length].push(OutcomeView::Read(name)) =~= domain_request_read(
        reserved,
        name,
    ));
    assert(run(start, domain_request_read(reserved, name)).1 =~= seq![
        OperationView::Read(1),
        OperationView::Read(name.len()),
        OperationView::Resolve(lossy_utf8(name)),
    ]);
}

/// Once the name has resolved, the request goes on as if it had carried
/// the resolved address: the port is read and the connection asks to
/// connect to that address and port.
pub proof fn resolved_name_is_connected(host: IpAddress, port: u16)
    ensures
        run(
            State::Resolving,
            seq![OutcomeView::Resolved(host), OutcomeView::Read(be_bytes(port as nat, 2))],
        ) == (
            State::Resolved { target: TargetAddress { ip: host, port } },
            seq![
                OperationView::Read(2),
                OperationView::Connect(TargetAddress { ip: host, port }),
            ],
        ),
{
    let resolved = OutcomeView::Resolved(host);
    let read = OutcomeView::Read(be_bytes(port as nat, 2));
    port_round_trip(port, Seq::<u8>::empty());
    lemma_run_one(State::Resolving, resolved);
    lemma_run_push(State::Resolving, seq![resolved], read);
    assert(seq![resolved].push(read) =~= seq![resolved, read]);
    assert(run(State::Resolving, seq![resolved, read]).1 =~= seq![
        OperationView::Read(2),
        OperationView::Connect(TargetAddress { ip: host, port }),
    ]);
}

/// A name that does not resolve ends the connection with
/// `ConnectionFailed`; nothing is connected and no reply is sent.
pub proof fn unresolved_name_is_dropped(rest: Seq<OutcomeView>)
    ensures
        run(State::Resolving, seq![OutcomeView::Failed] + rest).0 == (State::Closed {
            error: Some(SOCKS5ConnectionErr::ConnectionFailed),
        }),
        sent(Side::Client, run(State::Resolving, seq![OutcomeView::Failed] + rest).1)
            == Seq::<u8>::empty(),
        forall|i: int|
            0 <= i < rest.len() + 1 ==> (#[trigger] run(
                State::Resolving,
                seq![OutcomeView::Failed] + rest,
            ).1[i]) == OperationView::Close,
{
    lemma_closing_step(State::Resolving, OutcomeView::Failed, rest, Side::Client);
}

/// A connected destination opens the tunnel: the client is sent the
/// success reply, which carries the local endpoint of the destination
/// socket, and once that is written the relay begins.
pub proof fn connected_destination_opens_tunnel(target: TargetAddress, bound: TargetAddress)
    ensures
        run(
            State::Resolved { target },
            seq![OutcomeView::Connected(bound), OutcomeView::Written],
        ) == (
            State::Relaying,
            seq![
                OperationView::Write(
                    seq![0x05u8, 0x00u8, 0x00u8, bound.ip.spec_kind().spec_tag()]
                        + bound.ip.spec_octets() + be_bytes(bound.port as nat, 2),
                ),
                OperationView::Relay(BUFFER_SIZE as nat),
            ],
        ),
{
    let start = State::Resolved { target };
    let connected = OutcomeView::Connected(bound);
    let reply = seq![0x05u8, 0x00u8, 0x00u8, bound.ip.spec_kind().spec_tag()]
        + bound.ip.spec_octets() + be_bytes(bound.port as nat, 2);
    assert(Reply::spec_succeeded(bound).spec_encode() =~= reply);
    lemma_run_one(start, connected);
    lemma_run_push(start, seq![connected], OutcomeView::Written);
    assert(seq![connected].push(OutcomeView::Written) =~= seq![connected, OutcomeView::Written]);
    assert(run(start, seq![connected, OutcomeView::Written]).1 =~= seq![
        OperationView::Write(reply),
        OperationView::Relay(BUFFER_SIZE as nat),
    ]);
}

/// A failure is fatal and silent: when anything but the connect attempt
/// fails (a read, a write, the resolution of a name), the connection
/// closes with `ConnectionFailed` and the client is sent nothing more.
pub proof fn failure_drops_connection(state: State, rest: Seq<OutcomeView>)
    requires
        !(state is Resolved),
        !(state is Closed),
    ensures
        run(state, seq![OutcomeView::Failed] + rest).0 == (State::Closed {
            error: Some(SOCKS5ConnectionErr::ConnectionFailed),
        }),
        sent(Side::Client, run(state, seq![OutcomeView::Failed] + rest).1) == Seq::<u8>::empty(),
        sent(Side::Destination, run(state, seq![OutcomeView::Failed] + rest).1)
            == Seq::<u8>::empty(),
{
    lemma_closing_step(state, OutcomeView::Failed, rest, Side::Client);
    lemma_closing_step(state, OutcomeView::Failed, rest, Side::Destination);
}

/// The error a request header is rejected with, if it is: the version is
/// looked at first, then the command, then the address type.
pub open spec fn request_error(header: Seq<u8>) -> Option<SOCKS5ConnectionErr>
    recommends
        header.len() == 4,
{
    if header[0] != PROTOCOL_VERSION {
        Some(SOCKS5ConnectionErr::InvalidVersion)
    } else if header[1] != PROXY_CMD_CONNECT {
        Some(SOCKS5ConnectionErr::UnsupportedCommand)
    } else if header[3] != 0x01 && header[3] != 0x03 && header[3] != 0x04 {
        Some(SOCKS5ConnectionErr::InvalidAddressType)
    } else {
        None
    }
}

/// A request that is not a CONNECT of this protocol to a known kind of
/// address is dropped without a reply: the connection closes with the
/// error that names the first thing wrong, and the client is sent nothing.
/// Any other request is read on.
pub proof fn bad_request_is_dropped_silently(header: Seq<u8>, rest: Seq<OutcomeView>)
    requires
        header.len() == 4,
    ensures
        request_error(header) is Some ==> {
            &&& run(State::AwaitRequestHeader, seq![OutcomeView::Read(header)] + rest).0 == (
            State::Closed { error: request_error(header) })
            &&& sent(
                Side::Client,
                run(State::AwaitRequestHeader, seq![OutcomeView::Read(header)] + rest).1,
            ) == Seq::<u8>::empty()
        },
        request_error(header) is None ==> step(
            State::AwaitRequestHeader,
            OutcomeView::Read(header),
        ).0 is AwaitAddress,
{
    if request_error(header) is Some {
        lemma_closing_step(
            State::AwaitRequestHeader,
            OutcomeView::Read(header),
            rest,
            Side::Client,
        );
    }
}

/// Whether what the client was sent begins with the method selection and
/// the success reply that names `bound`.
pub open spec fn opened_with(bound: TargetAddress, client: Seq<u8>) -> bool {
    (spec_method_selection() + Reply::spec_succeeded(bound).spec_encode()).is_prefix_of(client)
}

/// What the two peers can have been sent by the time a connection is in
/// `state`.
///
/// Up to the method selection nobody has been sent anything. From then
/// until the connect attempt the client has been sent the method
/// selection and no more. A client that is being refused has been sent
/// the refusal after it, a client whose tunnel opens one success reply.
/// Only behind a success reply is there relayed data, and only then has
/// the destination been sent anything. A closed connection has stopped at
/// one of these points.
pub open spec fn transcript_at(state: State, client: Seq<u8>, destination: Seq<u8>) -> bool {
    match state {
        State::AwaitGreeting | State::AwaitMethods { .. } => {
            &&& client == Seq::<u8>::empty()
            &&& destination == Seq::<u8>::empty()
        },
        State::GreetingReplied
        | State::AwaitRequestHeader
        | State::AwaitAddress { .. }
        | State::AwaitDomainName { .. }
        | State::Resolving
        | State::AwaitPort { .. }
        | State::Resolved { .. } => {
            &&& client == spec_method_selection()
            &&& destination == Seq::<u8>::empty()
        },
        State::Refusing => {
            &&& client == spec_method_selection() + Reply::spec_refused().spec_encode()
            &&& destination == Seq::<u8>::empty()
        },
        State::Replying => {
            &&& exists|bound: TargetAddress| #[trigger]
                opened_with(bound, client) && client == spec_method_selection()
                    + Reply::spec_succeeded(bound).spec_encode()
            &&& destination == Seq::<u8>::empty()
        },
        State::Relaying | State::Forwarding { .. } => exists|bound: TargetAddress|
            opened_with(bound, client),
        State::Closed { .. } => {
            ||| {
                &&& destination == Seq::<u8>::empty()
                &&& {
                    ||| client == Seq::<u8>::empty()
                    ||| client == spec_method_selection()
                    ||| client == spec_method_selection() + Reply::spec_refused().spec_encode()
                }
            }
            ||| exists|bound: TargetAddress| opened_with(bound, client)
        },
    }
}

/// A prefix stays one when bytes are appended.
proof fn lemma_opened_with_more(bound: TargetAddress, client: Seq<u8>, more: Seq<u8>)
    requires
        opened_with(bound, client),
    ensures
        opened_with(bound, client + more),
{
    let opening = spec_method_selection() + Reply::spec_succeeded(bound).spec_encode();
    assert((client + more).subrange(0, opening.len() as int) =~= client.subrange(
        0,
        opening.len() as int,
    ));
}

/// At most one reply, and no relay without it: whatever a driver reports
/// to a fresh connection, in whatever order, the bytes the two peers have
/// been sent are those that `transcript_at` allows for the state reached.
/// In particular the client is never sent a second reply, never a reply
/// before the method selection, and never relayed data before a success
/// reply; and the destination is sent nothing before the client has been
/// sent the success reply.
pub proof fn client_is_sent_one_reply_at_most(outcomes: Seq<OutcomeView>)
    ensures
        transcript_at(
            run(State::AwaitGreeting, outcomes).0,
            sent(Side::Client, run(State::AwaitGreeting, outcomes).1),
            sent(Side::Destination, run(State::AwaitGreeting, outcomes).1),
        ),
    decreases outcomes.len(),
{
    let start = State::AwaitGreeting;
    if outcomes.len() > 0 {
        let earlier = outcomes.drop_last();
        let outcome = outcomes.last();
        client_is_sent_one_reply_at_most(earlier);
        let before = run(start, earlier).0;
        let asked = run(start, earlier).1;
        let next = step(before, outcome).0;
        let operation = step(before, outcome).1;
        let client = sent(Side::Client, asked);
        let destination = sent(Side::Destination, asked);
        lemma_sent_push(Side::Client, asked, operation);
        lemma_sent_push(Side::Destination, asked, operation);
        let client_now = client + payload(Side::Client, operation);
        let destination_now = destination + payload(Side::Destination, operation);
        assert(client + Seq::<u8>::empty() =~= client);
        assert(destination + Seq::<u8>::empty() =~= destination);
        assert(Seq::<u8>::empty() + spec_method_selection() =~= spec_method_selection());
        if exists|bound: TargetAddress| opened_with(bound, client) {
            let bound = choose|bound: TargetAddress| opened_with(bound, client);
            lemma_opened_with_more(bound, client, payload(Side::Client, operation));
            assert(transcript_at(next, client_now, destination_now));
        } else if before is Resolved && outcome is Connected {
            let bound = outcome->Connected_0;
            let opening = spec_method_selection() + Reply::spec_succeeded(bound).spec_encode();
            assert(client_now =~= opening);
            assert(opening.subrange(0, opening.len() as int) =~= opening);
            assert(opened_with(bound, client_now));
            assert(transcript_at(next, client_now, destination_now));
        } else {
            assert(transcript_at(next, client_now, destination_now));
        }
    }
}

/// What a client can come to see, whatever happens: nothing at all; the
/// method selection; the method selection and the refusal; or the method
/// selection and one success reply, followed by what the relay passes on.
pub proof fn client_sees_reply_or_nothing(outcomes: Seq<OutcomeView>)
    ensures
        ({
            let client = sent(Side::Client, run(State::AwaitGreeting, outcomes).1);
            let destination = sent(Side::Destination, run(State::AwaitGreeting, outcomes).1);
            ||| client == Seq::<u8>::empty() && destination == Seq::<u8>::empty()
            ||| client == seq![0x05u8, 0x00u8] && destination == Seq::<u8>::empty()
            ||| client == seq![0x05u8, 0x00u8] + seq![
                0x05u8,
                0x05u8,
                0x00u8,
                0x01u8,
                0u8,
                0u8,
                0u8,
                0u8,
                0u8,
                0u8,
            ] && destination == Seq::<u8>::empty()
            ||| exists|bound: TargetAddress| opened_with(bound, client)
        }),
{
    client_is_sent_one_reply_at_most(outcomes);
    assert(spec_method_selection() =~= seq![0x05u8, 0x00u8]);
    assert(Reply::spec_refused().spec_encode() =~= seq![
        0x05u8,
        0x05u8,
        0x00u8,
        0x01u8,
        0u8,
        0u8,
        0u8,
        0u8,
        0u8,
        0u8,
    ]) by {
        reveal_with_fuel(be_bytes, 5);
    }
}

/// Transitions only lead forward: no outcome takes a connection back to
/// a state it has left. A step stays at its stage only where a fresh
/// connection is told that it was accepted, inside the relay, and once
/// the connection is closed; every other step moves on.
pub proof fn transitions_lead_forward(state: State, outcome: OutcomeView)
    ensures
        stage(state) <= stage(step(state, outcome).0),
        stage(state) == stage(step(state, outcome).0) ==> {
            ||| state is AwaitGreeting && outcome is Accepted
            ||| tunnel_open(state) && tunnel_open(step(state, outcome).0)
            ||| state is Closed
        },
{
}

/// A run never falls behind where it started.
pub proof fn runs_lead_forward(state: State, outcomes: Seq<OutcomeView>)
    ensures
        stage(state) <= stage(run(state, outcomes).0),
    decreases outcomes.len(),
{
    if outcomes.len() > 0 {
        runs_lead_forward(state, outcomes.drop_last());
        transitions_lead_forward(run(state, outcomes.drop_last()).0, outcomes.last());
    }
}

} // verus!
