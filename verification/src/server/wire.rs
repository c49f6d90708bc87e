//! The SOCKS5 wire format: protocol constants, the values a request names,
//! and the big-endian integer encoding shared by addresses and ports.

use vstd::prelude::*;
use vstd::utf8::{decode_utf8, valid_utf8};

verus! {

/// The only protocol version this server speaks.
pub const PROTOCOL_VERSION: u8 = 0x05;

/// Method identifier for "no authentication required".
pub const NO_AUTHENTICATION_REQUIRED: u8 = 0x00;

/// Command byte of a CONNECT request.
pub const PROXY_CMD_CONNECT: u8 = 0x01;

/// Address-type tag of a 4-byte IPv4 address.
pub const ADDRESS_TYPE_IPV4: u8 = 0x01;

/// Address-type tag of a length-prefixed domain name.
pub const ADDRESS_TYPE_DOMAIN_NAME: u8 = 0x03;

/// Address-type tag of a 16-byte IPv6 address.
pub const ADDRESS_TYPE_IPV6: u8 = 0x04;

/// Reply code: the tunnel is established.
pub const REPLY_SUCCEEDED: u8 = 0x00;

/// Reply code: the destination could not be reached.
pub const REPLY_CONNECTION_REFUSED: u8 = 0x05;

/// Value of the reserved byte in requests and replies.
pub const RESERVED: u8 = 0x00;

/// Size of the buffer one relay read fills at most.
pub const BUFFER_SIZE: usize = 4096;

/// Why a connection was dropped.
#[derive(Clone, Copy, Debug, PartialEq, Eq, Structural)]
pub enum SOCKS5ConnectionErr {
    /// A greeting or request did not start with the protocol version.
    InvalidVersion,
    /// The client did not offer "no authentication required".
    UnsupportedAuthMethod,
    /// The request's command is not CONNECT.
    UnsupportedCommand,
    /// The request's address-type tag is not one of the three known.
    InvalidAddressType,
    /// Reading, writing, resolving or connecting failed.
    ConnectionFailed,
}

impl SOCKS5ConnectionErr {
    /// The text that describes this error.
    pub open spec fn spec_message(self) -> Seq<char> {
        match self {
            SOCKS5ConnectionErr::InvalidVersion => "Invalid SOCKS5 version"@,
            SOCKS5ConnectionErr::UnsupportedCommand => "Unsupported SOCKS5 command"@,
            SOCKS5ConnectionErr::InvalidAddressType => "Invalid SOCKS5 address type"@,
            SOCKS5ConnectionErr::ConnectionFailed => "Failed to connect to destination"@,
            SOCKS5ConnectionErr::UnsupportedAuthMethod => "Unsupported SOCKS5 authentication method"@,
        }
    }

    /// A human-readable description, one fixed text per variant.
    pub fn message(&self) -> (text: &'static str)
        ensures
            text@ == self.spec_message(),
    {
        match self {
            SOCKS5ConnectionErr::InvalidVersion => "Invalid SOCKS5 version",
            SOCKS5ConnectionErr::UnsupportedCommand => "Unsupported SOCKS5 command",
            SOCKS5ConnectionErr::InvalidAddressType => "Invalid SOCKS5 address type",
            SOCKS5ConnectionErr::ConnectionFailed => "Failed to connect to destination",
            SOCKS5ConnectionErr::UnsupportedAuthMethod => "Unsupported SOCKS5 authentication method",
        }
    }
}

/// How the address of a request or reply is laid out on the wire.
#[derive(Clone, Copy, Debug, PartialEq, Eq, Structural)]
pub enum AddressType {
    /// Four address bytes.
    IPv4,
    /// Sixteen address bytes.
    IPv6,
    /// One length byte, then that many bytes of host name.
    DomainName,
}

impl AddressType {
    /// The address type a tag byte stands for, if any.
    pub open spec fn spec_from_tag(tag: u8) -> Option<AddressType> {
        if tag == ADDRESS_TYPE_IPV4 {
            Some(AddressType::IPv4)
        } else if tag == ADDRESS_TYPE_IPV6 {
            Some(AddressType::IPv6)
        } else if tag == ADDRESS_TYPE_DOMAIN_NAME {
            Some(AddressType::DomainName)
        } else {
            None
        }
    }

    /// The tag byte that stands for this address type.
    pub open spec fn spec_tag(self) -> u8 {
        match self {
            AddressType::IPv4 => ADDRESS_TYPE_IPV4,
            AddressType::IPv6 => ADDRESS_TYPE_IPV6,
            AddressType::DomainName => ADDRESS_TYPE_DOMAIN_NAME,
        }
    }

    /// How many bytes follow the tag before anything else is known: the
    /// whole address for the two fixed-width types, the length byte for a
    /// domain name.
    pub open spec fn spec_first_read(self) -> nat {
        match self {
            AddressType::IPv4 => 4,
            AddressType::IPv6 => 16,
            AddressType::DomainName => 1,
        }
    }

    /// Decodes a tag byte; `None` for every byte but 0x01, 0x03 and 0x04.
    pub fn from_tag(tag: u8) -> (kind: Option<AddressType>)
        ensures
            kind == Self::spec_from_tag(tag),
    {
        if tag == ADDRESS_TYPE_IPV4 {
            Some(AddressType::IPv4)
        } else if tag == ADDRESS_TYPE_IPV6 {
            Some(AddressType::IPv6)
        } else if tag == ADDRESS_TYPE_DOMAIN_NAME {
            Some(AddressType::DomainName)
        } else {
            None
        }
    }

    /// The tag byte of this address type.
    pub fn tag(self) -> (tag: u8)
        ensures
            tag == self.spec_tag(),
    {
        match self {
            AddressType::IPv4 => ADDRESS_TYPE_IPV4,
            AddressType::IPv6 => ADDRESS_TYPE_IPV6,
            AddressType::DomainName => ADDRESS_TYPE_DOMAIN_NAME,
        }
    }

    /// The length of the first read after the tag.
    pub fn first_read(self) -> (len: usize)
        ensures
            len == self.spec_first_read(),
    {
        match self {
            AddressType::IPv4 => 4,
            AddressType::IPv6 => 16,
            AddressType::DomainName => 1,
        }
    }
}

/// The number of values `n` bytes can hold: 256 to the power `n`.
pub open spec fn pow256(n: nat) -> nat
    decreases n,
{
    if n == 0 {
        1
    } else {
        256 * pow256((n - 1) as nat)
    }
}

/// The unsigned integer that `bytes` spell out, most significant byte first.
pub open spec fn be_value(bytes: Seq<u8>) -> nat
    decreases bytes.len(),
{
    if bytes.len() == 0 {
        0
    } else {
        be_value(bytes.drop_last()) * 256 + bytes.last() as nat
    }
}

/// The `width` low-order bytes of `value`, most significant byte first.
pub open spec fn be_bytes(value: nat, width: nat) -> Seq<u8>
    decreases width,
{
    if width == 0 {
        Seq::empty()
    } else {
        be_bytes(value / 256, (width - 1) as nat).push((value % 256) as u8)
    }
}

/// `be_bytes` yields exactly `width` bytes.
pub proof fn lemma_be_bytes_len(value: nat, width: nat)
    ensures
        be_bytes(value, width).len() == width,
    decreases width,
{
    if width > 0 {
        lemma_be_bytes_len(value / 256, (width - 1) as nat);
    }
}

/// What `n` bytes spell out is below 256 to the power `n`.
pub proof fn lemma_be_value_bound(bytes: Seq<u8>)
    ensures
        be_value(bytes) < pow256(bytes.len()),
    decreases bytes.len(),
{
    if bytes.len() > 0 {
        lemma_be_value_bound(bytes.drop_last());
    }
}

/// More bytes hold more values.
pub proof fn lemma_pow256_monotonic(a: nat, b: nat)
    requires
        a <= b,
    ensures
        pow256(a) <= pow256(b),
        pow256(a) > 0,
    decreases b,
{
    if a < b {
        lemma_pow256_monotonic(a, (b - 1) as nat);
    } else if a > 0 {
        lemma_pow256_monotonic((a - 1) as nat, (b - 1) as nat);
    }
}

/// The widths this protocol uses, as numbers.
pub proof fn lemma_pow256_values()
    ensures
        pow256(1) == 0x100,
        pow256(2) == 0x1_0000,
        pow256(4) == 0x1_0000_0000,
        pow256(15) == 0x0100_0000_0000_0000_0000_0000_0000_0000,
        pow256(16) == 0x1_0000_0000_0000_0000_0000_0000_0000_0000,
{
    reveal_with_fuel(pow256, 17);
}

/// Decoding what was encoded gives the value back, provided it fits the width.
pub proof fn lemma_be_value_of_bytes(value: nat, width: nat)
    requires
        value < pow256(width),
    ensures
        be_value(be_bytes(value, width)) == value,
    decreases width,
{
    if width > 0 {
        let rest = value / 256;
        assert(rest < pow256((width - 1) as nat));
        lemma_be_value_of_bytes(rest, (width - 1) as nat);
        let encoded = be_bytes(value, width);
        assert(encoded.drop_last() =~= be_bytes(rest, (width - 1) as nat));
        assert(encoded.last() == (value % 256) as u8);
    }
}

/// Encoding what was decoded, at the same width, gives the bytes back.
pub proof fn lemma_be_bytes_of_value(bytes: Seq<u8>)
    ensures
        be_bytes(be_value(bytes), bytes.len()) == bytes,
    decreases bytes.len(),
{
    if bytes.len() > 0 {
        let init = bytes.drop_last();
        lemma_be_bytes_of_value(init);
        let value = be_value(bytes);
        assert(value / 256 == be_value(init));
        assert(value % 256 == bytes.last() as nat);
        assert(be_bytes(value, bytes.len()) =~= init.push(bytes.last()));
        assert(init.push(bytes.last()) =~= bytes);
    }
}

/// Reads a big-endian unsigned integer of at most sixteen bytes.
pub(crate) fn decode_be(bytes: &[u8]) -> (value: u128)
    requires
        bytes@.len() <= 16,
    ensures
        value == be_value(bytes@),
{
    let mut value: u128 = 0;
    let mut i: usize = 0;
    while i < bytes.len()
        invariant
            i <= bytes@.len() <= 16,
            value == be_value(bytes@.take(i as int)),
        decreases bytes@.len() - i,
    {
        proof {
            let seen = bytes@.take(i as int);
            let next = bytes@.take(i + 1);
            assert(next.drop_last() =~= seen);
            assert(next.last() == bytes@[i as int]);
            lemma_be_value_bound(seen);
            lemma_pow256_monotonic(i as nat, 15);
            lemma_pow256_values();
        }
        value = value * 256 + bytes[i] as u128;
        i += 1;
    }
    assert(bytes@.take(i as int) =~= bytes@);
    value
}

/// Appends the `width` low-order bytes of `value`, most significant first.
pub(crate) fn push_be(out: &mut Vec<u8>, value: u128, width: usize)
    requires
        width <= 16,
    ensures
        final(out)@ == old(out)@ + be_bytes(value as nat, width as nat),
    decreases width,
{
    if width > 0 {
        push_be(out, value / 256, width - 1);
        out.push((value % 256) as u8);
    }
    assert(out@ =~= old(out)@ + be_bytes(value as nat, width as nat));
}

/// An IP address, held as the unsigned integer its bytes spell out in
/// network order: thirty-two bits for version 4, 128 for version 6.
#[derive(Clone, Copy, Debug, PartialEq, Eq, Structural)]
pub enum IpAddress {
    /// An IPv4 address.
    V4(u32),
    /// An IPv6 address.
    V6(u128),
}

impl IpAddress {
    /// The wire layout of this address.
    pub open spec fn spec_kind(self) -> AddressType {
        match self {
            IpAddress::V4(_) => AddressType::IPv4,
            IpAddress::V6(_) => AddressType::IPv6,
        }
    }

    /// The address bytes in network order: four or sixteen of them.
    pub open spec fn spec_octets(self) -> Seq<u8> {
        match self {
            IpAddress::V4(bits) => be_bytes(bits as nat, 4),
            IpAddress::V6(bits) => be_bytes(bits as nat, 16),
        }
    }

    /// The address that `bytes` hold when laid out as `kind`: defined for
    /// four bytes of IPv4 and sixteen bytes of IPv6, and for nothing else.
    pub open spec fn spec_from_octets(kind: AddressType, bytes: Seq<u8>) -> Option<IpAddress> {
        match kind {
            AddressType::IPv4 => if bytes.len() == 4 {
                Some(IpAddress::V4(be_value(bytes) as u32))
            } else {
                None
            },
            AddressType::IPv6 => if bytes.len() == 16 {
                Some(IpAddress::V6(be_value(bytes) as u128))
            } else {
                None
            },
            AddressType::DomainName => None,
        }
    }

    /// Whether this is an IPv4 or an IPv6 address.
    pub fn kind(&self) -> (kind: AddressType)
        ensures
            kind == self.spec_kind(),
    {
        match self {
            IpAddress::V4(_) => AddressType::IPv4,
            IpAddress::V6(_) => AddressType::IPv6,
        }
    }

    /// The raw address bytes, as they travel in a request or reply.
    pub fn octets(&self) -> (bytes: Vec<u8>)
        ensures
            bytes@ == self.spec_octets(),
    {
        let mut bytes: Vec<u8> = Vec::new();
        match self {
            IpAddress::V4(bits) => push_be(&mut bytes, *bits as u128, 4),
            IpAddress::V6(bits) => push_be(&mut bytes, *bits, 16),
        }
        bytes
    }

    /// Decodes the raw address bytes of a request. `None` unless `kind` is
    /// one of the two fixed-width types and `bytes` has exactly its width.
    pub fn from_octets(kind: AddressType, bytes: &[u8]) -> (ip: Option<IpAddress>)
        ensures
            ip == Self::spec_from_octets(kind, bytes@),
    {
        match kind {
            AddressType::IPv4 => {
                if bytes.len() == 4 {
                    proof {
                        lemma_be_value_bound(bytes@);
                        lemma_pow256_values();
                    }
                    Some(IpAddress::V4(decode_be(bytes) as u32))
                } else {
                    None
                }
            },
            AddressType::IPv6 => {
                if bytes.len() == 16 {
                    Some(IpAddress::V6(decode_be(bytes)))
                } else {
                    None
                }
            },
            AddressType::DomainName => None,
        }
    }
}

/// The port that two bytes spell out in network order.
pub open spec fn spec_decode_port(bytes: Seq<u8>) -> Option<u16> {
    if bytes.len() == 2 {
        Some(be_value(bytes) as u16)
    } else {
        None
    }
}

/// Decodes a port from its two bytes in network order. `None` unless
/// `bytes` has exactly two bytes.
pub fn decode_port(bytes: &[u8]) -> (port: Option<u16>)
    ensures
        port == spec_decode_port(bytes@),
{
    if bytes.len() == 2 {
        proof {
            lemma_be_value_bound(bytes@);
            lemma_pow256_values();
        }
        Some(decode_be(bytes) as u16)
    } else {
        None
    }
}

/// The two bytes of a port in network order.
pub fn encode_port(port: u16) -> (bytes: Vec<u8>)
    ensures
        bytes@ == be_bytes(port as nat, 2),
{
    let mut bytes: Vec<u8> = Vec::new();
    push_be(&mut bytes, port as u128, 2);
    bytes
}

/// A network endpoint: an IP address and a TCP port.
#[derive(Clone, Copy, Debug, PartialEq, Eq, Structural)]
pub struct TargetAddress {
    /// The endpoint's IP address.
    pub ip: IpAddress,
    /// The endpoint's TCP port.
    pub port: u16,
}

impl TargetAddress {
    /// The IPv4 endpoint 0.0.0.0:0, which a refusal carries.
    pub open spec fn spec_unspecified() -> TargetAddress {
        TargetAddress { ip: IpAddress::V4(0), port: 0 }
    }

    /// Address-type tag, raw address bytes, and port in network order.
    pub open spec fn spec_encode(self) -> Seq<u8> {
        seq![self.ip.spec_kind().spec_tag()] + self.ip.spec_octets() + be_bytes(
            self.port as nat,
            2,
        )
    }

    /// The IPv4 endpoint with an all-zero address and port zero.
    pub fn unspecified() -> (target: TargetAddress)
        ensures
            target == Self::spec_unspecified(),
    {
        TargetAddress { ip: IpAddress::V4(0), port: 0 }
    }

    /// Appends this endpoint as it travels in a reply: the address-type
    /// tag, the raw address bytes, the port in network order.
    pub fn encode_into(&self, out: &mut Vec<u8>)
        ensures
            final(out)@ == old(out)@ + self.spec_encode(),
    {
        out.push(self.ip.kind().tag());
        match self.ip {
            IpAddress::V4(bits) => push_be(out, bits as u128, 4),
            IpAddress::V6(bits) => push_be(out, bits, 16),
        }
        push_be(out, self.port as u128, 2);
        assert(out@ =~= old(out)@ + self.spec_encode());
    }
}

/// The outcome a reply reports to the client.
#[derive(Clone, Copy, Debug, PartialEq, Eq, Structural)]
pub enum ReplyCode {
    /// The destination is connected.
    Succeeded,
    /// The destination could not be connected.
    ConnectionRefused,
}

impl ReplyCode {
    /// The reply's second byte.
    pub open spec fn spec_byte(self) -> u8 {
        match self {
            ReplyCode::Succeeded => REPLY_SUCCEEDED,
            ReplyCode::ConnectionRefused => REPLY_CONNECTION_REFUSED,
        }
    }

    /// The byte that stands for this code on the wire.
    pub fn byte(self) -> (byte: u8)
        ensures
            byte == self.spec_byte(),
    {
        match self {
            ReplyCode::Succeeded => REPLY_SUCCEEDED,
            ReplyCode::ConnectionRefused => REPLY_CONNECTION_REFUSED,
        }
    }
}

/// What the server answers to a request: an outcome and a bound endpoint.
#[derive(Clone, Copy, Debug, PartialEq, Eq, Structural)]
pub struct Reply {
    /// Whether the destination was reached.
    pub code: ReplyCode,
    /// The local endpoint of the destination socket, or 0.0.0.0:0.
    pub bound: TargetAddress,
}

impl Reply {
    /// The reply to a request whose destination was connected from `bound`.
    pub open spec fn spec_succeeded(bound: TargetAddress) -> Reply {
        Reply { code: ReplyCode::Succeeded, bound }
    }

    /// The reply to a request whose destination could not be connected.
    pub open spec fn spec_refused() -> Reply {
        Reply { code: ReplyCode::ConnectionRefused, bound: TargetAddress::spec_unspecified() }
    }

    /// The reply on the wire: version, code, reserved byte, bound endpoint.
    pub open spec fn spec_encode(self) -> Seq<u8> {
        seq![PROTOCOL_VERSION, self.code.spec_byte(), RESERVED] + self.bound.spec_encode()
    }

    /// The reply that announces an established tunnel.
    pub fn succeeded(bound: TargetAddress) -> (reply: Reply)
        ensures
            reply == Self::spec_succeeded(bound),
    {
        Reply { code: ReplyCode::Succeeded, bound }
    }

    /// The reply that announces a refused connection.
    pub fn refused() -> (reply: Reply)
        ensures
            reply == Self::spec_refused(),
    {
        Reply { code: ReplyCode::ConnectionRefused, bound: TargetAddress::unspecified() }
    }

    /// Encodes the reply for the wire.
    pub fn encode(&self) -> (bytes: Vec<u8>)
        ensures
            bytes@ == self.spec_encode(),
    {
        let mut bytes: Vec<u8> = Vec::new();
        bytes.push(PROTOCOL_VERSION);
        bytes.push(self.code.byte());
        bytes.push(RESERVED);
        self.bound.encode_into(&mut bytes);
        assert(bytes@ =~= self.spec_encode());
        bytes
    }
}

/// The two bytes the server answers a greeting with: the protocol version
/// and the one method it accepts.
pub open spec fn spec_method_selection() -> Seq<u8> {
    seq![PROTOCOL_VERSION, NO_AUTHENTICATION_REQUIRED]
}

/// The answer to an acceptable greeting.
pub fn method_selection() -> (bytes: Vec<u8>)
    ensures
        bytes@ == spec_method_selection(),
{
    let mut bytes: Vec<u8> = Vec::new();
    bytes.push(PROTOCOL_VERSION);
    bytes.push(NO_AUTHENTICATION_REQUIRED);
    assert(bytes@ =~= spec_method_selection());
    bytes
}

/// Whether a list of offered methods holds "no authentication required".
pub open spec fn offers_no_authentication(methods: Seq<u8>) -> bool {
    methods.contains(NO_AUTHENTICATION_REQUIRED)
}

/// Looks for "no authentication required" among the offered methods.
pub fn accepts_methods(methods: &[u8]) -> (accepted: bool)
    ensures
        accepted == offers_no_authentication(methods@),
{
    let mut i: usize = 0;
    while i < methods.len()
        invariant
            i <= methods@.len(),
            forall|j: int| 0 <= j < i ==> methods@[j] != NO_AUTHENTICATION_REQUIRED,
        decreases methods@.len() - i,
    {
        if methods[i] == NO_AUTHENTICATION_REQUIRED {
            return true;
        }
        i += 1;
    }
    false
}

/// The text `String::from_utf8_lossy` makes of `bytes`.
pub uninterp spec fn lossy_utf8(bytes: Seq<u8>) -> Seq<char>;

/// Decodes the bytes of a host name with `String::from_utf8_lossy`.
///
/// Trusted, not proved: the result is the text that function makes of the
/// bytes, which depends on the bytes alone; and, as its documentation says,
/// bytes that are valid UTF-8 come out as the text they encode, unchanged.
#[verifier::external_body]
pub(crate) fn decode_host_name(bytes: &[u8]) -> (name: String)
    ensures
        name@ == lossy_utf8(bytes@),
        valid_utf8(bytes@) ==> name@ == decode_utf8(bytes@),
{
    String::from_utf8_lossy(bytes).into_owned()
}

} // verus!
