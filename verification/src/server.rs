//! The proxy server: where it listens, and the modules that make up the
//! handling of one connection.

use vstd::prelude::*;
use vstd::string::StringExecFns;

pub mod connection;
pub mod guarantees;
pub mod machine;
pub mod transfer;
pub mod wire;

verus! {

/// The character that stands for a decimal digit.
pub open spec fn digit_char(digit: nat) -> char
    recommends
        digit < 10,
{
    if digit == 0 {
        '0'
    } else if digit == 1 {
        '1'
    } else if digit == 2 {
        '2'
    } else if digit == 3 {
        '3'
    } else if digit == 4 {
        '4'
    } else if digit == 5 {
        '5'
    } else if digit == 6 {
        '6'
    } else if digit == 7 {
        '7'
    } else if digit == 8 {
        '8'
    } else {
        '9'
    }
}

/// A number written in decimal, without leading zeros.
pub open spec fn decimal(number: nat) -> Seq<char>
    decreases number,
{
    if number < 10 {
        seq![digit_char(number)]
    } else {
        decimal(number / 10).push(digit_char(number % 10))
    }
}

/// The text of one decimal digit.
fn digit_text(digit: u16) -> (text: &'static str)
    requires
        digit < 10,
    ensures
        text@ == seq![digit_char(digit as nat)],
{
    proof {
        reveal_strlit("0");
        reveal_strlit("1");
        reveal_strlit("2");
        reveal_strlit("3");
        reveal_strlit("4");
        reveal_strlit("5");
        reveal_strlit("6");
        reveal_strlit("7");
        reveal_strlit("8");
        reveal_strlit("9");
    }
    let text = if digit == 0 {
        "0"
    } else if digit == 1 {
        "1"
    } else if digit == 2 {
        "2"
    } else if digit == 3 {
        "3"
    } else if digit == 4 {
        "4"
    } else if digit == 5 {
        "5"
    } else if digit == 6 {
        "6"
    } else if digit == 7 {
        "7"
    } else if digit == 8 {
        "8"
    } else {
        "9"
    };
    assert(text@ =~= seq![digit_char(digit as nat)]);
    text
}

/// Appends `number` in decimal.
fn push_decimal(out: &mut String, number: u16)
    ensures
        final(out)@ == old(out)@ + decimal(number as nat),
    decreases number,
{
    if number >= 10 {
        push_decimal(out, number / 10);
    }
    out.append(digit_text(number % 10));
    assert(out@ =~= old(out)@ + decimal(number as nat));
}

/// Where the proxy listens: a host and a TCP port.
#[derive(Debug)]
pub struct SOCKS5Server {
    address: String,
    port: u16,
}

impl SOCKS5Server {
    /// The host this server binds to.
    pub closed spec fn spec_address(&self) -> Seq<char> {
        self.address@
    }

    /// The port this server binds to.
    pub closed spec fn spec_port(&self) -> u16 {
        self.port
    }

    /// The text a listener is bound to: host, a colon, the port in decimal.
    pub open spec fn spec_bind_address(&self) -> Seq<char> {
        self.spec_address() + seq![':'] + decimal(self.spec_port() as nat)
    }

    /// A server that will listen on `address` and `port`.
    pub fn new(address: String, port: u16) -> (server: Self)
        ensures
            server.spec_address() == address@,
            server.spec_port() == port,
    {
        SOCKS5Server { address, port }
    }

    /// The host this server binds to.
    pub fn address(&self) -> (address: &str)
        ensures
            address@ == self.spec_address(),
    {
        self.address.as_str()
    }

    /// The port this server binds to.
    pub fn port(&self) -> (port: u16)
        ensures
            port == self.spec_port(),
    {
        self.port
    }

    /// The address to bind the listening socket to, as `host:port`.
    pub fn bind_address(&self) -> (text: String)
        ensures
            text@ == self.spec_bind_address(),
    {
        let mut text = self.address.clone();
        text.append(":");
        proof {
            reveal_strlit(":");
            assert(":"@ =~= seq![':']);
        }
        push_decimal(&mut text, self.port);
        text
    }
}

} // verus!
