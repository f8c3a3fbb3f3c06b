//! The broker's address: what an AMQP URI says, and the `host:port` text of
//! the network address that the connection is made to.

use amq_protocol::uri::{AMQPScheme, AMQPUri};
use std::str::FromStr;
use vstd::prelude::*;

verus! {

/// What an AMQP URI says of the broker and of the connection to it.
#[derive(Debug, Clone, PartialEq, Eq)]
pub struct BrokerUri {
    /// Whether the scheme is `amqps` rather than `amqp`.
    pub secure: bool,
    pub username: String,
    pub password: String,
    pub host: String,
    pub port: u16,
    pub vhost: String,
    pub frame_max: Option<u32>,
    pub heartbeat: Option<u16>,
}

/// The parts of a URI with sequences in place of the strings.
pub struct BrokerUriView {
    pub secure: bool,
    pub username: Seq<char>,
    pub password: Seq<char>,
    pub host: Seq<char>,
    pub port: u16,
    pub vhost: Seq<char>,
    pub frame_max: Option<u32>,
    pub heartbeat: Option<u16>,
}

impl View for BrokerUri {
    type V = BrokerUriView;

    open spec fn view(&self) -> BrokerUriView {
        BrokerUriView {
            secure: self.secure,
            username: self.username@,
            password: self.password@,
            host: self.host@,
            port: self.port,
            vhost: self.vhost@,
            frame_max: self.frame_max,
            heartbeat: self.heartbeat,
        }
    }
}

/// What the parser of `amq_protocol` makes of the text `text`: the parts of
/// the URI, or the message that says why the text is no AMQP URI.
pub uninterp spec fn amqp_uri(text: Seq<char>) -> Result<BrokerUriView, Seq<char>>;

/// `AMQPUri::from_str` of `amq_protocol`: parses `text` as an AMQP URI. The
/// result depends on the text alone and is named `amqp_uri`; the fields are
/// handed over one for one.
#[verifier::external_body]
pub(crate) fn parse(text: &str) -> (parsed: Result<BrokerUri, String>)
    ensures
        amqp_uri(text@) == match parsed {
            Ok(uri) => Ok::<BrokerUriView, Seq<char>>(uri@),
            Err(reason) => Err::<BrokerUriView, Seq<char>>(reason@),
        },
{
    AMQPUri::from_str(text).map(
        |uri| BrokerUri {
            secure: match uri.scheme { AMQPScheme::AMQP => false, AMQPScheme::AMQPS => true },
            username: uri.authority.userinfo.username,
            password: uri.authority.userinfo.password,
            host: uri.authority.host,
            port: uri.authority.port,
            vhost: uri.vhost,
            frame_max: uri.query.frame_max,
            heartbeat: uri.query.heartbeat,
        },
    )
}

/// The decimal digit of `d`, for `d` below ten.
pub open spec fn digit(d: nat) -> char {
    if d == 0 {
        '0'
    } else if d == 1 {
        '1'
    } else if d == 2 {
        '2'
    } else if d == 3 {
        '3'
    } else if d == 4 {
        '4'
    } else if d == 5 {
        '5'
    } else if d == 6 {
        '6'
    } else if d == 7 {
        '7'
    } else if d == 8 {
        '8'
    } else {
        '9'
    }
}

/// The decimal numeral of `n`, without leading zeros.
pub open spec fn decimal(n: nat) -> Seq<char>
    decreases n,
{
    if n < 10 {
        seq![digit(n)]
    } else {
        decimal(n / 10).push(digit(n % 10))
    }
}

/// The text of the network address of `host` at `port`: the host, a colon,
/// and the port as a decimal numeral.
pub open spec fn authority(host: Seq<char>, port: u16) -> Seq<char> {
    host + seq![':'] + decimal(port as nat)
}

fn digit_text(d: u16) -> (text: &'static str)
    requires
        d < 10,
    ensures
        text@ == seq![digit(d as nat)],
{
    proof {
        reveal_strlit("0");
        reveal_strlit("1");
        reveal_strlit("2");
        reveal_strlit("3");
        reveal_strlit("4");
        reveal_strlit("5");
        reveal_strlit("6");
        reveal_strlit("7");
        reveal_strlit("8");
        reveal_strlit("9");
    }
    let text = if d == 0 {
        "0"
    } else if d == 1 {
        "1"
    } else if d == 2 {
        "2"
    } else if d == 3 {
        "3"
    } else if d == 4 {
        "4"
    } else if d == 5 {
        "5"
    } else if d == 6 {
        "6"
    } else if d == 7 {
        "7"
    } else if d == 8 {
        "8"
    } else {
        "9"
    };
    assert(text@ =~= seq![digit(d as nat)]);
    text
}

/// Appends the decimal numeral of `n` to `text`.
fn append_decimal(text: &mut String, n: u16)
    ensures
        final(text)@ == old(text)@ + decimal(n as nat),
    decreases n,
{
    if n >= 10 {
        append_decimal(text, n / 10);
    }
    text.append(digit_text(n % 10));
    assert(text@ =~= old(text)@ + decimal(n as nat));
}

impl BrokerUri {
    /// The text of the broker's network address, `host:port`.
    pub fn address(&self) -> (text: String)
        ensures
            text@ == authority(self.host@, self.port),
    {
        let mut text = self.host.clone();
        proof {
            reveal_strlit(":");
        }
        text.append(":");
        assert(text@ =~= self.host@ + seq![':']);
        append_decimal(&mut text, self.port);
        text
    }
}

} // verus!
