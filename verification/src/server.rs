//! The address of the local static file server.

use vstd::prelude::*;
use crate::text::push_char;

verus! {

/// The decimal digit character for `d < 10`.
pub open spec fn digit_char(d: nat) -> char {
    ((d + 48) as u8) as char
}

/// The decimal notation of `n`, without leading zeros.
pub open spec fn decimal(n: nat) -> Seq<char>
    decreases n,
{
    if n < 10 {
        seq![digit_char(n)]
    } else {
        decimal(n / 10).push(digit_char(n % 10))
    }
}

/// The number that a string of decimal digits denotes.
pub open spec fn digits_value(s: Seq<char>) -> int
    decreases s.len(),
{
    if s.len() == 0 {
        0
    } else {
        digits_value(s.drop_last()) * 10 + ((s.last() as int) - 48)
    }
}

/// Law: the decimal notation written into the server's address and URL
/// consists of digits only and denotes the port exactly.
pub proof fn law_decimal_denotes_number(n: nat)
    ensures
        digits_value(decimal(n)) == n,
        forall|i: int| 0 <= i < decimal(n).len() ==> '0' <= #[trigger] decimal(n)[i] <= '9',
    decreases n,
{
    if n >= 10 {
        law_decimal_denotes_number(n / 10);
        let d = decimal(n);
        assert(d.drop_last() =~= decimal(n / 10));
        assert((digit_char(n % 10) as int) == n % 10 + 48);
        assert(d.last() == digit_char(n % 10));
        assert((n / 10) * 10 + n % 10 == n) by (nonlinear_arith);
        assert(digits_value(d) == digits_value(decimal(n / 10)) * 10 + (n % 10));
    } else {
        assert((digit_char(n) as int) == n + 48);
        assert(decimal(n).drop_last() =~= Seq::<char>::empty());
        assert(digits_value(Seq::<char>::empty()) == 0);
        assert(decimal(n).last() == digit_char(n));
    }
}

/// Appends the decimal notation of `n` to `s`.
pub fn push_decimal(s: &mut String, n: u16)
    ensures
        final(s)@ == old(s)@ + decimal(n as nat),
    decreases n,
{
    if n >= 10 {
        push_decimal(s, n / 10);
    }
    let d: u8 = (n % 10) as u8;
    push_char(s, (d + 48) as char);
    assert(final(s)@ =~= old(s)@ + decimal(n as nat)) by {
        if n >= 10 {
            assert(decimal(n as nat) == decimal((n / 10) as nat).push(digit_char((n % 10) as nat)));
        }
    }
}

/// The `host:port` address of the server on the loopback interface.
pub open spec fn spec_bind_address(port: u16) -> Seq<char> {
    "127.0.0.1:"@ + decimal(port as nat)
}

/// The URL under which the server is reached.
pub open spec fn spec_url(port: u16) -> Seq<char> {
    "http://"@ + spec_bind_address(port)
}

/// A static file server listening on the loopback interface.
pub struct StaticFileServer {
    port: u16,
}

impl StaticFileServer {
    /// The server listening on `port`.
    pub fn new(port: u16) -> (r: StaticFileServer)
        ensures
            r.spec_port() == port,
    {
        StaticFileServer { port }
    }

    pub closed spec fn spec_port(&self) -> u16 {
        self.port
    }

    /// The port the server listens on.
    pub fn port(&self) -> (r: u16)
        ensures
            r == self.spec_port(),
    {
        self.port
    }

    /// The address the server binds to, `127.0.0.1:<port>`.
    pub fn bind_address(&self) -> (r: String)
        ensures
            r@ == spec_bind_address(self.spec_port()),
    {
        let mut s = String::from_str("127.0.0.1:");
        push_decimal(&mut s, self.port);
        s
    }

    /// The server's URL, `http://127.0.0.1:<port>`.
    pub fn url(&self) -> (r: String)
        ensures
            r@ == spec_url(self.spec_port()),
    {
        let mut s = String::from_str("http://");
        s.append(self.bind_address().as_str());
        assert(s@ =~= spec_url(self.spec_port()));
        s
    }
}

} // verus!
