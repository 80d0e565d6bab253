//! Configuration values the core consumes: the listen address and the
//! token signing parameters. Loading them from a configuration file is
//! the embedding application's job.

use vstd::prelude::*;
use vstd::string::StringExecFns;

verus! {

/// Where the server listens.
pub struct Server {
    pub host: String,
    pub port: u16,
}

/// Token signing parameters: the symmetric secret and how long an
/// issued session stays valid, in days.
pub struct Jwt {
    pub secret: String,
    pub validity_days: u16,
}

/// All configuration the core reads.
pub struct Settings {
    pub server: Server,
    pub jwt: Jwt,
}

/// The character of one decimal digit.
pub open spec fn spec_digit_char(d: nat) -> char
    recommends
        d < 10,
{
    if d == 0 {
        '0'
    } else if d == 1 {
        '1'
    } else if d == 2 {
        '2'
    } else if d == 3 {
        '3'
    } else if d == 4 {
        '4'
    } else if d == 5 {
        '5'
    } else if d == 6 {
        '6'
    } else if d == 7 {
        '7'
    } else if d == 8 {
        '8'
    } else {
        '9'
    }
}

/// The decimal numeral of `n`, most significant digit first, without
/// leading zeros.
pub open spec fn spec_decimal(n: nat) -> Seq<char>
    decreases n,
{
    if n < 10 {
        seq![spec_digit_char(n)]
    } else {
        spec_decimal(n / 10).push(spec_digit_char(n % 10))
    }
}

/// One decimal digit as text.
fn digit_str(d: u16) -> (r: &'static str)
    requires
        d < 10,
    ensures
        r@ == seq![spec_digit_char(d as nat)],
{
    if d == 0 {
        proof {
            reveal_strlit("0");
            assert("0"@ =~= seq![spec_digit_char(0)]);
        }
        return "0";
    }
    if d == 1 {
        proof {
            reveal_strlit("1");
            assert("1"@ =~= seq![spec_digit_char(1)]);
        }
        return "1";
    }
    if d == 2 {
        proof {
            reveal_strlit("2");
            assert("2"@ =~= seq![spec_digit_char(2)]);
        }
        return "2";
    }
    if d == 3 {
        proof {
            reveal_strlit("3");
            assert("3"@ =~= seq![spec_digit_char(3)]);
        }
        return "3";
    }
    if d == 4 {
        proof {
            reveal_strlit("4");
            assert("4"@ =~= seq![spec_digit_char(4)]);
        }
        return "4";
    }
    if d == 5 {
        proof {
            reveal_strlit("5");
            assert("5"@ =~= seq![spec_digit_char(5)]);
        }
        return "5";
    }
    if d == 6 {
        proof {
            reveal_strlit("6");
            assert("6"@ =~= seq![spec_digit_char(6)]);
        }
        return "6";
    }
    if d == 7 {
        proof {
            reveal_strlit("7");
            assert("7"@ =~= seq![spec_digit_char(7)]);
        }
        return "7";
    }
    if d == 8 {
        proof {
            reveal_strlit("8");
            assert("8"@ =~= seq![spec_digit_char(8)]);
        }
        return "8";
    }
    proof {
        reveal_strlit("9");
        assert("9"@ =~= seq![spec_digit_char(d as nat)]);
    }
    "9"
}

/// Appends the decimal numeral of `value` to `out`.
fn push_decimal(value: u16, out: &mut String)
    ensures
        final(out)@ == old(out)@ + spec_decimal(value as nat),
    decreases value,
{
    if value < 10 {
        out.append(digit_str(value));
        proof {
            assert(out@ =~= old(out)@ + spec_decimal(value as nat));
        }
    } else {
        push_decimal(value / 10, out);
        out.append(digit_str(value % 10));
        proof {
            assert(out@ =~= old(out)@ + spec_decimal(value as nat));
        }
    }
}

impl Server {
    /// The listen address, written as host, a colon, and the decimal
    /// port.
    pub fn address(&self) -> (r: String)
        ensures
            r@ == self.host@ + seq![':'] + spec_decimal(self.port as nat),
    {
        let mut out = self.host.clone();
        out.append(":");
        proof {
            reveal_strlit(":");
            assert(out@ =~= self.host@ + seq![':']);
        }
        push_decimal(self.port, &mut out);
        proof {
            assert(out@ =~= self.host@ + seq![':'] + spec_decimal(self.port as nat));
        }
        out
    }
}

} // verus!
