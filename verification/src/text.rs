//! Message construction and decimal rendering for the prober.
//!
//! Every string a probe outcome carries is built here, so each caller can
//! state the exact character sequence of the message it returns.

use vstd::prelude::*;
use vstd::string::*;

verus! {

/// The character standing for one decimal digit.
pub open spec fn spec_digit_char(d: nat) -> char
    recommends
        d < 10,
{
    if d == 0 {
        '0'
    } else if d == 1 {
        '1'
    } else if d == 2 {
        '2'
    } else if d == 3 {
        '3'
    } else if d == 4 {
        '4'
    } else if d == 5 {
        '5'
    } else if d == 6 {
        '6'
    } else if d == 7 {
        '7'
    } else if d == 8 {
        '8'
    } else {
        '9'
    }
}

/// The usual decimal numeral of a natural number: no sign, no leading
/// zeros (except for zero itself).
pub open spec fn spec_udecimal(n: nat) -> Seq<char>
    decreases n,
{
    if n < 10 {
        seq![spec_digit_char(n)]
    } else {
        spec_udecimal(n / 10).push(spec_digit_char(n % 10))
    }
}

/// The decimal numeral of an integer, with a leading minus sign when
/// negative.
pub open spec fn spec_decimal(n: int) -> Seq<char> {
    if n < 0 {
        seq!['-'] + spec_udecimal((-n) as nat)
    } else {
        spec_udecimal(n as nat)
    }
}

/// The `host:port` form handed to a resolver.
pub open spec fn spec_host_port(host: Seq<char>, port: int) -> Seq<char> {
    host + ":"@ + spec_decimal(port)
}

fn digit_str(d: u64) -> (r: &'static str)
    requires
        d < 10,
    ensures
        r@ == seq![spec_digit_char(d as nat)],
{
    if d == 0 {
        proof {
            reveal_strlit("0");
        }
        assert("0"@ =~= seq![spec_digit_char(0)]);
        "0"
    } else if d == 1 {
        proof {
            reveal_strlit("1");
        }
        assert("1"@ =~= seq![spec_digit_char(1)]);
        "1"
    } else if d == 2 {
        proof {
            reveal_strlit("2");
        }
        assert("2"@ =~= seq![spec_digit_char(2)]);
        "2"
    } else if d == 3 {
        proof {
            reveal_strlit("3");
        }
        assert("3"@ =~= seq![spec_digit_char(3)]);
        "3"
    } else if d == 4 {
        proof {
            reveal_strlit("4");
        }
        assert("4"@ =~= seq![spec_digit_char(4)]);
        "4"
    } else if d == 5 {
        proof {
            reveal_strlit("5");
        }
        assert("5"@ =~= seq![spec_digit_char(5)]);
        "5"
    } else if d == 6 {
        proof {
            reveal_strlit("6");
        }
        assert("6"@ =~= seq![spec_digit_char(6)]);
        "6"
    } else if d == 7 {
        proof {
            reveal_strlit("7");
        }
        assert("7"@ =~= seq![spec_digit_char(7)]);
        "7"
    } else if d == 8 {
        proof {
            reveal_strlit("8");
        }
        assert("8"@ =~= seq![spec_digit_char(8)]);
        "8"
    } else {
        proof {
            reveal_strlit("9");
        }
        assert("9"@ =~= seq![spec_digit_char(9)]);
        "9"
    }
}

/// Renders a natural number in decimal.
pub fn udecimal_string(n: u64) -> (r: String)
    ensures
        r@ == spec_udecimal(n as nat),
    decreases n,
{
    if n < 10 {
        digit_str(n).to_owned()
    } else {
        let mut s = udecimal_string(n / 10);
        s.append(digit_str(n % 10));
        proof {
            assert(s@ =~= spec_udecimal(n as nat));
        }
        s
    }
}

/// Renders a signed port number in decimal.
pub fn decimal_string(n: i64) -> (r: String)
    ensures
        r@ == spec_decimal(n as int),
{
    if n < 0 {
        // The magnitude is computed in u64 so that the smallest i64 needs
        // no widening case of its own.
        let magnitude: u64 = (-(n as i128)) as u64;
        let mut s = "-".to_owned();
        s.append(udecimal_string(magnitude).as_str());
        proof {
            reveal_strlit("-");
            assert("-"@ =~= seq!['-']);
            assert(s@ =~= spec_decimal(n as int));
        }
        s
    } else {
        udecimal_string(n as u64)
    }
}

/// Builds the `host:port` string a resolver is asked about.
pub fn host_port_string(host: &String, port: i32) -> (r: String)
    ensures
        r@ == spec_host_port(host@, port as int),
{
    let mut s = host.as_str().to_owned();
    s.append(":");
    s.append(decimal_string(port as i64).as_str());
    s
}

/// Prepends a fixed prefix to a detail rendered elsewhere.
pub fn prefixed(prefix: &str, detail: &str) -> (r: String)
    ensures
        r@ == prefix@ + detail@,
{
    let mut s = prefix.to_owned();
    s.append(detail);
    s
}

} // verus!
