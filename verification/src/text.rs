//! Verified construction of the text the crate derives from port numbers:
//! decimal renderings, lock-file paths, and RPC endpoint URLs.

use vstd::prelude::*;

verus! {

/// The decimal digit character for a value below ten.
pub open spec fn digit_char(d: nat) -> char
    recommends
        d < 10,
{
    if d == 0 {
        '0'
    } else if d == 1 {
        '1'
    } else if d == 2 {
        '2'
    } else if d == 3 {
        '3'
    } else if d == 4 {
        '4'
    } else if d == 5 {
        '5'
    } else if d == 6 {
        '6'
    } else if d == 7 {
        '7'
    } else if d == 8 {
        '8'
    } else {
        '9'
    }
}

/// The decimal rendering of a natural number, most significant digit first,
/// with no leading zeros (a single zero renders as "0").
pub open spec fn dec_digits(n: nat) -> Seq<char>
    decreases n,
{
    if n < 10 {
        seq![digit_char(n)]
    } else {
        dec_digits(n / 10).push(digit_char(n % 10))
    }
}

fn digit_str(d: u16) -> (r: &'static str)
    requires
        d < 10,
    ensures
        r@ == seq![digit_char(d as nat)],
{
    proof {
        reveal_strlit("0");
        reveal_strlit("1");
        reveal_strlit("2");
        reveal_strlit("3");
        reveal_strlit("4");
        reveal_strlit("5");
        reveal_strlit("6");
        reveal_strlit("7");
        reveal_strlit("8");
        reveal_strlit("9");
    }
    let r: &'static str = if d == 0 {
        "0"
    } else if d == 1 {
        "1"
    } else if d == 2 {
        "2"
    } else if d == 3 {
        "3"
    } else if d == 4 {
        "4"
    } else if d == 5 {
        "5"
    } else if d == 6 {
        "6"
    } else if d == 7 {
        "7"
    } else if d == 8 {
        "8"
    } else {
        "9"
    };
    proof {
        assert(r@ =~= seq![digit_char(d as nat)]);
    }
    r
}

/// Renders a port number in decimal.
pub fn decimal_string(n: u16) -> (r: String)
    ensures
        r@ == dec_digits(n as nat),
    decreases n,
{
    if n < 10 {
        String::from_str(digit_str(n))
    } else {
        let mut r = decimal_string(n / 10);
        r.append(digit_str(n % 10));
        proof {
            assert(r@ =~= dec_digits(n as nat));
        }
        r
    }
}

/// The path of the lock file that reserves a port: a well-known name keyed
/// by the port number, under the OS temporary directory shared by every
/// process on the host.
pub open spec fn lock_path_text(tmp: Seq<char>, port: u16) -> Seq<char> {
    tmp + "/near-sandbox-port"@ + dec_digits(port as nat) + ".lock"@
}

/// Builds the lock-file path for `port` under the directory `tmp`.
pub fn lock_path_for(tmp: &str, port: u16) -> (r: String)
    ensures
        r@ == lock_path_text(tmp@, port),
{
    let mut r = String::from_str(tmp);
    r.append("/near-sandbox-port");
    let digits = decimal_string(port);
    r.append(digits.as_str());
    r.append(".lock");
    proof {
        assert(r@ =~= lock_path_text(tmp@, port));
    }
    r
}

/// The RPC endpoint URL a spawned node is reachable at.
pub open spec fn localhost_url_text(port: u16) -> Seq<char> {
    "http://localhost:"@ + dec_digits(port as nat)
}

/// Builds the RPC endpoint URL for a node whose RPC interface is bound to
/// `port` on the local host.
pub fn localhost_url(port: u16) -> (r: String)
    ensures
        r@ == localhost_url_text(port),
{
    let mut r = String::from_str("http://localhost:");
    let digits = decimal_string(port);
    r.append(digits.as_str());
    proof {
        assert(r@ =~= localhost_url_text(port));
    }
    r
}

} // verus!
