//! URLs for the two network commands.

use vstd::prelude::*;
use vstd::string::StringExecFns;
use crate::text::chars_to_string;

verus! {

/// The decimal digit character for a value below ten.
pub open spec fn dec_digit(d: int) -> char {
    ((48 + d) as u8) as char
}

/// The decimal digits of a non-negative number, most significant first;
/// empty for zero.
pub open spec fn dec_digits(n: int) -> Seq<char>
    decreases n,
{
    if n <= 0 {
        Seq::empty()
    } else {
        dec_digits(n / 10).push(dec_digit(n % 10))
    }
}

/// The decimal rendering of a non-negative number.
pub open spec fn decimal(n: int) -> Seq<char> {
    if n == 0 {
        seq!['0']
    } else {
        dec_digits(n)
    }
}

/// The URL probed to test reachability of a host and port.
pub open spec fn probe_url_view(host: Seq<char>, port: u16) -> Seq<char> {
    "http://"@ + host + ":"@ + decimal(port as int)
}

/// The fixed relay endpoint on a host: port 3000, path /exec.
pub open spec fn relay_url_view(host: Seq<char>) -> Seq<char> {
    "http://"@ + host + ":3000/exec"@
}

fn push_dec_digits(digits: &mut Vec<char>, m: u16)
    ensures
        final(digits)@ == old(digits)@ + dec_digits(m as int),
    decreases m,
{
    if m > 0 {
        push_dec_digits(digits, m / 10);
        let d: u8 = (m % 10) as u8;
        digits.push((48 + d) as char);
        proof {
            assert(dec_digits(m as int) == dec_digits(m as int / 10).push(
                dec_digit(m as int % 10),
            ));
            assert(digits@ == old(digits)@ + dec_digits(m as int));
        }
    }
}

/// Renders a port number in decimal, as the URL carries it.
pub fn u16_decimal(n: u16) -> (r: String)
    ensures
        r@ == decimal(n as int),
{
    let mut digits: Vec<char> = Vec::new();
    if n == 0 {
        digits.push('0');
        proof {
            assert(digits@ =~= decimal(0));
        }
    } else {
        push_dec_digits(&mut digits, n);
        proof {
            assert(digits@ =~= dec_digits(n as int));
        }
    }
    chars_to_string(&digits)
}

/// Builds the probe URL `http://<host>:<port>`.
pub fn probe_url(host: &str, port: u16) -> (r: String)
    ensures
        r@ == probe_url_view(host@, port),
{
    let mut r = "http://".to_owned();
    r.append(host);
    r.append(":");
    let p = u16_decimal(port);
    r.append(p.as_str());
    r
}

/// Builds the relay endpoint URL `http://<host>:3000/exec`.
pub fn relay_url(host: &str) -> (r: String)
    ensures
        r@ == relay_url_view(host@),
{
    let mut r = "http://".to_owned();
    r.append(host);
    r.append(":3000/exec");
    r
}

} // verus!
