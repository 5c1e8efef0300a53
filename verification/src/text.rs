//! Decimal and dotted-quad text, as sequences of characters.

use vstd::prelude::*;
use vstd::string::*;
use crate::net::Ipv4Address;

verus! {

/// The character that writes the single digit `d`.
pub open spec fn digit_char(d: nat) -> char {
    if d == 0 {
        '0'
    } else if d == 1 {
        '1'
    } else if d == 2 {
        '2'
    } else if d == 3 {
        '3'
    } else if d == 4 {
        '4'
    } else if d == 5 {
        '5'
    } else if d == 6 {
        '6'
    } else if d == 7 {
        '7'
    } else if d == 8 {
        '8'
    } else {
        '9'
    }
}

/// The decimal numeral of `n`: no sign, no leading zero, `"0"` for zero.
pub open spec fn decimal(n: nat) -> Seq<char>
    decreases n,
{
    if n < 10 {
        seq![digit_char(n)]
    } else {
        decimal(n / 10).push(digit_char(n % 10))
    }
}

/// The four numbers in decimal, in the order given, with a dot between
/// neighbours.
pub open spec fn dotted(a: u8, b: u8, c: u8, d: u8) -> Seq<char> {
    decimal(a as nat) + "."@ + decimal(b as nat) + "."@ + decimal(c as nat) + "."@ + decimal(
        d as nat,
    )
}

/// The usual text of an IPv4 address, such as `192.0.2.1`.
pub open spec fn ipv4_text(ip: Ipv4Address) -> Seq<char> {
    dotted(ip.octets@[0], ip.octets@[1], ip.octets@[2], ip.octets@[3])
}

/// The octets of the address written last to first, such as `1.2.0.192`
/// for `192.0.2.1`.
pub open spec fn reversed_ipv4_text(ip: Ipv4Address) -> Seq<char> {
    dotted(ip.octets@[3], ip.octets@[2], ip.octets@[1], ip.octets@[0])
}

fn digit_str(d: u8) -> (s: &'static str)
    requires
        d < 10,
    ensures
        s@ == seq![digit_char(d as nat)],
{
    proof {
        reveal_strlit("0");
        reveal_strlit("1");
        reveal_strlit("2");
        reveal_strlit("3");
        reveal_strlit("4");
        reveal_strlit("5");
        reveal_strlit("6");
        reveal_strlit("7");
        reveal_strlit("8");
        reveal_strlit("9");
    }
    let s: &'static str = match d {
        0 => "0",
        1 => "1",
        2 => "2",
        3 => "3",
        4 => "4",
        5 => "5",
        6 => "6",
        7 => "7",
        8 => "8",
        _ => "9",
    };
    assert(s@ =~= seq![digit_char(d as nat)]);
    s
}

/// Appends the decimal numeral of `n` to `out`.
pub fn append_decimal(out: &mut String, n: u8)
    ensures
        final(out)@ == old(out)@ + decimal(n as nat),
{
    proof {
        reveal_with_fuel(decimal, 3);
    }
    if n >= 100 {
        out.append(digit_str(n / 100));
    }
    if n >= 10 {
        out.append(digit_str((n / 10) % 10));
    }
    out.append(digit_str(n % 10));
    assert(final(out)@ =~= old(out)@ + decimal(n as nat));
}

/// Appends `a.b.c.d` in decimal to `out`.
pub fn append_dotted(out: &mut String, a: u8, b: u8, c: u8, d: u8)
    ensures
        final(out)@ == old(out)@ + dotted(a, b, c, d),
{
    append_decimal(out, a);
    out.append(".");
    append_decimal(out, b);
    out.append(".");
    append_decimal(out, c);
    out.append(".");
    append_decimal(out, d);
    assert(final(out)@ =~= old(out)@ + dotted(a, b, c, d));
}

/// The usual text of an IPv4 address.
pub fn ipv4_to_string(ip: &Ipv4Address) -> (s: String)
    ensures
        s@ == ipv4_text(*ip),
{
    let mut s = String::new();
    append_dotted(&mut s, ip.octets[0], ip.octets[1], ip.octets[2], ip.octets[3]);
    assert(s@ =~= ipv4_text(*ip));
    s
}

} // verus!
