//! IPv4 addresses: the dotted-quad grammar that `Ipv4Addr::from_str`
//! accepts, their text, and the address type the library carries.

use vstd::prelude::*;

use crate::text::{dec, push_char, push_dec, split_by, split_chars, views};

verus! {

/// Whether `c` is an ASCII decimal digit.
pub open spec fn is_digit(c: char) -> bool {
    48 <= (c as u32) <= 57
}

/// Whether every character of `f` is an ASCII decimal digit.
pub open spec fn all_digits(f: Seq<char>) -> bool {
    forall|i: int| 0 <= i < f.len() ==> is_digit(#[trigger] f[i])
}

/// The value of a run of decimal digits.
pub open spec fn digits_value(f: Seq<char>) -> nat
    decreases f.len(),
{
    if f.len() == 0 {
        0
    } else {
        digits_value(f.drop_last()) * 10 + ((f.last() as u32) - 48) as nat
    }
}

/// One dotted-quad field: one to three digits, no leading zero unless the
/// field is a single `0`, value at most 255.
pub open spec fn octet_field(f: Seq<char>) -> bool {
    &&& 1 <= f.len() <= 3
    &&& forall|i: int| 0 <= i < f.len() ==> is_digit(#[trigger] f[i])
    &&& (f[0] == '0' ==> f.len() == 1)
    &&& digits_value(f) <= 255
}

/// The octets of a dotted-quad address, or `None` when `s` is not one.
pub open spec fn ipv4_octets(s: Seq<char>) -> Option<Seq<u8>> {
    let parts = split_by(s, '.');
    if parts.len() == 4 && forall|i: int| 0 <= i < 4 ==> octet_field(#[trigger] parts[i]) {
        Some(Seq::new(4, |i: int| digits_value(parts[i]) as u8))
    } else {
        None
    }
}

/// The value of one dotted-quad field, if `f` is one.
fn parse_octet(f: &Vec<char>) -> (r: Option<u8>)
    ensures
        r is Some <==> octet_field(f@),
        r matches Some(x) ==> x as nat == digits_value(f@),
{
    let n = f.len();
    if n < 1 || n > 3 {
        return None;
    }
    let mut value: u32 = 0;
    let mut i: usize = 0;
    while i < n
        invariant
            n == f@.len(),
            1 <= n <= 3,
            i <= n,
            forall|k: int| 0 <= k < i ==> is_digit(#[trigger] f@[k]),
            value as nat == digits_value(f@.take(i as int)),
            value < 1000,
            i < 3 ==> value < 100,
            i < 2 ==> value < 10,
            i == 0 ==> value == 0,
        decreases n - i,
    {
        let c = f[i];
        let u = c as u32;
        if u < 48 || u > 57 {
            return None;
        }
        assert(f@.take(i + 1).drop_last() =~= f@.take(i as int));
        value = value * 10 + (u - 48);
        i = i + 1;
    }
    assert(f@.take(n as int) =~= f@);
    if f[0] == '0' && n > 1 {
        return None;
    }
    if value > 255 {
        return None;
    }
    Some(value as u8)
}

/// The octets of the dotted-quad address `s`, if it is one.
pub fn parse_ipv4(s: &Vec<char>) -> (r: Option<[u8; 4]>)
    ensures
        match ipv4_octets(s@) {
            Some(o) => r matches Some(a) && a@ == o,
            None => r is None,
        },
{
    let parts = split_chars(s, '.');
    if parts.len() != 4 {
        return None;
    }
    let ghost p = views(parts@);
    assert(p.len() == 4);
    assert(forall|i: int| 0 <= i < 4 ==> p[i] == parts@[i]@);
    let a = parse_octet(&parts[0]);
    let b = parse_octet(&parts[1]);
    let c = parse_octet(&parts[2]);
    let d = parse_octet(&parts[3]);
    match (a, b, c, d) {
        (Some(a), Some(b), Some(c), Some(d)) => {
            let r = [a, b, c, d];
            assert(forall|i: int| 0 <= i < 4 ==> octet_field(#[trigger] p[i]));
            assert(r@ =~= Seq::new(4, |i: int| digits_value(p[i]) as u8));
            Some(r)
        },
        _ => {
            assert(!(forall|i: int| 0 <= i < 4 ==> octet_field(#[trigger] p[i]))) by {
                if a is None {
                    assert(!octet_field(p[0]));
                } else if b is None {
                    assert(!octet_field(p[1]));
                } else if c is None {
                    assert(!octet_field(p[2]));
                } else {
                    assert(!octet_field(p[3]));
                }
            }
            None
        },
    }
}

/// The dotted-quad text of four octets.
pub open spec fn ipv4_text(o: Seq<u8>) -> Seq<char> {
    dec(o[0] as nat) + seq!['.'] + dec(o[1] as nat) + seq!['.'] + dec(o[2] as nat) + seq!['.']
        + dec(o[3] as nat)
}

/// An IP address: IPv4 by its octets, IPv6 by the text it is written as.
#[derive(Debug, Clone)]
pub enum IpAddr {
    V4([u8; 4]),
    V6(String),
}

/// The text of an address, as its `Display` writes it.
pub open spec fn ip_text(ip: IpAddr) -> Seq<char> {
    match ip {
        IpAddr::V4(o) => ipv4_text(o@),
        IpAddr::V6(t) => t@,
    }
}

/// Appends the dotted-quad text of `o` to `out`.
pub fn push_ipv4(out: &mut String, o: [u8; 4])
    ensures
        final(out)@ == old(out)@ + ipv4_text(o@),
{
    push_dec(out, o[0] as u64);
    push_char(out, '.');
    push_dec(out, o[1] as u64);
    push_char(out, '.');
    push_dec(out, o[2] as u64);
    push_char(out, '.');
    push_dec(out, o[3] as u64);
    assert(final(out)@ =~= old(out)@ + ipv4_text(o@));
}

impl IpAddr {
    /// The text of the address.
    pub fn to_text(&self) -> (s: String)
        ensures
            s@ == ip_text(*self),
    {
        match self {
            IpAddr::V4(o) => {
                let mut s = String::new();
                push_ipv4(&mut s, *o);
                assert(s@ =~= ip_text(*self));
                s
            },
            IpAddr::V6(t) => t.clone(),
        }
    }
}

} // verus!
