//! The reversed label form of an address: the labels that stand before a
//! list's zone in the name under which the list is asked about the address.

use vstd::prelude::*;
use vstd::string::StringExecFns;
use crate::address::IpAddress;
use crate::text::{append_numeral, decimal, digit_char, digit_str};

verus! {

/// The `i`-th hexadecimal digit of an address, the most significant first.
pub open spec fn nibble(octets: Seq<u8>, i: int) -> int {
    if i % 2 == 0 {
        octets[i / 2] as int / 16
    } else {
        octets[i / 2] as int % 16
    }
}

/// The octets as decimal labels, last octet first, a dot after each.
pub open spec fn reversed_octets(octets: Seq<u8>) -> Seq<char> {
    decimal(octets[3] as nat) + seq!['.'] + decimal(octets[2] as nat) + seq!['.'] + decimal(
        octets[1] as nat,
    ) + seq!['.'] + decimal(octets[0] as nat) + seq!['.']
}

/// The hexadecimal digits as one-character labels, last digit first, a dot
/// after each.
pub open spec fn reversed_nibbles(octets: Seq<u8>) -> Seq<char> {
    Seq::new(
        4 * octets.len(),
        |p: int|
            if p % 2 == 1 {
                '.'
            } else {
                digit_char(nibble(octets, 2 * octets.len() - 1 - p / 2))
            },
    )
}

/// The reversed label form of an address: what stands before the list's
/// zone in a lookup name.
pub open spec fn reversed_labels(ip: IpAddress) -> Seq<char> {
    match ip {
        IpAddress::V4(octets) => reversed_octets(octets@),
        IpAddress::V6(octets) => reversed_nibbles(octets@),
    }
}

/// Encodes an IPv6 address as its 32 hexadecimal digits in reverse order,
/// each followed by a dot.
pub fn format_v6(octets: &[u8; 16]) -> (labels: String)
    ensures
        labels@ == reversed_nibbles(octets@),
        labels@.len() == 64,
        forall|p: int| 0 <= p < 64 && p % 2 == 1 ==> #[trigger] labels@[p] == '.',
        forall|p: int|
            0 <= p < 64 && p % 2 == 0 ==> #[trigger] labels@[p] == digit_char(
                nibble(octets@, 31 - p / 2),
            ),
{
    proof {
        reveal_strlit(".");
    }
    let mut out = String::new();
    let mut i: usize = 16;
    while i > 0
        invariant
            i <= 16,
            "."@ == seq!['.'],
            out@ == reversed_nibbles(octets@).take(4 * (16 - i)),
        decreases i,
    {
        i = i - 1;
        let octet = octets[i];
        assert(octet & 0xF == octet % 16) by (bit_vector);
        assert(octet >> 4 == octet / 16) by (bit_vector);
        out.append(digit_str(octet & 0xF));
        out.append(".");
        out.append(digit_str(octet >> 4));
        out.append(".");
    }
    out
}

/// Encodes an address as the labels of its octets (IPv4, decimal) or of its
/// hexadecimal digits (IPv6) in reverse order, each followed by a dot. No
/// zone is appended.
pub fn format_ip(ip: &IpAddress) -> (labels: String)
    ensures
        labels@ == reversed_labels(*ip),
        ip matches IpAddress::V4(o) ==> labels@ == decimal(o[3] as nat) + seq!['.'] + decimal(
            o[2] as nat,
        ) + seq!['.'] + decimal(o[1] as nat) + seq!['.'] + decimal(o[0] as nat) + seq!['.'],
        ip matches IpAddress::V6(o) ==> labels@.len() == 64,
        ip matches IpAddress::V6(o) ==> (forall|p: int|
            0 <= p < 64 && p % 2 == 1 ==> #[trigger] labels@[p] == '.'),
        ip matches IpAddress::V6(o) ==> (forall|p: int|
            0 <= p < 64 && p % 2 == 0 ==> #[trigger] labels@[p] == digit_char(
                nibble(o@, 31 - p / 2),
            )),
{
    match ip {
        IpAddress::V4(octets) => {
            proof {
                reveal_strlit(".");
            }
            let mut out = String::new();
            append_numeral(&mut out, octets[3] as u16, 10);
            out.append(".");
            append_numeral(&mut out, octets[2] as u16, 10);
            out.append(".");
            append_numeral(&mut out, octets[1] as u16, 10);
            out.append(".");
            append_numeral(&mut out, octets[0] as u16, 10);
            out.append(".");
            out
        },
        IpAddress::V6(octets) => format_v6(octets),
    }
}

} // verus!
