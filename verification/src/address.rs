//! IP addresses and their text.

use vstd::prelude::*;
use vstd::string::StringExecFns;
use crate::text::{append_numeral, decimal, hexadecimal};

verus! {

/// An IP address, held as its octets in network order.
#[derive(Debug, Clone, Copy, PartialEq, Eq)]
pub enum IpAddress {
    V4([u8; 4]),
    V6([u8; 16]),
}

/// The `i`-th 16-bit group of an IPv6 address.
pub open spec fn group(octets: Seq<u8>, i: int) -> nat {
    (octets[2 * i] as nat) * 256 + octets[2 * i + 1] as nat
}

/// The 16-bit groups of an IPv6 address, in order.
pub open spec fn groups(octets: Seq<u8>) -> Seq<nat> {
    Seq::new(octets.len() / 2, |i: int| group(octets, i))
}

/// How many groups in a row are zero, counted from `from` on.
pub open spec fn zero_run(groups: Seq<nat>, from: int) -> nat
    decreases groups.len() - from,
{
    if 0 <= from < groups.len() && groups[from] == 0 {
        1 + zero_run(groups, from + 1)
    } else {
        0
    }
}

/// Where the longest run of zero groups starts, among the starts before
/// `upto`; of several longest runs the first.
pub open spec fn longest_zero_run(groups: Seq<nat>, upto: int) -> int
    decreases upto,
{
    if upto <= 0 {
        0
    } else {
        let best = longest_zero_run(groups, upto - 1);
        if zero_run(groups, upto - 1) > zero_run(groups, best) {
            upto - 1
        } else {
            best
        }
    }
}

/// The groups in hexadecimal, a colon between neighbours.
pub open spec fn colon_joined(groups: Seq<nat>) -> Seq<char>
    decreases groups.len(),
{
    if groups.len() == 0 {
        Seq::empty()
    } else if groups.len() == 1 {
        hexadecimal(groups[0])
    } else {
        colon_joined(groups.drop_last()) + seq![':'] + hexadecimal(groups.last())
    }
}

/// Dotted decimal: the four octets in order, a dot between neighbours.
pub open spec fn dotted_quad(octets: Seq<u8>) -> Seq<char> {
    decimal(octets[0] as nat) + seq!['.'] + decimal(octets[1] as nat) + seq!['.'] + decimal(
        octets[2] as nat,
    ) + seq!['.'] + decimal(octets[3] as nat)
}

/// Whether an IPv6 address carries an IPv4 address (`::ffff:a.b.c.d`).
pub open spec fn is_v4_mapped(octets: Seq<u8>) -> bool {
    &&& forall|i: int| 0 <= i < 10 ==> octets[i] == 0
    &&& octets[10] == 0xff
    &&& octets[11] == 0xff
}

/// The canonical text of an IPv6 address: groups in hexadecimal without
/// leading zeros, the longest run of two or more zero groups (the first such
/// run) shortened to `::`, and an IPv4-mapped address with its last four
/// octets in dotted decimal.
pub open spec fn colon_hex(octets: Seq<u8>) -> Seq<char> {
    if is_v4_mapped(octets) {
        seq![':', ':', 'f', 'f', 'f', 'f', ':'] + dotted_quad(octets.subrange(12, 16))
    } else {
        let all = groups(octets);
        let start = longest_zero_run(all, 8);
        let len = zero_run(all, start);
        if len > 1 {
            colon_joined(all.subrange(0, start)) + seq![':', ':'] + colon_joined(
                all.subrange(start + len, 8),
            )
        } else {
            colon_joined(all)
        }
    }
}

/// The text under which an address is reported.
pub open spec fn address_text(ip: IpAddress) -> Seq<char> {
    match ip {
        IpAddress::V4(octets) => dotted_quad(octets@),
        IpAddress::V6(octets) => colon_hex(octets@),
    }
}

fn group_at(octets: &[u8; 16], i: usize) -> (g: u16)
    requires
        i < 8,
    ensures
        g == group(octets@, i as int),
        g == groups(octets@)[i as int],
{
    (octets[2 * i] as u16) * 256 + octets[2 * i + 1] as u16
}

fn zero_run_at(octets: &[u8; 16], from: usize) -> (len: usize)
    requires
        from <= 8,
    ensures
        len == zero_run(groups(octets@), from as int),
        from + len <= 8,
    decreases 8 - from,
{
    if from < 8 && group_at(octets, from) == 0 {
        1 + zero_run_at(octets, from + 1)
    } else {
        0
    }
}

fn append_groups(out: &mut String, octets: &[u8; 16], from: usize, to: usize)
    requires
        from <= to <= 8,
    ensures
        final(out)@ == old(out)@ + colon_joined(groups(octets@).subrange(from as int, to as int)),
{
    proof {
        reveal_strlit(":");
    }
    let ghost all = groups(octets@);
    let mut k: usize = from;
    while k < to
        invariant
            from <= k <= to <= 8,
            all == groups(octets@),
            ":"@ == seq![':'],
            out@ == old(out)@ + colon_joined(all.subrange(from as int, k as int)),
        decreases to - k,
    {
        let ghost before = out@;
        if k > from {
            out.append(":");
        }
        append_numeral(out, group_at(octets, k), 16);
        proof {
            let done = all.subrange(from as int, k as int);
            let next = all.subrange(from as int, k + 1);
            assert(next.drop_last() =~= done);
            if k > from {
                assert(out@ =~= old(out)@ + (colon_joined(done) + seq![':'] + hexadecimal(
                    all[k as int],
                )));
            }
        }
        k = k + 1;
    }
}

fn v4_mapped(octets: &[u8; 16]) -> (mapped: bool)
    ensures
        mapped == is_v4_mapped(octets@),
{
    let mut i: usize = 0;
    while i < 10
        invariant
            i <= 10,
            forall|j: int| 0 <= j < i ==> octets@[j] == 0,
        decreases 10 - i,
    {
        if octets[i] != 0 {
            return false;
        }
        i = i + 1;
    }
    octets[10] == 0xff && octets[11] == 0xff
}

fn append_dotted_quad(out: &mut String, a: u8, b: u8, c: u8, d: u8)
    ensures
        final(out)@ == old(out)@ + dotted_quad(seq![a, b, c, d]),
{
    proof {
        reveal_strlit(".");
    }
    append_numeral(out, a as u16, 10);
    out.append(".");
    append_numeral(out, b as u16, 10);
    out.append(".");
    append_numeral(out, c as u16, 10);
    out.append(".");
    append_numeral(out, d as u16, 10);
}

impl IpAddress {
    /// The address as text: dotted decimal for IPv4, the canonical
    /// colon-separated form for IPv6.
    pub fn to_text(&self) -> (text: String)
        ensures
            text@ == address_text(*self),
    {
        let mut out = String::new();
        match self {
            IpAddress::V4(octets) => {
                append_dotted_quad(&mut out, octets[0], octets[1], octets[2], octets[3]);
            },
            IpAddress::V6(octets) => {
                if v4_mapped(octets) {
                    proof {
                        reveal_strlit("::ffff:");
                    }
                    out.append("::ffff:");
                    append_dotted_quad(&mut out, octets[12], octets[13], octets[14], octets[15]);
                    assert(seq![octets[12], octets[13], octets[14], octets[15]]
                        =~= octets@.subrange(12, 16));
                } else {
                    let mut best: usize = 0;
                    let mut best_len: usize = zero_run_at(octets, 0);
                    let mut i: usize = 0;
                    while i < 8
                        invariant
                            i <= 8,
                            best == longest_zero_run(groups(octets@), i as int),
                            best_len == zero_run(groups(octets@), best as int),
                            best + best_len <= 8,
                        decreases 8 - i,
                    {
                        let len = zero_run_at(octets, i);
                        if len > best_len {
                            best = i;
                            best_len = len;
                        }
                        i = i + 1;
                    }
                    if best_len > 1 {
                        proof {
                            reveal_strlit("::");
                        }
                        append_groups(&mut out, octets, 0, best);
                        out.append("::");
                        append_groups(&mut out, octets, best + best_len, 8);
                    } else {
                        append_groups(&mut out, octets, 0, 8);
                        assert(groups(octets@).subrange(0, 8) =~= groups(octets@));
                    }
                }
            },
        }
        out
    }
}

} // verus!
