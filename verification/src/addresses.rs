//! Textual IP addresses.

pub mod laws;

use vstd::prelude::*;
use vstd::string::*;

use crate::text_ops::{self, split, Separator};

verus! {

/// The four octets of an IPv4 address.
#[derive(Debug, Clone, Copy, PartialEq, Eq, Structural)]
pub struct Ipv4 {
    pub a: u8,
    pub b: u8,
    pub c: u8,
    pub d: u8,
}

/// An address that was read from text; an IPv6 address is its eight groups.
#[derive(Debug, PartialEq, Eq)]
pub enum IpAddress {
    V4(Ipv4),
    V6(Vec<u16>),
}

/// What an address text stands for.
pub enum AddressModel {
    V4(Ipv4),
    V6(Seq<u16>),
}

impl View for IpAddress {
    type V = AddressModel;

    open spec fn view(&self) -> AddressModel {
        match *self {
            IpAddress::V4(ip) => AddressModel::V4(ip),
            IpAddress::V6(groups) => AddressModel::V6(groups@),
        }
    }
}

/// An octet is one to three decimal digits without a leading zero, up to 255.
pub open spec fn octet(s: Seq<char>) -> Option<u8> {
    if 1 <= s.len() <= 3 && text_ops::all_digits(s) && (s.len() == 1 || s[0] != '0')
        && text_ops::number(s) <= 255 {
        Some(text_ops::number(s) as u8)
    } else {
        None
    }
}

/// An IPv4 address is four octets with dots between them.
pub open spec fn ipv4(s: Seq<char>) -> Option<Ipv4> {
    let parts = text_ops::pieces(s, Separator::Character('.'));
    if parts.len() == 4 {
        match (octet(parts[0]), octet(parts[1]), octet(parts[2]), octet(parts[3])) {
            (Some(a), Some(b), Some(c), Some(d)) => Some(Ipv4 { a, b, c, d }),
            _ => None,
        }
    } else {
        None
    }
}

/// The value of a hexadecimal digit.
pub open spec fn hex_digit(c: char) -> Option<nat> {
    if '0' <= c <= '9' {
        Some((c as nat - '0' as nat) as nat)
    } else if 'a' <= c <= 'f' {
        Some((c as nat - 'a' as nat + 10) as nat)
    } else if 'A' <= c <= 'F' {
        Some((c as nat - 'A' as nat + 10) as nat)
    } else {
        None
    }
}

/// The value of a text of hexadecimal digits.
pub open spec fn hex_number(s: Seq<char>) -> Option<nat>
    decreases s.len(),
{
    if s.len() == 0 {
        Some(0)
    } else {
        match (hex_number(s.drop_last()), hex_digit(s.last())) {
            (Some(high), Some(low)) => Some(high * 16 + low),
            _ => None,
        }
    }
}

/// A group is one to four hexadecimal digits.
pub open spec fn group(s: Seq<char>) -> Option<u16> {
    match hex_number(s) {
        Some(value) => if 1 <= s.len() <= 4 {
            Some(value as u16)
        } else {
            None
        },
        None => None,
    }
}

/// The groups that a list of texts stands for, where each of them is one.
pub open spec fn groups(parts: Seq<Seq<char>>) -> Option<Seq<u16>>
    decreases parts.len(),
{
    if parts.len() == 0 {
        Some(Seq::empty())
    } else {
        match (groups(parts.drop_last()), group(parts.last())) {
            (Some(before), Some(value)) => Some(before.push(value)),
            _ => None,
        }
    }
}

/// The groups on the left of a gap.
pub open spec fn leading_groups(s: Seq<char>) -> Option<Seq<u16>> {
    if s.len() == 0 {
        Some(Seq::empty())
    } else {
        groups(text_ops::pieces(s, Separator::Character(':')))
    }
}

/// The groups at the end of an address, whose last part may be an IPv4
/// address that stands for two groups.
pub open spec fn closing_groups(s: Seq<char>) -> Option<Seq<u16>> {
    if s.len() == 0 {
        Some(Seq::empty())
    } else {
        let parts = text_ops::pieces(s, Separator::Character(':'));
        match ipv4(parts.last()) {
            Some(ip) => match groups(parts.drop_last()) {
                Some(before) => Some(
                    before.push((ip.a * 256 + ip.b) as u16).push((ip.c * 256 + ip.d) as u16),
                ),
                None => None,
            },
            None => groups(parts),
        }
    }
}

/// The place of the first `::` from `i` on.
pub open spec fn gap_from(s: Seq<char>, i: int) -> Option<int>
    decreases s.len() - i,
{
    if i < 0 || i + 1 >= s.len() {
        None
    } else if s[i] == ':' && s[i + 1] == ':' {
        Some(i)
    } else {
        gap_from(s, i + 1)
    }
}

/// A run of zero groups.
pub open spec fn zeros(n: int) -> Seq<u16> {
    Seq::new(n as nat, |i: int| 0u16)
}

/// An IPv6 address is eight groups with colons between them; one `::` may
/// stand for one or more zero groups.
pub open spec fn ipv6(s: Seq<char>) -> Option<Seq<u16>> {
    match gap_from(s, 0) {
        None => match closing_groups(s) {
            Some(all) => if all.len() == 8 {
                Some(all)
            } else {
                None
            },
            None => None,
        },
        Some(at) => match (leading_groups(s.take(at)), closing_groups(s.skip(at + 2))) {
            (Some(head), Some(tail)) => if head.len() + tail.len() <= 7 {
                Some(head + zeros(8 - head.len() - tail.len()) + tail)
            } else {
                None
            },
            _ => None,
        },
    }
}

/// What an address text stands for.
pub open spec fn address(s: Seq<char>) -> Option<AddressModel> {
    match ipv4(s) {
        Some(ip) => Some(AddressModel::V4(ip)),
        None => match ipv6(s) {
            Some(all) => Some(AddressModel::V6(all)),
            None => None,
        },
    }
}

/// An IPv6 address has eight groups.
pub proof fn ipv6_has_eight_groups(s: Seq<char>)
    ensures
        ipv6(s) matches Some(all) ==> all.len() == 8,
{
}

fn parse_octet(part: &Vec<char>) -> (value: Option<u8>)
    ensures
        value == octet(part@),
{
    if part.len() == 0 || part.len() > 3 {
        return None;
    }
    let mut value: u32 = 0;
    let mut i: usize = 0;
    proof {
        assert(part@.take(0) =~= Seq::empty());
        assert(text_ops::number(part@.take(0)) == 0);
    }
    while i < part.len()
        invariant
            i <= part@.len() <= 3,
            text_ops::all_digits(part@.take(i as int)),
            value == text_ops::number(part@.take(i as int)),
            i == 0 ==> value == 0,
            i == 1 ==> value <= 9,
            i == 2 ==> value <= 99,
            i == 3 ==> value <= 999,
        decreases part@.len() - i,
    {
        let c: char = part[i];
        if !('0' <= c && c <= '9') {
            proof {
                assert(!text_ops::digit(part@[i as int]));
                assert(!text_ops::all_digits(part@));
            }
            return None;
        }
        proof {
            assert(part@.take(i + 1).drop_last() =~= part@.take(i as int));
        }
        value = value * 10 + (c as u32 - '0' as u32);
        i += 1;
        proof {
            assert(text_ops::all_digits(part@.take(i as int))) by {
                assert forall|k: int| 0 <= k < i implies text_ops::digit(
                    #[trigger] part@.take(i as int)[k],
                ) by {
                    if k < i - 1 {
                        assert(part@.take(i - 1)[k] == part@[k]);
                    }
                }
            }
        }
    }
    proof {
        assert(part@.take(part@.len() as int) =~= part@);
    }
    if value > 255 || (part.len() > 1 && part[0] == '0') {
        None
    } else {
        Some(value as u8)
    }
}

fn parse_ipv4_part(part: &Vec<char>) -> (value: Option<Ipv4>)
    ensures
        value == ipv4(part@),
{
    let parts = split(part, 0, part.len(), Separator::Character('.'));
    proof {
        assert(part@.subrange(0, part@.len() as int) =~= part@);
        assert(text_ops::vectors(parts@).len() == parts@.len());
    }
    if parts.len() != 4 {
        return None;
    }
    match (
        parse_octet(&parts[0]),
        parse_octet(&parts[1]),
        parse_octet(&parts[2]),
        parse_octet(&parts[3]),
    ) {
        (Some(a), Some(b), Some(c), Some(d)) => Some(Ipv4 { a, b, c, d }),
        _ => None,
    }
}

proof fn hex_number_needs_digits(s: Seq<char>, i: int)
    requires
        0 <= i < s.len(),
        hex_digit(s[i]) is None,
    ensures
        hex_number(s) is None,
    decreases s.len(),
{
    if i < s.len() - 1 {
        hex_number_needs_digits(s.drop_last(), i);
    }
}

fn parse_group(part: &Vec<char>) -> (value: Option<u16>)
    ensures
        value == group(part@),
{
    if part.len() == 0 || part.len() > 4 {
        return None;
    }
    let mut value: u32 = 0;
    let mut i: usize = 0;
    proof {
        assert(part@.take(0) =~= Seq::empty());
        assert(hex_number(part@.take(0)) == Some(0nat));
    }
    while i < part.len()
        invariant
            i <= part@.len() <= 4,
            hex_number(part@.take(i as int)) == Some(value as nat),
            i == 0 ==> value == 0,
            i == 1 ==> value <= 0xf,
            i == 2 ==> value <= 0xff,
            i == 3 ==> value <= 0xfff,
            i == 4 ==> value <= 0xffff,
        decreases part@.len() - i,
    {
        let c: char = part[i];
        let digit: u32 = if '0' <= c && c <= '9' {
            c as u32 - '0' as u32
        } else if 'a' <= c && c <= 'f' {
            c as u32 - 'a' as u32 + 10
        } else if 'A' <= c && c <= 'F' {
            c as u32 - 'A' as u32 + 10
        } else {
            proof {
                hex_number_needs_digits(part@, i as int);
            }
            return None;
        };
        proof {
            assert(part@.take(i + 1).drop_last() =~= part@.take(i as int));
        }
        value = value * 16 + digit;
        i += 1;
    }
    proof {
        assert(part@.take(part@.len() as int) =~= part@);
    }
    Some(value as u16)
}

proof fn groups_need_every_part(parts: Seq<Seq<char>>, i: int)
    requires
        0 <= i < parts.len(),
        group(parts[i]) is None,
    ensures
        groups(parts) is None,
    decreases parts.len(),
{
    if i < parts.len() - 1 {
        groups_need_every_part(parts.drop_last(), i);
    }
}

fn parse_groups(parts: &Vec<Vec<char>>, to: usize) -> (out: Option<Vec<u16>>)
    requires
        to <= parts@.len(),
    ensures
        match groups(text_ops::vectors(parts@).take(to as int)) {
            Some(all) => out matches Some(list) && list@ == all,
            None => out is None,
        },
{
    let ghost all = text_ops::vectors(parts@);
    let mut out: Vec<u16> = Vec::new();
    let mut i: usize = 0;
    proof {
        assert(all.take(0) =~= Seq::empty());
        assert(groups(all.take(0)) == Some(Seq::<u16>::empty()));
        assert(out@ =~= Seq::empty());
    }
    while i < to
        invariant
            i <= to <= parts@.len(),
            all == text_ops::vectors(parts@),
            groups(all.take(i as int)) == Some(out@),
        decreases to - i,
    {
        match parse_group(&parts[i]) {
            Some(value) => {
                proof {
                    assert(all.take(i + 1).drop_last() =~= all.take(i as int));
                }
                out.push(value);
            },
            None => {
                proof {
                    assert(all.take(to as int)[i as int] == parts@[i as int]@);
                    groups_need_every_part(all.take(to as int), i as int);
                }
                return None;
            },
        }
        i += 1;
    }
    Some(out)
}

fn parse_leading_groups(chars: &Vec<char>, to: usize) -> (out: Option<Vec<u16>>)
    requires
        to <= chars@.len(),
    ensures
        match leading_groups(chars@.take(to as int)) {
            Some(all) => out matches Some(list) && list@ == all,
            None => out is None,
        },
{
    if to == 0 {
        let out: Vec<u16> = Vec::new();
        proof {
            assert(out@ =~= Seq::empty());
        }
        return Some(out);
    }
    let parts = split(chars, 0, to, Separator::Character(':'));
    proof {
        assert(chars@.subrange(0, to as int) =~= chars@.take(to as int));
        assert(text_ops::vectors(parts@).take(parts@.len() as int) =~= text_ops::vectors(parts@));
    }
    parse_groups(&parts, parts.len())
}

fn parse_closing_groups(chars: &Vec<char>, from: usize) -> (out: Option<Vec<u16>>)
    requires
        from <= chars@.len(),
    ensures
        match closing_groups(chars@.skip(from as int)) {
            Some(all) => out matches Some(list) && list@ == all,
            None => out is None,
        },
{
    if from == chars.len() {
        let out: Vec<u16> = Vec::new();
        proof {
            assert(out@ =~= Seq::empty());
        }
        return Some(out);
    }
    let parts = split(chars, from, chars.len(), Separator::Character(':'));
    let ghost all = text_ops::vectors(parts@);
    proof {
        assert(chars@.subrange(from as int, chars@.len() as int) =~= chars@.skip(from as int));
        assert(all.take(parts@.len() as int) =~= all);
        assert(all.take(parts@.len() - 1) =~= all.drop_last());
        assert(all.last() == parts@[parts@.len() - 1]@);
    }
    match parse_ipv4_part(&parts[parts.len() - 1]) {
        Some(ip) => {
            match parse_groups(&parts, parts.len() - 1) {
                Some(list) => {
                    let mut list = list;
                    let high: u16 = ip.a as u16 * 256 + ip.b as u16;
                    let low: u16 = ip.c as u16 * 256 + ip.d as u16;
                    list.push(high);
                    list.push(low);
                    Some(list)
                },
                None => None,
            }
        },
        None => parse_groups(&parts, parts.len()),
    }
}

fn find_gap(chars: &Vec<char>) -> (at: Option<usize>)
    ensures
        match gap_from(chars@, 0) {
            Some(i) => at == Some(i as usize) && 0 <= i && i + 1 < chars@.len(),
            None => at is None,
        },
{
    let mut i: usize = 0;
    while i < chars.len() && i + 1 < chars.len()
        invariant
            i <= chars@.len(),
            gap_from(chars@, 0) == gap_from(chars@, i as int),
        decreases chars@.len() - i,
    {
        if chars[i] == ':' && chars[i + 1] == ':' {
            return Some(i);
        }
        i += 1;
    }
    None
}

fn parse_ipv6(chars: &Vec<char>) -> (out: Option<Vec<u16>>)
    ensures
        match ipv6(chars@) {
            Some(all) => out matches Some(list) && list@ == all,
            None => out is None,
        },
{
    let length: usize = chars.len();
    match find_gap(chars) {
        None => {
            proof {
                assert(chars@.skip(0) =~= chars@);
            }
            match parse_closing_groups(chars, 0) {
                Some(list) => if list.len() == 8 {
                    Some(list)
                } else {
                    None
                },
                None => None,
            }
        },
        Some(at) => {
            let head = parse_leading_groups(chars, at);
            proof {
                assert(at + 1 < length);
            }
            let tail = parse_closing_groups(chars, at + 2);
            match (head, tail) {
                (Some(head), Some(tail)) => {
                    if head.len() > 7 || tail.len() > 7 - head.len() {
                        return None;
                    }
                    let ghost before = head@;
                    let missing: usize = 8 - head.len() - tail.len();
                    let mut out = head;
                    let mut i: usize = 0;
                    while i < missing
                        invariant
                            i <= missing,
                            out@ == before + zeros(i as int),
                        decreases missing - i,
                    {
                        out.push(0);
                        i += 1;
                        proof {
                            assert(out@ =~= before + zeros(i as int));
                        }
                    }
                    let ghost filled = out@;
                    let mut k: usize = 0;
                    while k < tail.len()
                        invariant
                            k <= tail@.len(),
                            out@ == filled + tail@.take(k as int),
                        decreases tail@.len() - k,
                    {
                        out.push(tail[k]);
                        k += 1;
                        proof {
                            assert(out@ =~= filled + tail@.take(k as int));
                        }
                    }
                    proof {
                        assert(tail@.take(tail@.len() as int) =~= tail@);
                    }
                    Some(out)
                },
                _ => None,
            }
        },
    }
}

/// Reads an address text.
pub fn parse_address(chars: &Vec<char>) -> (out: Option<IpAddress>)
    ensures
        match address(chars@) {
            Some(model) => out matches Some(ip) && ip@ == model,
            None => out is None,
        },
{
    match parse_ipv4_part(chars) {
        Some(ip) => Some(IpAddress::V4(ip)),
        None => match parse_ipv6(chars) {
            Some(all) => Some(IpAddress::V6(all)),
            None => None,
        },
    }
}

} // verus!
