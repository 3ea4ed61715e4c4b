//! Which texts are addresses, and of what.

use vstd::prelude::*;

use super::{AddressModel, Ipv4};
use crate::addresses;
use crate::text_ops::{self, Separator};

verus! {

/// The four octets of an address, in decimal.
pub open spec fn octet_texts(ip: Ipv4) -> Seq<Seq<char>> {
    seq![
        text_ops::decimal(ip.a as nat),
        text_ops::decimal(ip.b as nat),
        text_ops::decimal(ip.c as nat),
        text_ops::decimal(ip.d as nat),
    ]
}

proof fn lemma_octet(n: u8)
    ensures
        addresses::octet(text_ops::decimal(n as nat)) == Some(n),
        text_ops::whole(text_ops::decimal(n as nat), Separator::Character('.')),
{
    let text = text_ops::decimal(n as nat);
    text_ops::decimal_is_read_back(n as nat);
    assert(vstd::arithmetic::power::pow(10, 3) == 1000) by {
        reveal_with_fuel(vstd::arithmetic::power::pow, 4);
    }
    text_ops::decimal_length(n as nat, 3, 1000);
    lemma_no_leading_zero(n as nat);
    assert forall|i: int| 0 <= i < text.len() implies !text_ops::separates(
        Separator::Character('.'),
        #[trigger] text[i],
    ) by {
        assert(text_ops::digit(text[i]));
    }
}

proof fn lemma_no_leading_zero(n: nat)
    ensures
        text_ops::decimal(n).len() > 0,
        n > 0 ==> text_ops::decimal(n)[0] != '0',
        n < 10 ==> text_ops::decimal(n).len() == 1,
        n >= 10 ==> text_ops::decimal(n).len() > 1,
    decreases n,
{
    if n >= 10 {
        lemma_no_leading_zero(n / 10);
        assert(text_ops::decimal(n)[0] == text_ops::decimal(n / 10)[0]);
    }
}

/// Four octets in decimal with dots between them are the address of these
/// octets.
pub proof fn dotted_octets_are_read_back(ip: Ipv4)
    ensures
        addresses::ipv4(text_ops::joined(octet_texts(ip), seq!['.'])) == Some(ip),
        addresses::address(text_ops::joined(octet_texts(ip), seq!['.'])) == Some(
            AddressModel::V4(ip),
        ),
{
    let parts = octet_texts(ip);
    lemma_octet(ip.a);
    lemma_octet(ip.b);
    lemma_octet(ip.c);
    lemma_octet(ip.d);
    text_ops::joined_texts_come_apart(parts, '.', Separator::Character('.'));
}

/// The parts are groups of these values.
pub open spec fn groups_of(parts: Seq<Seq<char>>, values: Seq<u16>) -> bool {
    &&& parts.len() == values.len()
    &&& forall|i: int|
        0 <= i < parts.len() ==> #[trigger] addresses::group(parts[i]) == Some(values[i])
}

proof fn lemma_groups(parts: Seq<Seq<char>>, values: Seq<u16>)
    requires
        groups_of(parts, values),
    ensures
        addresses::groups(parts) == Some(values),
    decreases parts.len(),
{
    if parts.len() > 0 {
        let n = parts.len() - 1;
        let rest = parts.drop_last();
        assert forall|i: int| 0 <= i < rest.len() implies #[trigger] addresses::group(rest[i])
            == Some(values.drop_last()[i]) by {
            assert(addresses::group(parts[i]) == Some(values[i]));
        }
        lemma_groups(rest, values.drop_last());
        assert(addresses::group(parts[n]) == Some(values[n]));
        assert(values.drop_last().push(values[n]) =~= values);
    } else {
        assert(values =~= Seq::empty());
    }
}

proof fn lemma_group_text(part: Seq<char>)
    requires
        addresses::group(part) is Some,
    ensures
        part.len() > 0,
        forall|i: int| 0 <= i < part.len() ==> #[trigger] part[i] != ':' && part[i] != '.',
        text_ops::whole(part, Separator::Character(':')),
        text_ops::whole(part, Separator::Character('.')),
{
    assert forall|i: int| 0 <= i < part.len() implies #[trigger] part[i] != ':' && part[i]
        != '.' by {
        if addresses::hex_digit(part[i]) is None {
            super::hex_number_needs_digits(part, i);
        }
    }
}

/// The text holds no two colons side by side, ends in none, and holds no dot.
spec fn tight(text: Seq<char>) -> bool {
    &&& forall|i: int|
        0 <= i < text.len() - 1 && #[trigger] text[i] == ':' ==> text[i + 1] != ':'
    &&& text.len() > 0 ==> text[0] != ':' && text.last() != ':'
    &&& forall|i: int| 0 <= i < text.len() ==> #[trigger] text[i] != '.'
}

proof fn lemma_tight(parts: Seq<Seq<char>>)
    requires
        forall|i: int| 0 <= i < parts.len() ==> addresses::group(#[trigger] parts[i]) is Some,
    ensures
        tight(text_ops::joined(parts, seq![':'])),
        parts.len() > 0 ==> text_ops::joined(parts, seq![':']).len() > 0,
    decreases parts.len(),
{
    let text = text_ops::joined(parts, seq![':']);
    if parts.len() == 1 {
        lemma_group_text(parts[0]);
    } else if parts.len() > 1 {
        let rest = parts.drop_last();
        assert forall|i: int| 0 <= i < rest.len() implies addresses::group(
            #[trigger] rest[i],
        ) is Some by {
            assert(rest[i] == parts[i]);
        }
        lemma_tight(rest);
        let head = text_ops::joined(rest, seq![':']);
        let last = parts.last();
        lemma_group_text(parts[parts.len() - 1]);
        let n = head.len() as int;
        assert(text =~= head + seq![':'] + last);
        assert forall|i: int| 0 <= i < text.len() - 1 && #[trigger] text[i] == ':' implies text[i
            + 1] != ':' by {
            if i < n - 1 {
                assert(head[i] == text[i] && head[i + 1] == text[i + 1]);
            } else if i == n - 1 {
                assert(head.last() == text[i]);
            } else if i == n {
                assert(last[0] == text[i + 1]);
            } else {
                assert(last[i - n - 1] == text[i]);
            }
        }
        assert forall|i: int| 0 <= i < text.len() implies #[trigger] text[i] != '.' by {
            if i < n {
                assert(head[i] == text[i]);
            } else if i > n {
                assert(last[i - n - 1] == text[i]);
            }
        }
        assert(text[0] == head[0]);
        assert(text.last() == last[last.len() - 1]);
    }
}

proof fn lemma_no_gap(text: Seq<char>, i: int)
    requires
        0 <= i,
        forall|k: int| i <= k < text.len() - 1 && #[trigger] text[k] == ':' ==> text[k + 1] != ':',
    ensures
        addresses::gap_from(text, i) is None,
    decreases text.len() - i,
{
    if i + 1 < text.len() {
        lemma_no_gap(text, i + 1);
    }
}

proof fn lemma_gap_at(text: Seq<char>, i: int, at: int)
    requires
        0 <= i <= at,
        at + 1 < text.len(),
        text[at] == ':',
        text[at + 1] == ':',
        forall|k: int| i <= k < at && #[trigger] text[k] == ':' ==> text[k + 1] != ':',
    ensures
        addresses::gap_from(text, i) == Some(at),
    decreases at - i,
{
    if i < at {
        lemma_gap_at(text, i + 1, at);
    }
}

proof fn lemma_no_dots(text: Seq<char>)
    requires
        forall|i: int| 0 <= i < text.len() ==> #[trigger] text[i] != '.',
    ensures
        addresses::ipv4(text) is None,
{
    assert(text_ops::whole(text, Separator::Character('.')));
    text_ops::joined_texts_come_apart(seq![text], '.', Separator::Character('.'));
}

proof fn lemma_closing(parts: Seq<Seq<char>>, values: Seq<u16>)
    requires
        parts.len() > 0,
        groups_of(parts, values),
    ensures
        addresses::closing_groups(text_ops::joined(parts, seq![':'])) == Some(values),
        addresses::leading_groups(text_ops::joined(parts, seq![':'])) == Some(values),
{
    assert forall|i: int| 0 <= i < parts.len() implies text_ops::whole(
        #[trigger] parts[i],
        Separator::Character(':'),
    ) by {
        assert(addresses::group(parts[i]) == Some(values[i]));
        lemma_group_text(parts[i]);
    }
    assert forall|i: int| 0 <= i < parts.len() implies addresses::group(
        #[trigger] parts[i],
    ) is Some by {
        assert(addresses::group(parts[i]) == Some(values[i]));
    }
    lemma_tight(parts);
    text_ops::joined_texts_come_apart(parts, ':', Separator::Character(':'));
    lemma_group_text(parts[parts.len() - 1]);
    lemma_no_dots(parts.last());
    lemma_groups(parts, values);
}

/// Eight groups with colons between them are the address of these groups.
pub proof fn eight_groups_are_read_back(parts: Seq<Seq<char>>, values: Seq<u16>)
    requires
        parts.len() == 8,
        groups_of(parts, values),
    ensures
        addresses::address(text_ops::joined(parts, seq![':'])) == Some(AddressModel::V6(values)),
{
    let text = text_ops::joined(parts, seq![':']);
    assert forall|i: int| 0 <= i < parts.len() implies addresses::group(
        #[trigger] parts[i],
    ) is Some by {
        assert(addresses::group(parts[i]) == Some(values[i]));
    }
    lemma_tight(parts);
    lemma_closing(parts, values);
    lemma_no_gap(text, 0);
    lemma_no_dots(text);
}

/// Two colons stand for all the zero groups between what is left and what is
/// right of them.
pub proof fn two_colons_stand_for_zeros(
    left: Seq<Seq<char>>,
    right: Seq<Seq<char>>,
    before: Seq<u16>,
    after: Seq<u16>,
)
    requires
        groups_of(left, before),
        groups_of(right, after),
        left.len() + right.len() <= 7,
    ensures
        ({
            let text = text_ops::joined(left, seq![':']) + seq![':', ':'] + text_ops::joined(
                right,
                seq![':'],
            );
            &&& addresses::address(text) is Some
            &&& addresses::address(text)->0 matches AddressModel::V6(all) && {
                &&& all.len() == 8
                &&& forall|i: int| 0 <= i < before.len() ==> #[trigger] all[i] == before[i]
                &&& forall|i: int|
                    before.len() <= i < 8 - after.len() ==> #[trigger] all[i] == 0
                &&& forall|i: int|
                    8 - after.len() <= i < 8 ==> #[trigger] all[i] == after[i - 8 + after.len()]
            }
        }),
{
    let head = text_ops::joined(left, seq![':']);
    let tail = text_ops::joined(right, seq![':']);
    let text = head + seq![':', ':'] + tail;
    let at = head.len() as int;
    assert forall|i: int| 0 <= i < left.len() implies addresses::group(
        #[trigger] left[i],
    ) is Some by {
        assert(addresses::group(left[i]) == Some(before[i]));
    }
    assert forall|i: int| 0 <= i < right.len() implies addresses::group(
        #[trigger] right[i],
    ) is Some by {
        assert(addresses::group(right[i]) == Some(after[i]));
    }
    lemma_tight(left);
    lemma_tight(right);
    if left.len() > 0 {
        lemma_closing(left, before);
    } else {
        assert(before =~= Seq::empty());
    }
    if right.len() > 0 {
        lemma_closing(right, after);
    } else {
        assert(after =~= Seq::empty());
    }
    assert(text[at] == ':' && text[at + 1] == ':');
    assert forall|k: int| 0 <= k < at && #[trigger] text[k] == ':' implies text[k + 1] != ':' by {
        assert(head[k] == text[k]);
        if k < at - 1 {
            assert(head[k + 1] == text[k + 1]);
        } else {
            assert(head.last() == text[k]);
        }
    }
    lemma_gap_at(text, 0, at);
    assert(text.take(at) =~= head);
    assert(text.skip(at + 2) =~= tail);
    assert forall|i: int| 0 <= i < text.len() implies #[trigger] text[i] != '.' by {
        if i < at {
            assert(head[i] == text[i]);
        } else if i > at + 1 {
            assert(tail[i - at - 2] == text[i]);
        }
    }
    lemma_no_dots(text);
}

/// A hexadecimal digit is read by its place in the order of the digits, in
/// either case; no other character is one.
pub proof fn hexadecimal_digits_are_in_order(c: char)
    ensures
        addresses::hex_digit('0') == Some(0nat),
        addresses::hex_digit('9') == Some(9nat),
        addresses::hex_digit('a') == Some(10nat),
        addresses::hex_digit('f') == Some(15nat),
        addresses::hex_digit('A') == Some(10nat),
        addresses::hex_digit('F') == Some(15nat),
        'A' <= c <= 'F' ==> addresses::hex_digit(c) == addresses::hex_digit(
            text_ops::lower_char(c),
        ),
        !('0' <= c <= '9') && !('a' <= c <= 'f') && !('A' <= c <= 'F') ==> addresses::hex_digit(c)
            is None,
{
}

/// A group is read digit by digit, each worth sixteen times the next.
pub proof fn groups_are_read_by_sixteens(high: char, low: char, x: nat, y: nat)
    requires
        addresses::hex_digit(high) == Some(x),
        addresses::hex_digit(low) == Some(y),
    ensures
        addresses::group(seq![low]) == Some(y as u16),
        addresses::group(seq![high, low]) == Some((16 * x + y) as u16),
        addresses::group(seq!['0', '0', high, low]) == addresses::group(seq![high, low]),
        addresses::group(seq!['0', '0', '0', high, low]) is None,
        addresses::group(Seq::empty()) is None,
{
    reveal_with_fuel(addresses::hex_number, 6);
    assert(seq![low].drop_last() =~= Seq::empty());
    assert(seq![high, low].drop_last() =~= seq![high]);
    assert(seq![high].drop_last() =~= Seq::empty());
    assert(seq!['0', '0', high, low].drop_last() =~= seq!['0', '0', high]);
    assert(seq!['0', '0', high].drop_last() =~= seq!['0', '0']);
    assert(seq!['0', '0'].drop_last() =~= seq!['0']);
    assert(seq!['0'].drop_last() =~= Seq::empty());
}

/// An IPv4 address at the end of an IPv6 address stands for two groups of two
/// octets each.
pub proof fn dotted_end_stands_for_two_groups(ip: Ipv4)
    ensures
        addresses::closing_groups(text_ops::joined(octet_texts(ip), seq!['.'])) matches Some(ends)
            && ends.len() == 2 && ends[0] as int == ip.a * 256 + ip.b && ends[1] as int == ip.c
            * 256 + ip.d,
{
    let parts = octet_texts(ip);
    let text = text_ops::joined(parts, seq!['.']);
    dotted_octets_are_read_back(ip);
    lemma_octet(ip.a);
    lemma_octet(ip.b);
    lemma_octet(ip.c);
    lemma_octet(ip.d);
    lemma_digits_hold_no_colon(ip.a);
    lemma_digits_hold_no_colon(ip.b);
    lemma_digits_hold_no_colon(ip.c);
    lemma_digits_hold_no_colon(ip.d);
    reveal_with_fuel(text_ops::joined, 5);
    let three = parts.drop_last();
    let two = three.drop_last();
    let one = two.drop_last();
    assert(one =~= seq![parts[0]]);
    assert(two.last() == parts[1] && three.last() == parts[2] && parts.last() == parts[3]);
    assert(text == parts[0] + seq!['.'] + parts[1] + seq!['.'] + parts[2] + seq!['.'] + parts[3]);
    assert(text_ops::whole(text, Separator::Character(':')));
    let alone = seq![text];
    assert forall|i: int| 0 <= i < alone.len() implies text_ops::whole(
        #[trigger] alone[i],
        Separator::Character(':'),
    ) by {
        assert(alone[i] == text);
    }
    text_ops::joined_texts_come_apart(alone, ':', Separator::Character(':'));
    assert(text_ops::pieces(text, Separator::Character(':')) == alone);
    assert(alone.drop_last() =~= Seq::<Seq<char>>::empty());
}

proof fn lemma_digits_hold_no_colon(n: u8)
    ensures
        text_ops::whole(text_ops::decimal(n as nat), Separator::Character(':')),
{
    let text = text_ops::decimal(n as nat);
    text_ops::decimal_is_read_back(n as nat);
    assert forall|i: int| 0 <= i < text.len() implies !text_ops::separates(
        Separator::Character(':'),
        #[trigger] text[i],
    ) by {
        assert(text_ops::digit(text[i]));
    }
}

} // verus!
