//! Values for the lines that other programs read.

use vstd::prelude::*;
use vstd::string::*;

use crate::text_ops::{self, decimal_string, signed_decimal_string};

verus! {

pub open spec fn hex_digit(n: nat) -> char {
    if n < 10 {
        (48 + n) as char
    } else {
        (87 + n) as char
    }
}

/// A character inside a JSON string: quotes, backslashes and control
/// characters are escaped, everything else stands for itself.
pub open spec fn escaped_char(c: char) -> Seq<char> {
    let n = c as nat;
    if c == '"' {
        seq!['\\', '"']
    } else if c == '\\' {
        seq!['\\', '\\']
    } else if n == 0x08 {
        seq!['\\', 'b']
    } else if n == 0x09 {
        seq!['\\', 't']
    } else if n == 0x0A {
        seq!['\\', 'n']
    } else if n == 0x0C {
        seq!['\\', 'f']
    } else if n == 0x0D {
        seq!['\\', 'r']
    } else if n < 0x20 {
        seq!['\\', 'u', '0', '0', hex_digit(n / 16), hex_digit(n % 16)]
    } else {
        seq![c]
    }
}

/// The characters between the quotes of a JSON string.
pub open spec fn escaped(text: Seq<char>) -> Seq<char>
    decreases text.len(),
{
    if text.len() == 0 {
        Seq::empty()
    } else {
        escaped(text.drop_last()) + escaped_char(text.last())
    }
}

/// A text as a JSON string.
pub open spec fn json_string(text: Seq<char>) -> Seq<char> {
    seq!['"'] + escaped(text) + seq!['"']
}

/// `serde_json::to_string` of a string slice: it succeeds, and gives the text
/// in quotes, with quotes, backslashes and control characters escaped.
#[verifier::external_body]
fn serialized(text: &str) -> (out: String)
    ensures
        out@ == json_string(text@),
{
    serde_json::to_string(text).unwrap_or_default()
}

/// A text as a JSON string.
pub fn quoted(text: &str) -> (out: String)
    ensures
        out@ == json_string(text@),
{
    serialized(text)
}

/// A text as a JSON string, or the null value where there is none.
pub open spec fn json_optional(text: Option<Seq<char>>) -> Seq<char> {
    match text {
        Some(text) => json_string(text),
        None => "null"@,
    }
}

/// The text of an optional string.
pub open spec fn optional_text(text: Option<String>) -> Option<Seq<char>> {
    match text {
        Some(text) => Some(text@),
        None => None,
    }
}

pub fn quoted_optional(text: &Option<String>) -> (out: String)
    ensures
        out@ == json_optional(optional_text(*text)),
{
    match text {
        Some(text) => quoted(text.as_str()),
        None => "null".to_owned(),
    }
}

/// No control character stands in the text.
pub open spec fn one_line(text: Seq<char>) -> bool {
    forall|i: int| 0 <= i < text.len() ==> (#[trigger] text[i]) as nat >= 0x20
}

proof fn lemma_escaped_is_one_line(text: Seq<char>)
    ensures
        one_line(escaped(text)),
    decreases text.len(),
{
    if text.len() > 0 {
        lemma_escaped_is_one_line(text.drop_last());
        let n = text.last() as nat;
        if n < 0x20 {
            assert(hex_digit(n / 16) as nat >= 0x20);
            assert(hex_digit(n % 16) as nat >= 0x20);
        }
        assert(one_line(escaped_char(text.last())));
    }
}

/// A JSON string holds no line break and no other control character, whatever
/// the text holds, so a line built of such strings stays one line.
pub proof fn json_string_is_one_line(text: Seq<char>)
    ensures
        one_line(json_string(text)),
{
    lemma_escaped_is_one_line(text);
}

/// A named value of a JSON object; the value is JSON text.
pub struct Member {
    pub name: &'static str,
    pub value: String,
}

/// What a list of members says: each name with its value.
pub open spec fn member_texts(members: Seq<Member>) -> Seq<(Seq<char>, Seq<char>)> {
    members.map_values(|m: Member| (m.name@, m.value@))
}

/// The members of an object, with commas between them.
pub open spec fn member_list(members: Seq<(Seq<char>, Seq<char>)>) -> Seq<char>
    decreases members.len(),
{
    if members.len() == 0 {
        Seq::empty()
    } else {
        let (name, value) = members.last();
        let before = member_list(members.drop_last());
        let separated = if members.len() == 1 {
            before
        } else {
            before.push(',')
        };
        separated + json_string(name) + seq![':'] + value
    }
}

/// A JSON object with these members, in this order and without white space.
pub open spec fn json_object(members: Seq<(Seq<char>, Seq<char>)>) -> Seq<char> {
    seq!['{'] + member_list(members) + seq!['}']
}

pub fn object(members: &Vec<Member>) -> (out: String)
    ensures
        out@ == json_object(member_texts(members@)),
{
    let ghost all = member_texts(members@);
    let mut out = "{".to_owned();
    let mut i: usize = 0;
    proof {
        reveal_strlit("{");
        reveal_strlit(":");
        reveal_strlit("}");
        reveal_strlit(",");
        assert(all.take(0) =~= Seq::empty());
        assert(member_list(all.take(0)) =~= Seq::empty());
        assert(out@ =~= seq!['{'] + member_list(all.take(0)));
    }
    while i < members.len()
        invariant
            i <= members@.len(),
            all == member_texts(members@),
            out@ == seq!['{'] + member_list(all.take(i as int)),
            ":"@ == seq![':'],
            ","@ == seq![','],
        decreases members@.len() - i,
    {
        let ghost before = member_list(all.take(i as int));
        let ghost next = all.take(i + 1);
        if i > 0 {
            out.append(",");
        }
        let name = quoted(members[i].name);
        out.append(name.as_str());
        out.append(":");
        out.append(members[i].value.as_str());
        proof {
            assert(next.drop_last() =~= all.take(i as int));
            assert(next.last() == (members@[i as int].name@, members@[i as int].value@));
            assert(out@ =~= seq!['{'] + member_list(next));
        }
        i += 1;
    }
    out.append("}");
    proof {
        assert(all.take(members@.len() as int) =~= all);
        assert("}"@ =~= seq!['}']);
        assert(out@ =~= json_object(all));
    }
    out
}

/// A member whose value is a string.
pub fn text_member(name: &'static str, value: &str) -> (out: Member)
    ensures
        out.name@ == name@,
        out.value@ == json_string(value@),
{
    Member { name, value: quoted(value) }
}

/// A member whose value is a number.
pub fn number_member(name: &'static str, value: u128) -> (out: Member)
    ensures
        out.name@ == name@,
        out.value@ == text_ops::decimal(value as nat),
{
    Member { name, value: decimal_string(value) }
}

/// A number as JSON text, or the null value where there is none.
pub open spec fn json_optional_number(value: Option<u64>) -> Seq<char> {
    match value {
        Some(n) => text_ops::decimal(n as nat),
        None => "null"@,
    }
}

/// A member whose value is a number, or null where there is none.
pub fn optional_number_member(name: &'static str, value: Option<u64>) -> (out: Member)
    ensures
        out.name@ == name@,
        out.value@ == json_optional_number(value),
{
    match value {
        Some(n) => number_member(name, n as u128),
        None => raw_member(name, "null"),
    }
}

/// A member whose value is a signed number.
pub fn signed_member(name: &'static str, value: i128) -> (out: Member)
    ensures
        out.name@ == name@,
        out.value@ == text_ops::signed_decimal(value as int),
{
    Member { name, value: signed_decimal_string(value) }
}

pub open spec fn json_bool(value: bool) -> Seq<char> {
    if value {
        "true"@
    } else {
        "false"@
    }
}

/// A member whose value is a truth value.
pub fn flag_member(name: &'static str, value: bool) -> (out: Member)
    ensures
        out.name@ == name@,
        out.value@ == json_bool(value),
{
    let text = if value {
        "true".to_owned()
    } else {
        "false".to_owned()
    };
    Member { name, value: text }
}

/// A member whose value is already JSON text.
pub fn raw_member(name: &'static str, value: &str) -> (out: Member)
    ensures
        out.name@ == name@,
        out.value@ == value@,
{
    Member { name, value: value.to_owned() }
}

proof fn lemma_members_are_one_line(members: Seq<(Seq<char>, Seq<char>)>)
    requires
        forall|i: int| 0 <= i < members.len() ==> one_line((#[trigger] members[i]).1),
    ensures
        one_line(member_list(members)),
    decreases members.len(),
{
    if members.len() > 0 {
        let rest = members.drop_last();
        assert forall|i: int| 0 <= i < rest.len() implies one_line((#[trigger] rest[i]).1) by {
            assert(rest[i] == members[i]);
        }
        lemma_members_are_one_line(rest);
        assert(one_line(members[members.len() - 1].1));
        json_string_is_one_line(members.last().0);
    }
}

/// An object whose values hold no line break holds none either.
pub proof fn json_object_is_one_line(members: Seq<(Seq<char>, Seq<char>)>)
    requires
        forall|i: int| 0 <= i < members.len() ==> one_line((#[trigger] members[i]).1),
    ensures
        one_line(json_object(members)),
{
    lemma_members_are_one_line(members);
}

/// A text as it stands in an object under its name.
pub open spec fn named(name: Seq<char>, value: Seq<char>) -> Seq<char> {
    seq!['"'] + name + seq!['"', ':'] + value
}

/// No character of the text is escaped in a JSON string.
pub open spec fn plain_name(name: Seq<char>) -> bool {
    forall|i: int|
        0 <= i < name.len() ==> (#[trigger] name[i]) as nat >= 0x20 && name[i] != '"' && name[i]
            != '\\'
}

/// A text without quotes, backslashes and control characters stands for itself.
pub proof fn plain_text_is_kept(name: Seq<char>)
    requires
        plain_name(name),
    ensures
        json_string(name) == seq!['"'] + name + seq!['"'],
    decreases name.len(),
{
    lemma_plain_escaped(name);
}

proof fn lemma_plain_escaped(name: Seq<char>)
    requires
        plain_name(name),
    ensures
        escaped(name) == name,
    decreases name.len(),
{
    if name.len() > 0 {
        let rest = name.drop_last();
        assert forall|i: int| 0 <= i < rest.len() implies (#[trigger] rest[i]) as nat >= 0x20
            && rest[i] != '"' && rest[i] != '\\' by {
            assert(rest[i] == name[i]);
        }
        lemma_plain_escaped(rest);
        assert(name[name.len() - 1] == name.last());
        assert(escaped(name) =~= name);
    } else {
        assert(escaped(name) =~= name);
    }
}

proof fn lemma_member_is_listed(members: Seq<(Seq<char>, Seq<char>)>, i: int)
    requires
        0 <= i < members.len(),
        plain_name(members[i].0),
    ensures
        text_ops::mentions(member_list(members), named(members[i].0, members[i].1)),
    decreases members.len(),
{
    let (name, value) = members.last();
    let rest = members.drop_last();
    let separated = if members.len() == 1 {
        member_list(rest)
    } else {
        member_list(rest).push(',')
    };
    let all = member_list(members);
    let told = named(members[i].0, members[i].1);
    if i == members.len() - 1 {
        plain_text_is_kept(name);
        assert(all =~= separated + told);
        let at = separated.len() as int;
        assert(all.subrange(at, at + told.len()) =~= told);
    } else {
        assert(rest[i] == members[i]);
        lemma_member_is_listed(rest, i);
        let tail = seq![','] + json_string(name) + seq![':'] + value;
        assert(all =~= Seq::<char>::empty() + member_list(rest) + tail);
        text_ops::part_is_mentioned(Seq::empty(), member_list(rest), tail, told);
    }
}

/// An object tells each of its members: the name in quotes, and behind it the
/// value.
pub proof fn object_tells_its_members(members: Seq<(Seq<char>, Seq<char>)>, i: int)
    requires
        0 <= i < members.len(),
        plain_name(members[i].0),
    ensures
        text_ops::mentions(json_object(members), named(members[i].0, members[i].1)),
{
    lemma_member_is_listed(members, i);
    text_ops::part_is_mentioned(
        seq!['{'],
        member_list(members),
        seq!['}'],
        named(members[i].0, members[i].1),
    );
}

/// Two texts that differ differ as JSON strings too.
pub proof fn json_string_keeps_texts_apart(a: Seq<char>, b: Seq<char>)
    requires
        json_string(a) == json_string(b),
    ensures
        a == b,
{
    assert(json_string(a).subrange(1, json_string(a).len() - 1) =~= escaped(a));
    assert(json_string(b).subrange(1, json_string(b).len() - 1) =~= escaped(b));
    lemma_unescaped_escaped(a);
    lemma_unescaped_escaped(b);
}

/// The character that an escape stands for, by the character after the
/// backslash; the last two digits count for `u`.
spec fn unescaped(text: Seq<char>) -> Seq<char>
    decreases text.len(),
{
    if text.len() == 0 {
        Seq::empty()
    } else if text[0] != '\\' || text.len() < 2 {
        seq![text[0]] + unescaped(text.skip(1))
    } else if text[1] == 'u' && text.len() >= 6 {
        seq![((hex_value(text[4]) * 16 + hex_value(text[5])) as char)] + unescaped(text.skip(6))
    } else {
        seq![escape_value(text[1])] + unescaped(text.skip(2))
    }
}

spec fn hex_value(c: char) -> int {
    if c as int >= 97 {
        c as int - 87
    } else {
        c as int - 48
    }
}

spec fn escape_value(c: char) -> char {
    if c == 'b' {
        0x08 as char
    } else if c == 't' {
        0x09 as char
    } else if c == 'n' {
        0x0A as char
    } else if c == 'f' {
        0x0C as char
    } else if c == 'r' {
        0x0D as char
    } else {
        c
    }
}

proof fn lemma_escaped_front(text: Seq<char>)
    requires
        text.len() > 0,
    ensures
        escaped(text) == escaped_char(text[0]) + escaped(text.skip(1)),
    decreases text.len(),
{
    if text.len() == 1 {
        assert(text.drop_last() =~= Seq::empty());
        assert(text.skip(1) =~= Seq::empty());
        assert(escaped(text) =~= escaped_char(text[0]) + escaped(text.skip(1)));
    } else {
        lemma_escaped_front(text.drop_last());
        assert(text.drop_last().skip(1) =~= text.skip(1).drop_last());
        assert(text.skip(1).last() == text.last());
        assert(escaped(text) =~= escaped_char(text[0]) + escaped(text.skip(1)));
    }
}

proof fn lemma_unescaped_char(c: char, rest: Seq<char>)
    ensures
        unescaped(escaped_char(c) + rest) == seq![c] + unescaped(rest),
{
    let n = c as nat;
    let first = escaped_char(c);
    let all = first + rest;
    assert(all[0] == first[0]);
    assert(all.skip(first.len() as int) =~= rest);
    if first.len() == 6 {
        assert(all[1] == 'u');
        assert(all[4] == first[4] && all[5] == first[5]);
        assert(n < 0x20);
        assert(hex_value(first[4]) == n / 16);
        assert(hex_value(first[5]) == n % 16);
        assert(hex_value(first[4]) * 16 + hex_value(first[5]) == c as int);
        assert((c as int) as char == c);
    } else if first.len() == 2 {
        assert(all[1] == first[1]);
        assert(escape_value(first[1]) == c);
    } else {
        assert(first =~= seq![c]);
    }
}

proof fn lemma_unescaped_escaped(text: Seq<char>)
    ensures
        unescaped(escaped(text)) == text,
    decreases text.len(),
{
    if text.len() > 0 {
        let rest = text.skip(1);
        lemma_escaped_front(text);
        lemma_unescaped_escaped(rest);
        lemma_unescaped_char(text[0], escaped(rest));
        assert(text =~= seq![text[0]] + rest);
    } else {
        assert(escaped(text) =~= Seq::empty());
        assert(text =~= Seq::empty());
    }
}

} // verus!
