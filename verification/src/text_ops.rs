//! Text as sequences of characters: comparison, decimal numbers, trimming and
//! splitting, each with the mathematical function that it computes.

use vstd::prelude::*;
use vstd::string::*;

verus! {

/// `String::push` appends the character to the end of the string.
pub assume_specification[ String::push ](s: &mut String, c: char)
    ensures
        final(s)@ == old(s)@.push(c),
;

/// The characters of `s`, in order.
pub fn chars_of(s: &str) -> (out: Vec<char>)
    ensures
        out@ == s@,
{
    let mut out: Vec<char> = Vec::new();
    for c in it: s.chars()
        invariant
            out@ == it.seq().take(it.index()),
            it.seq() == s@,
    {
        out.push(c);
        proof {
            assert(out@ =~= it.seq().take(it.index() + 1));
        }
    }
    proof {
        assert(out@ =~= s@);
    }
    out
}

/// The string made of the characters `chars[from..to]`.
pub fn string_of(chars: &Vec<char>, from: usize, to: usize) -> (out: String)
    requires
        from <= to <= chars@.len(),
    ensures
        out@ == chars@.subrange(from as int, to as int),
{
    let mut out: String = String::new();
    let mut i: usize = from;
    while i < to
        invariant
            from <= i <= to <= chars@.len(),
            out@ == chars@.subrange(from as int, i as int),
        decreases to - i,
    {
        out.push(chars[i]);
        i += 1;
        proof {
            assert(chars@.subrange(from as int, i as int) =~= chars@.subrange(
                from as int,
                i - 1,
            ).push(chars@[i - 1]));
        }
    }
    out
}

/// Whether two texts hold the same characters.
pub fn same_text(a: &str, b: &str) -> (same: bool)
    ensures
        same == (a@ == b@),
{
    let x = chars_of(a);
    let y = chars_of(b);
    if x.len() != y.len() {
        return false;
    }
    let mut i: usize = 0;
    while i < x.len()
        invariant
            i <= x@.len(),
            x@ == a@,
            y@ == b@,
            x@.len() == y@.len(),
            forall|j: int| 0 <= j < i ==> x@[j] == y@[j],
        decreases x@.len() - i,
    {
        if x[i] != y[i] {
            return false;
        }
        i += 1;
    }
    proof {
        assert(a@ =~= b@);
    }
    true
}

/// The texts of a list of strings.
pub open spec fn texts(list: Seq<String>) -> Seq<Seq<char>> {
    list.map_values(|s: String| s@)
}

/// The texts of a list of string slices.
pub open spec fn slices(list: Seq<&str>) -> Seq<Seq<char>> {
    list.map_values(|s: &str| s@)
}

/// Whether `text` stands in a list of strings.
pub fn listed_string(list: &Vec<String>, text: &str) -> (found: bool)
    ensures
        found == texts(list@).contains(text@),
{
    let mut i: usize = 0;
    while i < list.len()
        invariant
            i <= list@.len(),
            forall|j: int| 0 <= j < i ==> (#[trigger] list@[j])@ != text@,
        decreases list@.len() - i,
    {
        if same_text(list[i].as_str(), text) {
            proof {
                assert(texts(list@)[i as int] == text@);
            }
            return true;
        }
        i += 1;
    }
    proof {
        assert forall|j: int| 0 <= j < texts(list@).len() implies texts(list@)[j] != text@ by {
            assert(texts(list@)[j] == list@[j]@);
        }
    }
    false
}

/// The decimal digit `d`, for `d < 10`.
pub open spec fn digit_char(d: nat) -> char {
    (48 + d) as char
}

/// `n` in decimal, without leading zeros.
pub open spec fn decimal(n: nat) -> Seq<char>
    decreases n,
{
    if n < 10 {
        seq![digit_char(n)]
    } else {
        decimal(n / 10).push(digit_char(n % 10))
    }
}

/// `n` in decimal.
pub fn decimal_string(n: u128) -> (out: String)
    ensures
        out@ == decimal(n as nat),
    decreases n,
{
    if n < 10 {
        let mut out: String = String::new();
        out.push(digit_of((n % 10) as u8));
        proof {
            assert(out@ =~= decimal(n as nat));
        }
        out
    } else {
        let mut out = decimal_string(n / 10);
        out.push(digit_of((n % 10) as u8));
        out
    }
}

/// The character of one decimal digit.
fn digit_of(d: u8) -> (c: char)
    requires
        d < 10,
    ensures
        c == digit_char(d as nat),
{
    match d {
        0 => '0',
        1 => '1',
        2 => '2',
        3 => '3',
        4 => '4',
        5 => '5',
        6 => '6',
        7 => '7',
        8 => '8',
        _ => '9',
    }
}

/// An integer in decimal, with a minus sign where it is negative.
pub open spec fn signed_decimal(n: int) -> Seq<char> {
    if n < 0 {
        seq!['-'] + decimal((-n) as nat)
    } else {
        decimal(n as nat)
    }
}

/// A signed integer in decimal.
pub fn signed_decimal_string(n: i128) -> (out: String)
    ensures
        out@ == signed_decimal(n as int),
{
    if n < 0 {
        let magnitude: u128 = (-(n + 1)) as u128 + 1;
        let mut out: String = String::new();
        out.push('-');
        out.append(decimal_string(magnitude).as_str());
        proof {
            assert(out@ =~= signed_decimal(n as int));
        }
        out
    } else {
        decimal_string(n as u128)
    }
}

/// The lower case of an ASCII letter; any other character is kept.
pub open spec fn lower_char(c: char) -> char {
    if 'A' <= c && c <= 'Z' {
        ((c as u32) + 32) as char
    } else {
        c
    }
}

/// `s` with its ASCII letters in lower case.
pub open spec fn lower(s: Seq<char>) -> Seq<char> {
    s.map_values(|c: char| lower_char(c))
}

/// The lower case of one character.
pub fn lower_of(c: char) -> (l: char)
    ensures
        l == lower_char(c),
{
    if 'A' <= c && c <= 'Z' {
        ((c as u8) + 32) as char
    } else {
        c
    }
}

/// `s` with its ASCII letters in lower case.
pub fn lower_string(s: &str) -> (out: String)
    ensures
        out@ == lower(s@),
{
    let chars = chars_of(s);
    let mut out: String = String::new();
    let mut i: usize = 0;
    while i < chars.len()
        invariant
            i <= chars@.len(),
            chars@ == s@,
            out@ == lower(s@.take(i as int)),
        decreases chars@.len() - i,
    {
        out.push(lower_of(chars[i]));
        i += 1;
        proof {
            assert(out@ =~= lower(s@.take(i as int)));
        }
    }
    proof {
        assert(s@.take(s@.len() as int) =~= s@);
    }
    out
}

/// The list as one text, with `separator` between neighbours.
pub open spec fn joined(list: Seq<Seq<char>>, separator: Seq<char>) -> Seq<char>
    decreases list.len(),
{
    if list.len() == 0 {
        Seq::empty()
    } else if list.len() == 1 {
        list[0]
    } else {
        joined(list.drop_last(), separator) + separator + list.last()
    }
}

/// Joins a list of strings.
pub fn join(list: &Vec<String>, separator: &str) -> (out: String)
    ensures
        out@ == joined(texts(list@), separator@),
{
    let mut out: String = String::new();
    let mut i: usize = 0;
    while i < list.len()
        invariant
            i <= list@.len(),
            out@ == joined(texts(list@).take(i as int), separator@),
        decreases list@.len() - i,
    {
        if i > 0 {
            out.append(separator);
        }
        out.append(list[i].as_str());
        i += 1;
        proof {
            let seen = texts(list@).take(i as int);
            assert(seen.drop_last() =~= texts(list@).take(i - 1));
            assert(seen.last() == list@[i - 1]@);
            assert(out@ =~= joined(seen, separator@));
        }
    }
    proof {
        assert(texts(list@).take(list@.len() as int) =~= texts(list@));
    }
    out
}

/// White space, as the Unicode property of that name has it.
pub open spec fn white(c: char) -> bool {
    let n = c as u32;
    ||| 0x09 <= n <= 0x0D
    ||| n == 0x20
    ||| n == 0x85
    ||| n == 0xA0
    ||| n == 0x1680
    ||| 0x2000 <= n <= 0x200A
    ||| n == 0x2028
    ||| n == 0x2029
    ||| n == 0x202F
    ||| n == 0x205F
    ||| n == 0x3000
}

/// Whether `c` is white space.
pub fn is_white(c: char) -> (yes: bool)
    ensures
        yes == white(c),
{
    let n: u32 = c as u32;
    (0x09 <= n && n <= 0x0D) || n == 0x20 || n == 0x85 || n == 0xA0 || n == 0x1680 || (0x2000 <= n
        && n <= 0x200A) || n == 0x2028 || n == 0x2029 || n == 0x202F || n == 0x205F || n == 0x3000
}

/// `s` without its leading white space.
pub open spec fn trimmed_start(s: Seq<char>) -> Seq<char>
    decreases s.len(),
{
    if s.len() > 0 && white(s[0]) {
        trimmed_start(s.drop_first())
    } else {
        s
    }
}

/// `s` without its trailing white space.
pub open spec fn trimmed_end(s: Seq<char>) -> Seq<char>
    decreases s.len(),
{
    if s.len() > 0 && white(s.last()) {
        trimmed_end(s.drop_last())
    } else {
        s
    }
}

/// `s` without white space at either end.
pub open spec fn trimmed(s: Seq<char>) -> Seq<char> {
    trimmed_end(trimmed_start(s))
}

/// The bounds of `chars[from..to]` without white space at either end.
pub fn trim_bounds(chars: &Vec<char>, from: usize, to: usize) -> (bounds: (usize, usize))
    requires
        from <= to <= chars@.len(),
    ensures
        from <= bounds.0 <= bounds.1 <= to,
        chars@.subrange(bounds.0 as int, bounds.1 as int) == trimmed(
            chars@.subrange(from as int, to as int),
        ),
{
    let mut start: usize = from;
    while start < to && is_white(chars[start])
        invariant
            from <= start <= to <= chars@.len(),
            trimmed_start(chars@.subrange(start as int, to as int)) == trimmed_start(
                chars@.subrange(from as int, to as int),
            ),
        decreases to - start,
    {
        proof {
            assert(chars@.subrange(start as int, to as int).drop_first() =~= chars@.subrange(
                start + 1,
                to as int,
            ));
        }
        start += 1;
    }
    let mut end: usize = to;
    while start < end && is_white(chars[end - 1])
        invariant
            from <= start <= end <= to <= chars@.len(),
            trimmed_end(chars@.subrange(start as int, end as int)) == trimmed_end(
                chars@.subrange(start as int, to as int),
            ),
        decreases end,
    {
        proof {
            assert(chars@.subrange(start as int, end as int).drop_last() =~= chars@.subrange(
                start as int,
                end - 1,
            ));
        }
        end -= 1;
    }
    (start, end)
}

/// `s` without white space at either end.
pub fn trim(s: &str) -> (out: String)
    ensures
        out@ == trimmed(s@),
{
    let chars = chars_of(s);
    let n: usize = chars.len();
    let (start, end) = trim_bounds(&chars, 0, n);
    proof {
        assert(chars@.subrange(0, n as int) =~= s@);
    }
    string_of(&chars, start, end)
}

pub open spec fn digit(c: char) -> bool {
    '0' <= c && c <= '9'
}

pub open spec fn all_digits(s: Seq<char>) -> bool {
    forall|i: int| 0 <= i < s.len() ==> digit(#[trigger] s[i])
}

/// The number that a run of decimal digits stands for.
pub open spec fn number(s: Seq<char>) -> nat
    decreases s.len(),
{
    if s.len() == 0 {
        0
    } else {
        number(s.drop_last()) * 10 + ((s.last() as u32 - 48) as nat)
    }
}

/// The digits of an unsigned number, after its optional plus sign.
pub open spec fn unsigned_digits(s: Seq<char>) -> Seq<char> {
    if s.len() > 0 && s[0] == '+' {
        s.skip(1)
    } else {
        s
    }
}

/// An unsigned decimal number up to `max`: digits, at least one, with an
/// optional plus sign before them.
pub open spec fn unsigned(s: Seq<char>, max: nat) -> Option<nat> {
    let digits = unsigned_digits(s);
    if digits.len() > 0 && all_digits(digits) && number(digits) <= max {
        Some(number(digits))
    } else {
        None
    }
}

proof fn lemma_number_grows(s: Seq<char>, n: int)
    requires
        0 <= n <= s.len(),
        all_digits(s),
    ensures
        number(s.take(n)) <= number(s),
    decreases s.len() - n,
{
    if n < s.len() {
        let next = s.take(n + 1);
        assert(next.drop_last() =~= s.take(n));
        lemma_number_grows(s, n + 1);
    } else {
        assert(s.take(n) =~= s);
    }
}

/// Reads `chars[from..to]` as an unsigned decimal number up to `max`.
pub fn parse_unsigned(chars: &Vec<char>, from: usize, to: usize, max: u64) -> (value: Option<u64>)
    requires
        from <= to <= chars@.len(),
    ensures
        match unsigned(chars@.subrange(from as int, to as int), max as nat) {
            Some(n) => value == Some(n as u64) && n <= max,
            None => value is None,
        },
{
    let ghost text = chars@.subrange(from as int, to as int);
    let start: usize = if from < to && chars[from] == '+' {
        from + 1
    } else {
        from
    };
    let ghost digits = unsigned_digits(text);
    proof {
        assert(digits =~= chars@.subrange(start as int, to as int));
    }
    if start == to {
        return None;
    }
    let mut value: u128 = 0;
    let mut i: usize = start;
    while i < to
        invariant
            from <= start <= i <= to <= chars@.len(),
            digits == chars@.subrange(start as int, to as int),
            digits == unsigned_digits(text),
            text == chars@.subrange(from as int, to as int),
            all_digits(digits.take(i - start)),
            value == number(digits.take(i - start)),
            value <= max,
        decreases to - i,
    {
        let c: char = chars[i];
        proof {
            assert(digits[i - start] == c);
        }
        if !('0' <= c && c <= '9') {
            return None;
        }
        let d: u128 = (c as u32 - 48) as u128;
        value = value * 10 + d;
        proof {
            let next = digits.take(i + 1 - start);
            assert(next.drop_last() =~= digits.take(i - start));
            assert(value == number(next));
            assert forall|j: int| 0 <= j < next.len() implies digit(#[trigger] next[j]) by {
                if j < i - start {
                    assert(digits.take(i - start)[j] == next[j]);
                }
            }
        }
        if value > max as u128 {
            proof {
                if all_digits(digits) {
                    lemma_number_grows(digits, i + 1 - start);
                }
            }
            return None;
        }
        i += 1;
    }
    proof {
        assert(digits.take(to - start) =~= digits);
    }
    Some(value as u64)
}

/// The lexicographic order of texts by their characters.
pub open spec fn precedes(a: Seq<char>, b: Seq<char>) -> bool
    decreases a.len(),
{
    if b.len() == 0 {
        false
    } else if a.len() == 0 {
        true
    } else if a[0] != b[0] {
        a[0] < b[0]
    } else {
        precedes(a.drop_first(), b.drop_first())
    }
}

/// Whether `a` comes before `b`.
pub fn text_precedes(a: &str, b: &str) -> (yes: bool)
    ensures
        yes == precedes(a@, b@),
{
    let x = chars_of(a);
    let y = chars_of(b);
    let mut i: usize = 0;
    proof {
        assert(a@.skip(0) =~= a@);
        assert(b@.skip(0) =~= b@);
    }
    while i < x.len() && i < y.len() && x[i] == y[i]
        invariant
            i <= x@.len(),
            i <= y@.len(),
            x@ == a@,
            y@ == b@,
            precedes(a@, b@) == precedes(a@.skip(i as int), b@.skip(i as int)),
        decreases x@.len() - i,
    {
        proof {
            assert(a@.skip(i as int).drop_first() =~= a@.skip(i + 1));
            assert(b@.skip(i as int).drop_first() =~= b@.skip(i + 1));
        }
        i += 1;
    }
    if i >= y.len() {
        false
    } else if i >= x.len() {
        true
    } else {
        x[i] < y[i]
    }
}

/// Puts `text` at its place in an ascending list, unless it is there already.
pub open spec fn inserted(list: Seq<Seq<char>>, text: Seq<char>) -> Seq<Seq<char>>
    decreases list.len(),
{
    if list.len() == 0 {
        seq![text]
    } else if list.last() == text {
        list
    } else if precedes(list.last(), text) {
        list.push(text)
    } else {
        inserted(list.drop_last(), text).push(list.last())
    }
}

/// The texts of `list` in ascending order, each once.
pub open spec fn sorted_once(list: Seq<Seq<char>>) -> Seq<Seq<char>>
    decreases list.len(),
{
    if list.len() == 0 {
        Seq::empty()
    } else {
        inserted(sorted_once(list.drop_last()), list.last())
    }
}

/// Every text comes before all that follow it.
pub open spec fn ascending(list: Seq<Seq<char>>) -> bool {
    forall|i: int, j: int| 0 <= i < j < list.len() ==> precedes(list[i], list[j])
}

proof fn lemma_precedes_total(a: Seq<char>, b: Seq<char>)
    ensures
        a == b || precedes(a, b) || precedes(b, a),
        !(precedes(a, b) && precedes(b, a)),
        !precedes(a, a),
    decreases a.len(),
{
    if a.len() > 0 && b.len() > 0 {
        lemma_precedes_total(a.drop_first(), b.drop_first());
        if a[0] == b[0] && a.drop_first() == b.drop_first() {
            assert(a =~= b) by {
                assert forall|i: int| 0 <= i < a.len() implies a[i] == b[i] by {
                    if i > 0 {
                        assert(a.drop_first()[i - 1] == b.drop_first()[i - 1]);
                    }
                }
            }
        }
    } else if a.len() == 0 && b.len() == 0 {
        assert(a =~= b);
    }
    if a.len() > 0 {
        lemma_precedes_irreflexive(a);
    }
}

proof fn lemma_precedes_irreflexive(a: Seq<char>)
    ensures
        !precedes(a, a),
    decreases a.len(),
{
    if a.len() > 0 {
        lemma_precedes_irreflexive(a.drop_first());
    }
}

proof fn lemma_precedes_transitive(a: Seq<char>, b: Seq<char>, c: Seq<char>)
    requires
        precedes(a, b),
        precedes(b, c),
    ensures
        precedes(a, c),
    decreases a.len(),
{
    if a.len() > 0 && a[0] == b[0] && b[0] == c[0] {
        lemma_precedes_transitive(a.drop_first(), b.drop_first(), c.drop_first());
    }
}

proof fn lemma_inserted(list: Seq<Seq<char>>, text: Seq<char>)
    requires
        ascending(list),
    ensures
        ascending(inserted(list, text)),
        forall|t: Seq<char>| #[trigger]
            inserted(list, text).contains(t) <==> list.contains(t) || t == text,
    decreases list.len(),
{
    let result = inserted(list, text);
    if list.len() == 0 {
        assert(result[0] == text);
    } else {
        let rest = list.drop_last();
        let last = list.last();
        assert(list[list.len() - 1] == last);
        lemma_precedes_total(last, text);
        if last == text {
            assert(list.contains(text));
        } else if precedes(last, text) {
            assert forall|i: int, j: int| 0 <= i < j < result.len() implies precedes(
                result[i],
                result[j],
            ) by {
                if j == list.len() && i < list.len() - 1 {
                    assert(precedes(list[i], list[list.len() - 1]));
                    lemma_precedes_transitive(list[i], last, text);
                }
            }
            assert forall|t: Seq<char>| #[trigger]
                result.contains(t) <==> list.contains(t) || t == text by {
                assert(result[list.len() as int] == text);
                if list.contains(t) {
                    let i = choose|i: int| 0 <= i < list.len() && list[i] == t;
                    assert(result[i] == t);
                }
                if result.contains(t) {
                    let i = choose|i: int| 0 <= i < result.len() && result[i] == t;
                    if i < list.len() {
                        assert(list[i] == t);
                    }
                }
            }
        } else {
            assert(ascending(rest)) by {
                assert forall|i: int, j: int| 0 <= i < j < rest.len() implies precedes(
                    rest[i],
                    rest[j],
                ) by {
                    assert(precedes(list[i], list[j]));
                }
            }
            lemma_inserted(rest, text);
            let before = inserted(rest, text);
            assert(result == before.push(last));
            assert forall|i: int, j: int| 0 <= i < j < result.len() implies precedes(
                result[i],
                result[j],
            ) by {
                if j == before.len() {
                    assert(before.contains(before[i]));
                    if before[i] != text {
                        let k = choose|k: int| 0 <= k < rest.len() && rest[k] == before[i];
                        assert(precedes(list[k], list[list.len() - 1]));
                    }
                }
            }
            assert forall|t: Seq<char>| #[trigger]
                result.contains(t) <==> list.contains(t) || t == text by {
                if result.contains(t) {
                    let i = choose|i: int| 0 <= i < result.len() && result[i] == t;
                    if i < before.len() {
                        assert(before.contains(t));
                        if t != text {
                            let k = choose|k: int| 0 <= k < rest.len() && rest[k] == t;
                            assert(list[k] == t);
                        }
                    }
                }
                if list.contains(t) || t == text {
                    if t == last && t != text {
                        assert(result[before.len() as int] == t);
                    } else {
                        if t != text {
                            let k = choose|k: int| 0 <= k < list.len() && list[k] == t;
                            assert(rest[k] == t);
                        }
                        assert(before.contains(t));
                        let k = choose|k: int| 0 <= k < before.len() && before[k] == t;
                        assert(result[k] == t);
                    }
                }
            }
        }
    }
}

/// Sorting keeps exactly the texts of the list and puts them in ascending
/// order, so that none occurs twice.
pub proof fn sorted_once_is_ascending(list: Seq<Seq<char>>)
    ensures
        ascending(sorted_once(list)),
        forall|t: Seq<char>| #[trigger] sorted_once(list).contains(t) <==> list.contains(t),
    decreases list.len(),
{
    if list.len() > 0 {
        let rest = list.drop_last();
        sorted_once_is_ascending(rest);
        lemma_inserted(sorted_once(rest), list.last());
        assert forall|t: Seq<char>| #[trigger]
            sorted_once(list).contains(t) <==> list.contains(t) by {
            if list.contains(t) && t != list.last() {
                let k = choose|k: int| 0 <= k < list.len() && list[k] == t;
                assert(rest[k] == t);
            }
            if rest.contains(t) {
                let k = choose|k: int| 0 <= k < rest.len() && rest[k] == t;
                assert(list[k] == t);
            }
            assert(list[list.len() - 1] == list.last());
        }
    }
}

/// Sorts a list of strings and drops repetitions.
pub fn sort_once(list: &Vec<String>) -> (out: Vec<String>)
    ensures
        texts(out@) == sorted_once(texts(list@)),
{
    let mut out: Vec<String> = Vec::new();
    let mut i: usize = 0;
    proof {
        assert(texts(out@) =~= sorted_once(texts(list@).take(0)));
    }
    while i < list.len()
        invariant
            i <= list@.len(),
            texts(out@) == sorted_once(texts(list@).take(i as int)),
        decreases list@.len() - i,
    {
        insert_sorted(&mut out, list[i].as_str());
        i += 1;
        proof {
            let seen = texts(list@).take(i as int);
            assert(seen.drop_last() =~= texts(list@).take(i - 1));
            assert(seen.last() == list@[i - 1]@);
        }
    }
    proof {
        assert(texts(list@).take(list@.len() as int) =~= texts(list@));
    }
    out
}

fn insert_sorted(list: &mut Vec<String>, text: &str)
    ensures
        texts(final(list)@) == inserted(texts(old(list)@), text@),
{
    let ghost before = list@;
    let mut at: usize = list.len();
    proof {
        assert(texts(before).take(at as int) =~= texts(before));
        assert(texts(before).skip(at as int) =~= Seq::empty());
        assert(inserted(texts(before), text@) =~= inserted(
            texts(before).take(at as int),
            text@,
        ) + texts(before).skip(at as int));
    }
    while at > 0
        invariant
            at <= list@.len(),
            list@ == before,
            before == old(list)@,
            inserted(texts(before), text@) == inserted(texts(before).take(at as int), text@)
                + texts(before).skip(at as int),
        decreases at,
    {
        proof {
            assert(texts(before).take(at as int).last() == before[at - 1]@);
            assert(texts(before).take(at as int).drop_last() =~= texts(before).take(at - 1));
        }
        if same_text(list[at - 1].as_str(), text) {
            proof {
                assert(texts(before) =~= texts(before).take(at as int) + texts(before).skip(
                    at as int,
                ));
            }
            return;
        }
        if text_precedes(list[at - 1].as_str(), text) {
            list.insert(at, text.to_owned());
            proof {
                assert(texts(list@) =~= texts(before).take(at as int).push(text@) + texts(
                    before,
                ).skip(at as int));
            }
            return;
        }
        proof {
            let head = texts(before).take(at as int);
            assert(inserted(head, text@) == inserted(head.drop_last(), text@).push(head.last()));
            assert(inserted(head.drop_last(), text@).push(head.last()) + texts(before).skip(
                at as int,
            ) =~= inserted(texts(before).take(at - 1), text@) + texts(before).skip(at - 1));
        }
        at -= 1;
    }
    list.insert(0, text.to_owned());
    proof {
        assert(texts(before).take(0) =~= Seq::empty());
        assert(texts(list@) =~= seq![text@] + texts(before));
        assert(texts(before).skip(0) =~= texts(before));
    }
}

/// `text` begins with `prefix`.
pub open spec fn begins_with(text: Seq<char>, prefix: Seq<char>) -> bool {
    prefix.len() <= text.len() && text.take(prefix.len() as int) == prefix
}

/// Whether `text` begins with `prefix`.
pub fn starts_with(text: &str, prefix: &str) -> (yes: bool)
    ensures
        yes == begins_with(text@, prefix@),
{
    let x = chars_of(text);
    let y = chars_of(prefix);
    if y.len() > x.len() {
        return false;
    }
    let mut i: usize = 0;
    while i < y.len()
        invariant
            i <= y@.len() <= x@.len(),
            x@ == text@,
            y@ == prefix@,
            forall|j: int| 0 <= j < i ==> x@[j] == y@[j],
        decreases y@.len() - i,
    {
        if x[i] != y[i] {
            proof {
                assert(text@.take(prefix@.len() as int)[i as int] == x@[i as int]);
            }
            return false;
        }
        i += 1;
    }
    proof {
        assert(text@.take(prefix@.len() as int) =~= prefix@);
    }
    true
}

/// `pattern` stands somewhere in `text`.
pub open spec fn mentions(text: Seq<char>, pattern: Seq<char>) -> bool {
    exists|i: int|
        0 <= i <= text.len() - pattern.len() && #[trigger] text.subrange(
            i,
            i + pattern.len(),
        ) == pattern
}

/// What a part of a text mentions, the text mentions.
pub proof fn part_is_mentioned(
    before: Seq<char>,
    part: Seq<char>,
    after: Seq<char>,
    pattern: Seq<char>,
)
    requires
        mentions(part, pattern),
    ensures
        mentions(before + part + after, pattern),
{
    let i = choose|i: int|
        0 <= i <= part.len() - pattern.len() && #[trigger] part.subrange(i, i + pattern.len())
            == pattern;
    let whole = before + part + after;
    let at = before.len() + i;
    assert(whole.subrange(at, at + pattern.len()) =~= part.subrange(i, i + pattern.len()));
}

/// The texts of `required` that are not in `installed`, in order.
pub open spec fn absent(
    required: Seq<Seq<char>>,
    installed: Seq<Seq<char>>,
) -> Seq<Seq<char>>
    decreases required.len(),
{
    if required.len() == 0 {
        Seq::empty()
    } else {
        let before = absent(required.drop_last(), installed);
        if installed.contains(required.last()) {
            before
        } else {
            before.push(required.last())
        }
    }
}

/// Every name of the list is there.
pub open spec fn all_there(names: Seq<Seq<char>>, installed: Seq<Seq<char>>) -> bool {
    forall|i: int| 0 <= i < names.len() ==> installed.contains(#[trigger] names[i])
}

/// What is absent is exactly what is required and not there.
pub proof fn absent_is_what_is_not_there(required: Seq<Seq<char>>, installed: Seq<Seq<char>>)
    ensures
        absent(required, installed).len() == 0 <==> all_there(required, installed),
        forall|name: Seq<char>| #[trigger]
            absent(required, installed).contains(name) <==> required.contains(name)
                && !installed.contains(name),
    decreases required.len(),
{
    let missing = absent(required, installed);
    if required.len() > 0 {
        let rest = required.drop_last();
        let last = required.last();
        absent_is_what_is_not_there(rest, installed);
        let before = absent(rest, installed);
        assert(required[required.len() - 1] == last);
        if all_there(rest, installed) && installed.contains(last) {
            assert forall|i: int| 0 <= i < required.len() implies installed.contains(
                #[trigger] required[i],
            ) by {
                if i < rest.len() {
                    assert(rest[i] == required[i]);
                }
            }
        }
        if all_there(required, installed) {
            assert forall|i: int| 0 <= i < rest.len() implies installed.contains(
                #[trigger] rest[i],
            ) by {
                assert(rest[i] == required[i]);
            }
        }
        assert forall|name: Seq<char>| #[trigger]
            missing.contains(name) <==> required.contains(name) && !installed.contains(name) by {
            if missing.contains(name) {
                let k = choose|k: int| 0 <= k < missing.len() && missing[k] == name;
                if k < before.len() {
                    assert(before[k] == name);
                    assert(before.contains(name));
                    assert(rest.contains(name));
                    let i = choose|i: int| 0 <= i < rest.len() && rest[i] == name;
                    assert(required[i] == name);
                } else {
                    assert(name == last);
                }
            }
            if required.contains(name) && !installed.contains(name) {
                let i = choose|i: int| 0 <= i < required.len() && required[i] == name;
                if i < rest.len() {
                    assert(rest[i] == name);
                    assert(before.contains(name));
                    let k = choose|k: int| 0 <= k < before.len() && before[k] == name;
                    assert(missing[k] == name);
                } else {
                    assert(missing[missing.len() - 1] == name);
                }
            }
        }
    }
}

/// The texts of `required` that are not in `installed`.
pub fn absent_from(required: &[&str], installed: &Vec<String>) -> (out: Vec<String>)
    ensures
        texts(out@) == absent(slices(required@), texts(installed@)),
{
    let mut out: Vec<String> = Vec::new();
    let mut i: usize = 0;
    proof {
        assert(texts(out@) =~= absent(slices(required@).take(0), texts(installed@)));
    }
    while i < required.len()
        invariant
            i <= required@.len(),
            texts(out@) == absent(slices(required@).take(i as int), texts(installed@)),
        decreases required@.len() - i,
    {
        let present = listed_string(installed, required[i]);
        let ghost before = out@;
        if !present {
            out.push(required[i].to_owned());
        }
        i += 1;
        proof {
            let seen = slices(required@).take(i as int);
            assert(seen.drop_last() =~= slices(required@).take(i - 1));
            assert(seen.last() == required@[i - 1]@);
            if !present {
                assert(texts(out@) =~= texts(before).push(required@[i - 1]@));
            }
        }
    }
    proof {
        assert(slices(required@).take(required@.len() as int) =~= slices(required@));
    }
    out
}

/// The characters of a list, with one more for each text.
pub open spec fn weight(list: Seq<Seq<char>>) -> int
    decreases list.len(),
{
    if list.len() == 0 {
        0
    } else {
        weight(list.drop_last()) + list.last().len() + 1
    }
}

/// Texts joined by single characters are no longer than their weight.
pub proof fn joined_within_weight(list: Seq<Seq<char>>, separator: Seq<char>)
    requires
        separator.len() == 1,
    ensures
        joined(list, separator).len() <= weight(list),
        weight(list) >= 0,
    decreases list.len(),
{
    if list.len() > 0 {
        joined_within_weight(list.drop_last(), separator);
    }
}

/// What is absent weighs no more than what was required.
pub proof fn absent_within_weight(required: Seq<Seq<char>>, installed: Seq<Seq<char>>)
    ensures
        0 <= weight(absent(required, installed)) <= weight(required),
    decreases required.len(),
{
    if required.len() > 0 {
        let rest = required.drop_last();
        absent_within_weight(rest, installed);
        let before = absent(rest, installed);
        assert(before.push(required.last()).drop_last() =~= before);
    }
}

/// Lists laid end to end weigh as much as their parts.
pub proof fn weight_of_sum(a: Seq<Seq<char>>, b: Seq<Seq<char>>)
    ensures
        weight(a + b) == weight(a) + weight(b),
    decreases b.len(),
{
    if b.len() == 0 {
        assert(a + b =~= a);
    } else {
        weight_of_sum(a, b.drop_last());
        assert((a + b).drop_last() =~= a + b.drop_last());
    }
}

proof fn lemma_inserted_weight(list: Seq<Seq<char>>, text: Seq<char>)
    ensures
        weight(inserted(list, text)) <= weight(list) + text.len() + 1,
    decreases list.len(),
{
    if list.len() == 0 {
        assert(seq![text].drop_last() =~= Seq::<Seq<char>>::empty());
        assert(weight(Seq::<Seq<char>>::empty()) == 0);
    } else if list.last() == text {
    } else if precedes(list.last(), text) {
        assert(list.push(text).drop_last() =~= list);
    } else {
        lemma_inserted_weight(list.drop_last(), text);
        let before = inserted(list.drop_last(), text);
        assert(before.push(list.last()).drop_last() =~= before);
    }
}

/// Sorting adds no weight.
pub proof fn sorted_within_weight(list: Seq<Seq<char>>)
    ensures
        weight(sorted_once(list)) <= weight(list),
    decreases list.len(),
{
    if list.len() > 0 {
        sorted_within_weight(list.drop_last());
        lemma_inserted_weight(sorted_once(list.drop_last()), list.last());
    }
}

/// What a text is split at.
#[derive(Debug, Clone, Copy, PartialEq, Eq, Structural)]
pub enum Separator {
    Character(char),
    WhiteSpace,
}

pub open spec fn separates(separator: Separator, c: char) -> bool {
    match separator {
        Separator::Character(separating) => c == separating,
        Separator::WhiteSpace => white(c),
    }
}

/// The pieces of a text between its separators; there is one piece more than
/// there are separators, and pieces may be empty.
pub open spec fn pieces(s: Seq<char>, separator: Separator) -> Seq<Seq<char>>
    decreases s.len(),
{
    if s.len() == 0 {
        seq![Seq::empty()]
    } else {
        let before = pieces(s.drop_last(), separator);
        if separates(separator, s.last()) {
            before.push(Seq::empty())
        } else {
            before.drop_last().push(before.last().push(s.last()))
        }
    }
}

/// A text has at least one piece.
pub proof fn pieces_exist(s: Seq<char>, separator: Separator)
    ensures
        pieces(s, separator).len() > 0,
    decreases s.len(),
{
    if s.len() > 0 {
        pieces_exist(s.drop_last(), separator);
    }
}

/// No character of the text separates.
pub open spec fn whole(s: Seq<char>, separator: Separator) -> bool {
    forall|i: int| 0 <= i < s.len() ==> !separates(separator, #[trigger] s[i])
}

proof fn lemma_piece_at_the_end(s: Seq<char>, between: char, word: Seq<char>, separator: Separator)
    requires
        separates(separator, between),
        whole(word, separator),
    ensures
        pieces(word, separator) == seq![word],
        pieces(s.push(between) + word, separator) == pieces(s, separator).push(word),
    decreases word.len(),
{
    let text = s.push(between) + word;
    if word.len() == 0 {
        assert(text =~= s.push(between));
        assert(text.drop_last() =~= s);
        assert(word =~= Seq::empty());
    } else {
        let rest = word.drop_last();
        assert forall|i: int| 0 <= i < rest.len() implies !separates(
            separator,
            #[trigger] rest[i],
        ) by {
            assert(rest[i] == word[i]);
        }
        lemma_piece_at_the_end(s, between, rest, separator);
        assert(!separates(separator, word[word.len() - 1]));
        assert(text.drop_last() =~= s.push(between) + rest);
        assert(text.last() == word.last());
        assert(rest.push(word.last()) =~= word);
        assert(pieces(word, separator) =~= seq![word]);
        let before = pieces(s, separator).push(rest);
        assert(before.drop_last() =~= pieces(s, separator));
    }
}

/// Texts that are joined with a separator that none of them holds come apart
/// as they were.
pub proof fn joined_texts_come_apart(list: Seq<Seq<char>>, between: char, separator: Separator)
    requires
        list.len() > 0,
        separates(separator, between),
        forall|i: int| 0 <= i < list.len() ==> whole(#[trigger] list[i], separator),
    ensures
        pieces(joined(list, seq![between]), separator) == list,
    decreases list.len(),
{
    assert(whole(list[list.len() - 1], separator));
    if list.len() == 1 {
        lemma_piece_at_the_end(Seq::empty(), between, list[0], separator);
        assert(seq![list[0]] =~= list);
    } else {
        let rest = list.drop_last();
        assert forall|i: int| 0 <= i < rest.len() implies whole(#[trigger] rest[i], separator) by {
            assert(rest[i] == list[i]);
        }
        joined_texts_come_apart(rest, between, separator);
        let head = joined(rest, seq![between]);
        lemma_piece_at_the_end(head, between, list.last(), separator);
        assert(head + seq![between] + list.last() =~= head.push(between) + list.last());
        assert(rest.push(list.last()) =~= list);
    }
}

/// Words that are joined with spaces are the words of the text.
pub proof fn joined_words_are_read_back(list: Seq<Seq<char>>)
    requires
        list.len() > 0,
        forall|i: int|
            0 <= i < list.len() ==> (#[trigger] list[i]).len() > 0 && whole(
                list[i],
                Separator::WhiteSpace,
            ),
    ensures
        words(joined(list, seq![' '])) == list,
{
    joined_texts_come_apart(list, ' ', Separator::WhiteSpace);
    lemma_all_filled(list);
}

proof fn lemma_all_filled(list: Seq<Seq<char>>)
    requires
        forall|i: int| 0 <= i < list.len() ==> (#[trigger] list[i]).len() > 0,
    ensures
        filled(list) == list,
    decreases list.len(),
{
    if list.len() > 0 {
        let rest = list.drop_last();
        assert forall|i: int| 0 <= i < rest.len() implies (#[trigger] rest[i]).len() > 0 by {
            assert(rest[i] == list[i]);
        }
        assert(list[list.len() - 1].len() > 0);
        lemma_all_filled(rest);
        assert(rest.push(list.last()) =~= list);
    } else {
        assert(list =~= Seq::empty());
    }
}

/// The texts of a list of character vectors.
pub open spec fn vectors(list: Seq<Vec<char>>) -> Seq<Seq<char>> {
    list.map_values(|v: Vec<char>| v@)
}

/// Splits `chars[from..to]`.
pub fn split(chars: &Vec<char>, from: usize, to: usize, separator: Separator) -> (out: Vec<
    Vec<char>,
>)
    requires
        from <= to <= chars@.len(),
    ensures
        vectors(out@) == pieces(chars@.subrange(from as int, to as int), separator),
        out@.len() > 0,
{
    let mut done: Vec<Vec<char>> = Vec::new();
    let mut current: Vec<char> = Vec::new();
    let mut i: usize = from;
    proof {
        let none = chars@.subrange(from as int, from as int);
        assert(none.len() == 0);
        assert(vectors(done@).push(current@) =~= pieces(none, separator));
    }
    while i < to
        invariant
            from <= i <= to <= chars@.len(),
            vectors(done@).push(current@) == pieces(
                chars@.subrange(from as int, i as int),
                separator,
            ),
        decreases to - i,
    {
        let c: char = chars[i];
        let ends = match separator {
            Separator::Character(separating) => c == separating,
            Separator::WhiteSpace => is_white(c),
        };
        let ghost seen = chars@.subrange(from as int, i as int);
        let ghost next = chars@.subrange(from as int, i + 1);
        let ghost before = vectors(done@);
        let ghost piece = current@;
        proof {
            assert(next.drop_last() =~= seen);
            assert(next.last() == c);
            assert(before.push(piece).drop_last() =~= before);
        }
        if ends {
            done.push(current);
            current = Vec::new();
            proof {
                assert(vectors(done@) =~= before.push(piece));
                assert(vectors(done@).push(current@) =~= pieces(next, separator));
            }
        } else {
            current.push(c);
            proof {
                assert(vectors(done@).push(current@) =~= pieces(next, separator));
            }
        }
        i += 1;
    }
    let ghost before = vectors(done@);
    let ghost piece = current@;
    done.push(current);
    proof {
        assert(vectors(done@) =~= before.push(piece));
    }
    done
}

/// The texts of a list that are not empty, in order.
pub open spec fn filled(list: Seq<Seq<char>>) -> Seq<Seq<char>>
    decreases list.len(),
{
    if list.len() == 0 {
        Seq::empty()
    } else if list.last().len() == 0 {
        filled(list.drop_last())
    } else {
        filled(list.drop_last()).push(list.last())
    }
}

/// The words of a text: its parts between white space.
pub open spec fn words(s: Seq<char>) -> Seq<Seq<char>> {
    filled(pieces(s, Separator::WhiteSpace))
}

/// The pieces of `chars[from..to]` that are not empty.
pub fn split_filled(chars: &Vec<char>, from: usize, to: usize, separator: Separator) -> (out: Vec<
    Vec<char>,
>)
    requires
        from <= to <= chars@.len(),
    ensures
        vectors(out@) == filled(pieces(chars@.subrange(from as int, to as int), separator)),
{
    let all = split(chars, from, to, separator);
    let ghost list = vectors(all@);
    let mut out: Vec<Vec<char>> = Vec::new();
    let mut i: usize = 0;
    proof {
        assert(vectors(out@) =~= filled(list.take(0)));
    }
    while i < all.len()
        invariant
            i <= all@.len(),
            list == vectors(all@),
            vectors(out@) == filled(list.take(i as int)),
        decreases all@.len() - i,
    {
        let ghost before = vectors(out@);
        proof {
            assert(list.take(i + 1).drop_last() =~= list.take(i as int));
            assert(list.take(i + 1).last() == all@[i as int]@);
        }
        if all[i].len() > 0 {
            let piece = copy_chars(&all[i]);
            out.push(piece);
            proof {
                assert(vectors(out@) =~= before.push(all@[i as int]@));
            }
        }
        i += 1;
    }
    proof {
        assert(list.take(all@.len() as int) =~= list);
    }
    out
}

/// The words of `chars[from..to]`.
pub fn split_words(chars: &Vec<char>, from: usize, to: usize) -> (out: Vec<Vec<char>>)
    requires
        from <= to <= chars@.len(),
    ensures
        vectors(out@) == words(chars@.subrange(from as int, to as int)),
{
    split_filled(chars, from, to, Separator::WhiteSpace)
}

/// The same characters in a vector of their own.
pub fn copy_chars(chars: &Vec<char>) -> (out: Vec<char>)
    ensures
        out@ == chars@,
{
    let mut out: Vec<char> = Vec::new();
    let mut i: usize = 0;
    while i < chars.len()
        invariant
            i <= chars@.len(),
            out@ == chars@.take(i as int),
        decreases chars@.len() - i,
    {
        out.push(chars[i]);
        i += 1;
        proof {
            assert(out@ =~= chars@.take(i as int));
        }
    }
    proof {
        assert(chars@.take(chars@.len() as int) =~= chars@);
    }
    out
}

/// `s` without the character `c` at either end.
pub open spec fn stripped(s: Seq<char>, c: char) -> Seq<char>
    decreases s.len(),
{
    if s.len() > 0 && s[0] == c {
        stripped(s.drop_first(), c)
    } else if s.len() > 0 && s.last() == c {
        stripped(s.drop_last(), c)
    } else {
        s
    }
}

/// The bounds of `chars[from..to]` without the character `c` at either end.
pub fn strip_bounds(chars: &Vec<char>, from: usize, to: usize, c: char) -> (bounds: (usize, usize))
    requires
        from <= to <= chars@.len(),
    ensures
        from <= bounds.0 <= bounds.1 <= to,
        chars@.subrange(bounds.0 as int, bounds.1 as int) == stripped(
            chars@.subrange(from as int, to as int),
            c,
        ),
{
    let mut start: usize = from;
    let mut end: usize = to;
    while start < end && (chars[start] == c || chars[end - 1] == c)
        invariant
            from <= start <= end <= to <= chars@.len(),
            stripped(chars@.subrange(start as int, end as int), c) == stripped(
                chars@.subrange(from as int, to as int),
                c,
            ),
        decreases end - start,
    {
        let ghost part = chars@.subrange(start as int, end as int);
        if chars[start] == c {
            proof {
                assert(part.drop_first() =~= chars@.subrange(start + 1, end as int));
            }
            start += 1;
        } else {
            proof {
                assert(part.drop_last() =~= chars@.subrange(start as int, end - 1));
            }
            end -= 1;
        }
    }
    (start, end)
}

/// `text` ends with `suffix`.
pub open spec fn closes_with(text: Seq<char>, suffix: Seq<char>) -> bool {
    suffix.len() <= text.len() && text.skip(text.len() - suffix.len()) == suffix
}

/// A number below 2^32 has at most ten digits, one below 10^n at most n.
pub proof fn decimal_length(n: nat, digits: nat, bound: nat)
    requires
        digits > 0,
        bound == vstd::arithmetic::power::pow(10, digits),
        n < bound,
    ensures
        0 < decimal(n).len() <= digits,
    decreases digits,
{
    reveal(vstd::arithmetic::power::pow);
    if n >= 10 {
        if digits == 1 {
            assert(vstd::arithmetic::power::pow(10, 0) == 1);
            assert(false);
        }
        let less = (digits - 1) as nat;
        let smaller = vstd::arithmetic::power::pow(10, less);
        assert(bound == 10 * smaller);
        decimal_length(n / 10, less, smaller as nat);
    }
}

/// The digits of a number are read back as that number.
pub proof fn decimal_is_read_back(n: nat)
    ensures
        decimal(n).len() > 0,
        all_digits(decimal(n)),
        number(decimal(n)) == n,
        unsigned_digits(decimal(n)) == decimal(n),
        forall|max: nat| n <= max ==> #[trigger] unsigned(decimal(n), max) == Some(n),
    decreases n,
{
    let digits = decimal(n);
    if n >= 10 {
        decimal_is_read_back(n / 10);
        let before = decimal(n / 10);
        assert(digits.drop_last() =~= before);
        assert(digits.last() == digit_char(n % 10));
        assert forall|i: int| 0 <= i < digits.len() implies digit(#[trigger] digits[i]) by {
            if i < before.len() {
                assert(digits[i] == before[i]);
            }
        }
        assert(digits[0] == before[0]);
    } else {
        assert(digits.len() == 1);
        assert(digits.drop_last() =~= Seq::empty());
        assert(number(digits.drop_last()) == 0);
    }
    assert(digit(digits[0]));
    assert(digits[0] != '+');
}

/// Whether `pattern` stands somewhere in `text`.
pub fn text_contains(text: &str, pattern: &str) -> (yes: bool)
    ensures
        yes == mentions(text@, pattern@),
{
    let x = chars_of(text);
    let y = chars_of(pattern);
    if y.len() > x.len() {
        return false;
    }
    let last: usize = x.len() - y.len();
    let mut i: usize = 0;
    while i <= last
        invariant
            i <= last + 1,
            last + y@.len() == x@.len(),
            x@.len() <= usize::MAX,
            x@ == text@,
            y@ == pattern@,
            forall|k: int|
                0 <= k < i ==> #[trigger] text@.subrange(k, k + pattern@.len()) != pattern@,
        decreases last + 1 - i,
    {
        let mut same = true;
        let mut j: usize = 0;
        while j < y.len()
            invariant
                i <= last,
                last + y@.len() == x@.len(),
                x@.len() <= usize::MAX,
                j <= y@.len(),
                x@ == text@,
                y@ == pattern@,
                same == (forall|k: int| 0 <= k < j ==> x@[i + k] == y@[k]),
            decreases y@.len() - j,
        {
            if x[i + j] != y[j] {
                same = false;
            }
            j += 1;
        }
        let ghost part = text@.subrange(i as int, i + pattern@.len());
        if same {
            proof {
                assert(part =~= pattern@);
            }
            return true;
        }
        proof {
            assert(part != pattern@) by {
                let k = choose|k: int| 0 <= k < y@.len() && x@[i + k] != y@[k];
                assert(part[k] == x@[i + k]);
            }
        }
        if i == last {
            return false;
        }
        i += 1;
    }
    false
}

/// Lower case changes the letters from A to Z, each to its own small letter, and
/// nothing else.
pub proof fn lower_case_changes_capitals(c: char, s: Seq<char>)
    ensures
        'A' <= c <= 'Z' ==> 'a' <= lower_char(c) <= 'z' && lower_char(c) as int - 'a' as int
            == c as int - 'A' as int,
        !('A' <= c <= 'Z') ==> lower_char(c) == c,
        lower(s).len() == s.len(),
        forall|i: int| 0 <= i < s.len() ==> #[trigger] lower(s)[i] == lower_char(s[i]),
        lower(lower(s)) == lower(s),
{
    assert(lower(lower(s)) =~= lower(s));
}

/// Of the plain characters, space, tab and the line breaks are white, and no
/// letter, digit or sign is.
pub proof fn plain_white_space_is_known(c: char)
    ensures
        c == ' ' || c == '\t' || c == '\n' || c == '\r' ==> white(c),
        '!' <= c <= '~' ==> !white(c),
{
}

/// Trimming takes off the white space round a text and leaves the text.
pub proof fn trimming_leaves_the_text(before: Seq<char>, text: Seq<char>, after: Seq<char>)
    requires
        text.len() > 0,
        !white(text[0]),
        !white(text.last()),
        forall|i: int| 0 <= i < before.len() ==> white(#[trigger] before[i]),
        forall|i: int| 0 <= i < after.len() ==> white(#[trigger] after[i]),
    ensures
        trimmed(before + text + after) == text,
    decreases before.len() + after.len(),
{
    let all = before + text + after;
    if before.len() > 0 {
        assert(all[0] == before[0]);
        let rest = before.drop_first();
        assert(all.drop_first() =~= rest + text + after);
        assert forall|i: int| 0 <= i < rest.len() implies white(#[trigger] rest[i]) by {
            assert(rest[i] == before[i + 1]);
        }
        trimming_leaves_the_text(rest, text, after);
    } else {
        assert(all[0] == text[0]);
        assert(trimmed_start(all) == all);
        lemma_trimmed_end(text, after);
        assert(all =~= text + after);
    }
}

proof fn lemma_trimmed_end(text: Seq<char>, after: Seq<char>)
    requires
        text.len() > 0,
        !white(text.last()),
        forall|i: int| 0 <= i < after.len() ==> white(#[trigger] after[i]),
    ensures
        trimmed_end(text + after) == text,
    decreases after.len(),
{
    let all = text + after;
    if after.len() > 0 {
        assert(all.last() == after.last());
        assert(after[after.len() - 1] == after.last());
        assert(all.drop_last() =~= text + after.drop_last());
        lemma_trimmed_end(text, after.drop_last());
    } else {
        assert(all =~= text);
    }
}

/// Texts are ordered by the first character in which they differ, and a text
/// comes before its own continuations.
pub proof fn first_difference_decides(
    common: Seq<char>,
    a: char,
    b: char,
    left: Seq<char>,
    right: Seq<char>,
)
    requires
        a < b,
    ensures
        precedes(common + seq![a] + left, common + seq![b] + right),
        !precedes(common + seq![b] + right, common + seq![a] + left),
        precedes(common, common + seq![a] + left),
        !precedes(common + seq![a] + left, common),
    decreases common.len(),
{
    let less = common + seq![a] + left;
    let more = common + seq![b] + right;
    if common.len() > 0 {
        let rest = common.drop_first();
        first_difference_decides(rest, a, b, left, right);
        assert(less[0] == common[0] && more[0] == common[0]);
        assert(less.drop_first() =~= rest + seq![a] + left);
        assert(more.drop_first() =~= rest + seq![b] + right);
    } else {
        assert(less[0] == a && more[0] == b);
    }
}

/// A negative number is its size behind a minus sign, and any other number is
/// its digits alone.
pub proof fn sign_stands_before_the_digits(n: nat)
    ensures
        n > 0 ==> signed_decimal(-n).len() > 0 && signed_decimal(-n)[0] == '-' && number(
            signed_decimal(-n).skip(1),
        ) == n,
        number(signed_decimal(n as int)) == n,
        all_digits(signed_decimal(n as int)),
{
    decimal_is_read_back(n);
    if n > 0 {
        assert(signed_decimal(-n).skip(1) =~= decimal(n));
    }
}

/// A plus sign before a number makes no difference; a number above the limit,
/// and a text without digits, is none.
pub proof fn plus_sign_makes_no_difference(n: nat, max: nat)
    ensures
        n <= max ==> unsigned(seq!['+'] + decimal(n), max) == Some(n),
        n > max ==> unsigned(decimal(n), max) is None,
        unsigned(Seq::empty(), max) is None,
        unsigned(seq!['+'], max) is None,
        unsigned(seq!['-'] + decimal(n), max) is None,
{
    decimal_is_read_back(n);
    assert((seq!['+'] + decimal(n)).skip(1) =~= decimal(n));
    assert(seq!['+'].skip(1) =~= Seq::<char>::empty());
    let negative = seq!['-'] + decimal(n);
    assert(negative[0] == '-');
    assert(unsigned_digits(negative) == negative);
    assert(!digit(negative[0]));
}

} // verus!
