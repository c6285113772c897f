//! IPv4 addresses in dotted-quad notation.

use crate::text::{decimal, digit_char, push_decimal};
use vstd::prelude::*;

verus! {

/// An IPv4 address, octet by octet from the left.
#[derive(Clone, Copy, Debug, PartialEq, Eq, Hash, Structural)]
pub struct Ipv4 {
    pub a: u8,
    pub b: u8,
    pub c: u8,
    pub d: u8,
}

/// The dotted-quad notation of an address: its four octets as decimal
/// numerals without leading zeros, separated by dots.
pub open spec fn dotted(address: Ipv4) -> Seq<char> {
    decimal(address.a as nat) + seq!['.'] + decimal(address.b as nat) + seq!['.'] + decimal(
        address.c as nat,
    ) + seq!['.'] + decimal(address.d as nat)
}

/// Whether `c` is one of the ten decimal digits.
pub open spec fn is_digit(c: char) -> bool {
    '0' <= c <= '9'
}

impl Ipv4 {
    /// Writes the address in dotted-quad notation.
    pub fn to_text(&self) -> (text: String)
        ensures
            text@ == dotted(*self),
    {
        let mut text = String::new();
        push_decimal(&mut text, self.a as u64);
        text.push('.');
        push_decimal(&mut text, self.b as u64);
        text.push('.');
        push_decimal(&mut text, self.c as u64);
        text.push('.');
        push_decimal(&mut text, self.d as u64);
        assert(text@ =~= dotted(*self));
        text
    }

    /// Reads an address in dotted-quad notation.
    ///
    /// Accepts exactly the texts that [`Ipv4::to_text`] writes: four decimal
    /// octets without leading zeros, three dots, nothing else.
    pub fn parse(text: &str) -> (address: Option<Ipv4>)
        ensures
            match address {
                Some(found) => text@ == dotted(found),
                None => forall|any: Ipv4| text@ != dotted(any),
            },
    {
        let chars = chars_of(text);
        let n = chars.len();
        let dot_a = find_dot(&chars, 0);
        let dot_b = if dot_a < n { find_dot(&chars, dot_a + 1) } else { n };
        let dot_c = if dot_b < n { find_dot(&chars, dot_b + 1) } else { n };
        let dot_d = if dot_c < n { find_dot(&chars, dot_c + 1) } else { n };
        if dot_c >= n || dot_d < n {
            assert(quad_parts(text@) is None);
            assert forall|any: Ipv4| text@ != dotted(any) by {
                lemma_parts_of_dotted(any);
            }
            return None;
        }
        assert(quad_parts(text@) == Some(
            (
                text@.subrange(0, dot_a as int),
                text@.subrange(dot_a + 1, dot_b as int),
                text@.subrange(dot_b + 1, dot_c as int),
                text@.subrange(dot_c + 1, n as int),
            ),
        ));
        let a = parse_octet(&chars, 0, dot_a);
        let b = parse_octet(&chars, dot_a + 1, dot_b);
        let c = parse_octet(&chars, dot_b + 1, dot_c);
        let d = parse_octet(&chars, dot_c + 1, n);
        match (a, b, c, d) {
            (Some(a), Some(b), Some(c), Some(d)) => {
                proof {
                    lemma_rejoin(text@, dot_a as int, dot_b as int, dot_c as int);
                }
                Some(Ipv4 { a, b, c, d })
            },
            _ => {
                assert forall|any: Ipv4| text@ != dotted(any) by {
                    lemma_parts_of_dotted(any);
                }
                None
            },
        }
    }
}

/// Two addresses with the same dotted-quad notation are the same address.
pub proof fn lemma_dotted_injective(x: Ipv4, y: Ipv4)
    requires
        dotted(x) == dotted(y),
    ensures
        x == y,
{
    lemma_parts_of_dotted(x);
    lemma_parts_of_dotted(y);
    lemma_decimal_octet_injective(x.a, y.a);
    lemma_decimal_octet_injective(x.b, y.b);
    lemma_decimal_octet_injective(x.c, y.c);
    lemma_decimal_octet_injective(x.d, y.d);
}

/// Two octets with the same numeral are the same octet.
pub proof fn lemma_decimal_octet_injective(u: u8, v: u8)
    requires
        decimal(u as nat) == decimal(v as nat),
    ensures
        u == v,
{
    lemma_octet_value(u);
    lemma_octet_value(v);
}

/// Reading undoes writing: a text that [`Ipv4::to_text`] wrote for an
/// address is read by [`Ipv4::parse`] as that address.
pub proof fn lemma_parse_undoes_to_text(address: Ipv4, read: Option<Ipv4>)
    requires
        match read {
            Some(found) => dotted(address) == dotted(found),
            None => forall|any: Ipv4| dotted(address) != dotted(any),
        },
    ensures
        read == Some(address),
{
    match read {
        Some(found) => lemma_dotted_injective(address, found),
        None => assert(dotted(address) == dotted(address)),
    }
}

/// The characters of a string, in order.
fn chars_of(text: &str) -> (chars: Vec<char>)
    ensures
        chars@ == text@,
{
    let mut chars: Vec<char> = Vec::new();
    for c in it: text.chars()
        invariant
            it.seq() == text@,
            chars@ == text@.take(it.index() as int),
    {
        chars.push(c);
        assert(text@.take(it.index() + 1) == text@.take(it.index() as int).push(c));
    }
    assert(text@.take(text@.len() as int) == text@);
    chars
}

/// The position of the first dot at or after `from`, or the length of
/// `chars` where there is none.
fn find_dot(chars: &Vec<char>, from: usize) -> (at: usize)
    requires
        from <= chars.len(),
    ensures
        from <= at <= chars.len(),
        at == next_dot(chars@, from as int),
        at < chars.len() ==> chars[at as int] == '.',
{
    let mut at = from;
    while at < chars.len() && chars[at] != '.'
        invariant
            from <= at <= chars.len(),
            forall|k: int| from <= k < at ==> #[trigger] chars[k] != '.',
        decreases chars.len() - at,
    {
        at += 1;
    }
    proof {
        lemma_next_dot(chars@, from as int, at as int);
    }
    at
}

/// Reads `chars[from..to]` as the numeral of an octet.
fn parse_octet(chars: &Vec<char>, from: usize, to: usize) -> (octet: Option<u8>)
    requires
        from <= to <= chars.len(),
    ensures
        match octet {
            Some(v) => chars@.subrange(from as int, to as int) == decimal(v as nat),
            None => forall|v: u8| chars@.subrange(from as int, to as int) != decimal(v as nat),
        },
{
    let ghost numeral = chars@.subrange(from as int, to as int);
    let width = to - from;
    if width == 0 || width > 3 {
        assert forall|v: u8| numeral != decimal(v as nat) by {
            lemma_decimal_octet(v);
        }
        return None;
    }
    let mut value: u32 = 0;
    let mut i: usize = from;
    while i < to
        invariant
            from <= i <= to <= chars.len(),
            to - from <= 3,
            numeral == chars@.subrange(from as int, to as int),
            forall|k: int| from <= k < i ==> is_digit(#[trigger] chars[k]),
            i - from == 0 ==> value == 0,
            i - from == 1 ==> value == chars[from as int] as u8 - 48,
            i - from == 2 ==> value == (chars[from as int] as u8 - 48) * 10 + (chars[from + 1] as u8
                - 48),
            i - from == 3 ==> value == (chars[from as int] as u8 - 48) * 100 + (chars[from + 1] as u8
                - 48) * 10 + (chars[from + 2] as u8 - 48),
        decreases to - i,
    {
        let c = chars[i];
        if c < '0' || c > '9' {
            assert forall|v: u8| numeral != decimal(v as nat) by {
                lemma_decimal_octet(v);
                assert(numeral[i - from] == c);
            }
            return None;
        }
        value = value * 10 + (c as u8 - 48) as u32;
        i += 1;
    }
    if value > 255 || (width > 1 && chars[from] == '0') {
        assert forall|v: u8| numeral != decimal(v as nat) by {
            lemma_decimal_octet(v);
            if numeral == decimal(v as nat) {
                assert(numeral[0] == chars[from as int]);
                if width >= 2 {
                    assert(numeral[1] == chars[from + 1]);
                }
                if width >= 3 {
                    assert(numeral[2] == chars[from + 2]);
                }
            }
        }
        return None;
    }
    let octet = value as u8;
    proof {
        lemma_decimal_octet(octet);
        assert(numeral[0] == chars[from as int]);
        if width >= 2 {
            assert(numeral[1] == chars[from + 1]);
        }
        if width >= 3 {
            assert(numeral[2] == chars[from + 2]);
        }
        assert(numeral =~= decimal(octet as nat));
    }
    Some(octet)
}

/// The position of the first dot at or after `from`, or the length of `s`
/// where there is none.
spec fn next_dot(s: Seq<char>, from: int) -> int
    decreases s.len() - from,
{
    if from >= s.len() {
        s.len() as int
    } else if s[from] == '.' {
        from
    } else {
        next_dot(s, from + 1)
    }
}

/// A position that no dot precedes, and that holds a dot or is the end, is
/// where `next_dot` stops.
proof fn lemma_next_dot(s: Seq<char>, from: int, at: int)
    requires
        0 <= from <= at <= s.len(),
        forall|k: int| from <= k < at ==> #[trigger] s[k] != '.',
        at < s.len() ==> s[at] == '.',
    ensures
        next_dot(s, from) == at,
    decreases at - from,
{
    if from < at {
        lemma_next_dot(s, from + 1, at);
    }
}

/// The four parts of a text that holds exactly three dots, or nothing where
/// it holds fewer or more.
spec fn quad_parts(s: Seq<char>) -> Option<(Seq<char>, Seq<char>, Seq<char>, Seq<char>)> {
    let dot_a = next_dot(s, 0);
    let dot_b = next_dot(s, dot_a + 1);
    let dot_c = next_dot(s, dot_b + 1);
    let dot_d = next_dot(s, dot_c + 1);
    if dot_a < s.len() && dot_b < s.len() && dot_c < s.len() && dot_d >= s.len() {
        Some(
            (
                s.subrange(0, dot_a),
                s.subrange(dot_a + 1, dot_b),
                s.subrange(dot_b + 1, dot_c),
                s.subrange(dot_c + 1, s.len() as int),
            ),
        )
    } else {
        None
    }
}

/// The parts of a dotted quad are the numerals of its octets.
proof fn lemma_parts_of_dotted(address: Ipv4)
    ensures
        quad_parts(dotted(address)) == Some(
            (
                decimal(address.a as nat),
                decimal(address.b as nat),
                decimal(address.c as nat),
                decimal(address.d as nat),
            ),
        ),
{
    let s = dotted(address);
    let l0 = decimal(address.a as nat).len() as int;
    let l1 = decimal(address.b as nat).len() as int;
    let l2 = decimal(address.c as nat).len() as int;
    lemma_dotted_layout(address);
    lemma_decimal_octet(address.a);
    lemma_decimal_octet(address.b);
    lemma_decimal_octet(address.c);
    lemma_decimal_octet(address.d);
    lemma_next_dot(s, 0, l0);
    lemma_next_dot(s, l0 + 1, l0 + l1 + 1);
    lemma_next_dot(s, l0 + l1 + 2, l0 + l1 + l2 + 2);
    lemma_next_dot(s, l0 + l1 + l2 + 3, s.len() as int);
}

/// A text is its four parts between three dots, put together again.
proof fn lemma_rejoin(s: Seq<char>, dot_a: int, dot_b: int, dot_c: int)
    requires
        0 <= dot_a < dot_b < dot_c < s.len(),
        s[dot_a] == '.',
        s[dot_b] == '.',
        s[dot_c] == '.',
    ensures
        s == s.subrange(0, dot_a) + seq!['.'] + s.subrange(dot_a + 1, dot_b) + seq!['.'] + s.subrange(
            dot_b + 1,
            dot_c,
        ) + seq!['.'] + s.subrange(dot_c + 1, s.len() as int),
{
    let joined = s.subrange(0, dot_a) + seq!['.'] + s.subrange(dot_a + 1, dot_b) + seq!['.'] + s.subrange(
        dot_b + 1,
        dot_c,
    ) + seq!['.'] + s.subrange(dot_c + 1, s.len() as int);
    assert(joined.len() == s.len());
    assert forall|i: int| 0 <= i < s.len() implies joined[i] == s[i] by {
        if i < dot_a {
        } else if i == dot_a {
        } else if i < dot_b {
        } else if i == dot_b {
        } else if i < dot_c {
        } else if i == dot_c {
        } else {
        }
    }
    assert(joined =~= s);
}

/// Where the dots and the digits of a dotted quad stand.
proof fn lemma_dotted_layout(address: Ipv4)
    ensures
        ({
            let s = dotted(address);
            let l0 = decimal(address.a as nat).len() as int;
            let l1 = decimal(address.b as nat).len() as int;
            let l2 = decimal(address.c as nat).len() as int;
            let l3 = decimal(address.d as nat).len() as int;
            &&& s.len() == l0 + l1 + l2 + l3 + 3
            &&& s[l0] == '.'
            &&& s[l0 + l1 + 1] == '.'
            &&& s[l0 + l1 + l2 + 2] == '.'
            &&& s.subrange(0, l0) == decimal(address.a as nat)
            &&& s.subrange(l0 + 1, l0 + l1 + 1) == decimal(address.b as nat)
            &&& s.subrange(l0 + l1 + 2, l0 + l1 + l2 + 2) == decimal(address.c as nat)
            &&& s.subrange(l0 + l1 + l2 + 3, s.len() as int) == decimal(address.d as nat)
            &&& forall|i: int|
                0 <= i < s.len() && i != l0 && i != l0 + l1 + 1 && i != l0 + l1 + l2 + 2
                    ==> is_digit(#[trigger] s[i])
        }),
{
    lemma_decimal_octet(address.a);
    lemma_decimal_octet(address.b);
    lemma_decimal_octet(address.c);
    lemma_decimal_octet(address.d);
}

/// The numeral of an octet, digit by digit.
proof fn lemma_decimal_octet(v: u8)
    ensures
        v < 10 ==> decimal(v as nat) == seq![digit_char(v as nat)],
        10 <= v < 100 ==> decimal(v as nat) == seq![
            digit_char((v / 10) as nat),
            digit_char((v % 10) as nat),
        ],
        100 <= v ==> decimal(v as nat) == seq![
            digit_char((v / 100) as nat),
            digit_char(((v / 10) % 10) as nat),
            digit_char((v % 10) as nat),
        ],
        1 <= decimal(v as nat).len() <= 3,
        forall|i: int| 0 <= i < decimal(v as nat).len() ==> is_digit(#[trigger] decimal(v as nat)[i]),
{
    reveal_with_fuel(decimal, 3);
    if v < 10 {
    } else if v < 100 {
        assert(decimal(v as nat) == seq![digit_char((v / 10) as nat)].push(
            digit_char((v % 10) as nat),
        ));
    } else {
        let hundreds = (v / 100) as nat;
        assert((v as nat / 10) / 10 == hundreds);
        assert(decimal(v as nat / 10) == seq![digit_char(hundreds)].push(
            digit_char(((v / 10) % 10) as nat),
        ));
        assert(decimal(v as nat) == decimal(v as nat / 10).push(digit_char((v % 10) as nat)));
    }
}

/// The digit that a digit character stands for.
spec fn digit_value(c: char) -> nat
    recommends
        is_digit(c),
{
    (c as u8 - 48) as nat
}

/// A digit's character stands for that digit.
proof fn lemma_digit_value(digit: nat)
    requires
        digit < 10,
    ensures
        is_digit(digit_char(digit)),
        digit_value(digit_char(digit)) == digit,
{
}

/// The value that the numeral of an octet spells out.
spec fn octet_value(numeral: Seq<char>) -> nat {
    if numeral.len() == 1 {
        digit_value(numeral[0])
    } else if numeral.len() == 2 {
        digit_value(numeral[0]) * 10 + digit_value(numeral[1])
    } else {
        digit_value(numeral[0]) * 100 + digit_value(numeral[1]) * 10 + digit_value(numeral[2])
    }
}

/// The numeral of an octet spells out that octet.
proof fn lemma_octet_value(v: u8)
    ensures
        octet_value(decimal(v as nat)) == v,
{
    lemma_decimal_octet(v);
    lemma_digit_value((v % 10) as nat);
    lemma_digit_value((v / 100) as nat);
    if v < 10 {
    } else if v < 100 {
        lemma_digit_value((v / 10) as nat);
    } else {
        lemma_digit_value(((v / 10) % 10) as nat);
    }
}

} // verus!
