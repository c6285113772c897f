//! Text that the requests carry: decimal numbers and filtered identifiers.

use vstd::prelude::*;

verus! {

/// `String::push` appends one character to the end of the string.
pub assume_specification[ String::push ](text: &mut String, ch: char)
    ensures
        final(text)@ == old(text)@.push(ch),
;

/// The character of a decimal digit.
pub open spec fn digit_char(digit: nat) -> char
    recommends
        digit < 10,
{
    (('0' as u8) + digit) as char
}

/// The decimal numeral of `n`, without sign, padding or leading zeros.
pub open spec fn decimal(n: nat) -> Seq<char>
    decreases n,
{
    if n < 10 {
        seq![digit_char(n)]
    } else {
        decimal(n / 10).push(digit_char(n % 10))
    }
}

/// Different numbers have different numerals.
pub proof fn lemma_decimal_is_injective(m: nat, n: nat)
    requires
        decimal(m) == decimal(n),
    ensures
        m == n,
    decreases m,
{
    if m < 10 && n < 10 {
        assert(decimal(m)[0] == digit_char(m));
        assert(decimal(n)[0] == digit_char(n));
        lemma_digit_char_is_injective(m, n);
    } else if m < 10 {
        lemma_decimal_is_not_empty(n / 10);
        assert(decimal(n).len() >= 2);
    } else if n < 10 {
        lemma_decimal_is_not_empty(m / 10);
        assert(decimal(m).len() >= 2);
    } else {
        let front = decimal(m / 10);
        let other = decimal(n / 10);
        assert(front.push(digit_char(m % 10)).drop_last() == front);
        assert(other.push(digit_char(n % 10)).drop_last() == other);
        assert(front.push(digit_char(m % 10)).last() == digit_char(m % 10));
        assert(other.push(digit_char(n % 10)).last() == digit_char(n % 10));
        lemma_decimal_is_injective(m / 10, n / 10);
        lemma_digit_char_is_injective(m % 10, n % 10);
    }
}

/// Different digits have different characters.
proof fn lemma_digit_char_is_injective(a: nat, b: nat)
    requires
        a < 10,
        b < 10,
        digit_char(a) == digit_char(b),
    ensures
        a == b,
{
    assert(digit_char(a) as u8 == 48 + a);
    assert(digit_char(b) as u8 == 48 + b);
}

/// Every numeral has a digit.
proof fn lemma_decimal_is_not_empty(n: nat)
    ensures
        decimal(n).len() > 0,
{
}

/// Appends the decimal numeral of `n` to `out`.
pub fn push_decimal(out: &mut String, n: u64)
    ensures
        final(out)@ == old(out)@ + decimal(n as nat),
    decreases n,
{
    if n >= 10 {
        push_decimal(out, n / 10);
    }
    let digit: u8 = (n % 10) as u8;
    out.push((48u8 + digit) as char);
    proof {
        if n >= 10 {
            assert(old(out)@ + decimal(n as nat) == (old(out)@ + decimal((n / 10) as nat)).push(
                digit_char((n % 10) as nat),
            ));
        } else {
            assert(old(out)@ + decimal(n as nat) == old(out)@.push(digit_char(n as nat)));
        }
    }
}

/// The decimal numeral of `n` as a string.
pub fn decimal_text(n: u64) -> (text: String)
    ensures
        text@ == decimal(n as nat),
{
    let mut text = String::new();
    push_decimal(&mut text, n);
    assert(Seq::<char>::empty() + decimal(n as nat) == decimal(n as nat));
    text
}

/// `text` with every occurrence of `unwanted` taken out.
pub open spec fn without(text: Seq<char>, unwanted: char) -> Seq<char> {
    text.filter(|c: char| c != unwanted)
}

/// What is left of a text holds no occurrence of `unwanted`, and nothing
/// that the text did not hold.
pub proof fn lemma_without(text: Seq<char>, unwanted: char)
    ensures
        forall|i: int|
            0 <= i < without(text, unwanted).len() ==> {
                &&& #[trigger] without(text, unwanted)[i] != unwanted
                &&& text.contains(without(text, unwanted)[i])
            },
    decreases text.len(),
{
    reveal(Seq::filter);
    if text.len() > 0 {
        let front = text.drop_last();
        lemma_without(front, unwanted);
        assert forall|i: int| 0 <= i < without(text, unwanted).len() implies {
            &&& #[trigger] without(text, unwanted)[i] != unwanted
            &&& text.contains(without(text, unwanted)[i])
        } by {
            if i < without(front, unwanted).len() {
                let c = without(front, unwanted)[i];
                assert(front.contains(c));
                let k = choose|k: int| 0 <= k < front.len() && front[k] == c;
                assert(text[k] == c);
            } else {
                assert(text[text.len() - 1] == text.last());
            }
        }
    }
}

/// What is left of a text holds every character of it that is not
/// `unwanted`.
pub proof fn lemma_without_keeps(text: Seq<char>, unwanted: char, at: int)
    requires
        0 <= at < text.len(),
        text[at] != unwanted,
    ensures
        without(text, unwanted).contains(text[at]),
    decreases text.len(),
{
    reveal(Seq::filter);
    let front = text.drop_last();
    if at < text.len() - 1 {
        lemma_without_keeps(front, unwanted, at);
        let k = choose|k: int|
            0 <= k < without(front, unwanted).len() && without(front, unwanted)[k] == front[at];
        assert(without(text, unwanted)[k] == text[at]);
    } else {
        let kept = without(text, unwanted);
        assert(kept == without(front, unwanted).push(text.last()));
        assert(kept[kept.len() - 1] == text[at]);
    }
}

/// Copies `text`, leaving out every occurrence of `unwanted`.
pub fn remove_char(text: &str, unwanted: char) -> (kept: String)
    ensures
        kept@ == without(text@, unwanted),
{
    let mut kept = String::new();
    for c in it: text.chars()
        invariant
            it.seq() == text@,
            kept@ == without(text@.take(it.index() as int), unwanted),
    {
        proof {
            let seen = text@.take(it.index() + 1);
            assert(seen.drop_last() == text@.take(it.index() as int));
            assert(seen.last() == c);
            reveal(Seq::filter);
        }
        if c != unwanted {
            kept.push(c);
        }
    }
    assert(text@.take(text@.len() as int) == text@);
    kept
}

} // verus!
