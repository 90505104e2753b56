//! Text for diagnostics: numbers written out in decimal and in hexadecimal.

use vstd::prelude::*;

verus! {

/// The sixteen digits, in order.
pub open spec fn digit_chars() -> Seq<char> {
    seq!['0', '1', '2', '3', '4', '5', '6', '7', '8', '9', 'a', 'b', 'c', 'd', 'e', 'f']
}

/// The numeral of `value` to the base `base`, without leading zeros; the
/// numeral of zero is `0`.
pub open spec fn numeral(value: nat, base: nat) -> Seq<char>
    recommends
        2 <= base <= 16,
    decreases value,
    via numeral_decreases
{
    if value < base || base < 2 {
        seq![digit_chars()[value as int]]
    } else {
        numeral(value / base, base).push(digit_chars()[(value % base) as int])
    }
}

#[via_fn]
proof fn numeral_decreases(value: nat, base: nat) {
    if value >= base && base >= 2 {
        assert(value / base < value) by (nonlinear_arith)
            requires
                value >= base,
                base >= 2,
        ;
    }
}

/// The decimal numeral of `value`.
pub open spec fn decimal(value: u64) -> Seq<char> {
    numeral(value as nat, 10)
}

/// The hexadecimal numeral of `value`, in lower case, after `0x`.
pub open spec fn hexadecimal(value: u64) -> Seq<char> {
    seq!['0', 'x'] + numeral(value as nat, 16)
}

/// Calls `String::push_str` of std, which appends the slice's characters
/// to the string.
#[verifier::external_body]
pub(crate) fn push_str(text: &mut String, piece: &str)
    ensures
        final(text)@ == old(text)@ + piece@,
{
    text.push_str(piece);
}

/// Calls `String::push` of std, which appends the character to the string.
#[verifier::external_body]
pub(crate) fn push_char(text: &mut String, character: char)
    ensures
        final(text)@ == old(text)@.push(character),
{
    text.push(character);
}

/// The character of the digit `digit`.
fn digit_char(digit: u64) -> (character: char)
    requires
        digit < 16,
    ensures
        character == digit_chars()[digit as int],
{
    match digit {
        0 => '0',
        1 => '1',
        2 => '2',
        3 => '3',
        4 => '4',
        5 => '5',
        6 => '6',
        7 => '7',
        8 => '8',
        9 => '9',
        10 => 'a',
        11 => 'b',
        12 => 'c',
        13 => 'd',
        14 => 'e',
        _ => 'f',
    }
}

/// Appends the numeral of `value` to the base `base` to `text`.
pub fn push_numeral(text: &mut String, value: u64, base: u64)
    requires
        2 <= base <= 16,
    ensures
        final(text)@ == old(text)@ + numeral(value as nat, base as nat),
{
    // The digits below the leading one, the lowest first.
    let mut low: Vec<char> = Vec::new();
    let mut rest: u64 = value;
    while rest >= base
        invariant
            2 <= base <= 16,
            numeral(value as nat, base as nat) == numeral(rest as nat, base as nat) + low@.reverse(),
        decreases rest,
    {
        let digit: char = digit_char(rest % base);
        proof {
            let ghost before = low@;
            let ghost head = numeral((rest / base) as nat, base as nat);
            assert(numeral(rest as nat, base as nat) == head.push(digit));
            assert(before.push(digit).reverse() =~= seq![digit] + before.reverse());
            assert(head.push(digit) + before.reverse() =~= head + before.push(digit).reverse());
        }
        low.push(digit);
        rest = rest / base;
    }
    push_char(text, digit_char(rest));
    let mut left: usize = low.len();
    while left > 0
        invariant
            left <= low.len(),
            rest < base,
            2 <= base <= 16,
            numeral(value as nat, base as nat) == numeral(rest as nat, base as nat) + low@.reverse(),
            text@ == old(text)@ + numeral(rest as nat, base as nat) + low@.reverse().subrange(
                0,
                low.len() - left,
            ),
        decreases left,
    {
        left -= 1;
        proof {
            let ghost turned = low@.reverse();
            let ghost done = low.len() - left - 1;
            assert(turned[done] == low@[left as int]);
            assert(turned.subrange(0, done + 1) =~= turned.subrange(0, done).push(low@[left as int]));
        }
        push_char(text, low[left]);
    }
    assert(low@.reverse().subrange(0, low.len() as int) =~= low@.reverse());
}

} // verus!
