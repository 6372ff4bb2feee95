//! What the price oracle reports, and how a price is written out.

use vstd::prelude::*;

verus! {

/// A fixed-point number: `value * 10^-decimals`.
#[derive(Clone, Copy, Debug, PartialEq, Eq)]
pub struct Decimal {
    pub value: i128,
    pub decimals: u32,
}

/// The latest answer of a price feed.
#[derive(Clone, Debug, PartialEq, Eq)]
pub struct DataFeed {
    /// The price, as an integer of `decimals` decimal places.
    pub round: i128,
    pub description: String,
    pub decimals: u8,
}

/// The character of a decimal digit.
pub open spec fn digit_char(d: int) -> char {
    if d == 0 {
        '0'
    } else if d == 1 {
        '1'
    } else if d == 2 {
        '2'
    } else if d == 3 {
        '3'
    } else if d == 4 {
        '4'
    } else if d == 5 {
        '5'
    } else if d == 6 {
        '6'
    } else if d == 7 {
        '7'
    } else if d == 8 {
        '8'
    } else {
        '9'
    }
}

/// The decimal digits of a natural number, most significant first, without
/// leading zeros.
pub open spec fn magnitude_text(n: nat) -> Seq<char>
    decreases n,
{
    if n < 10 {
        seq![digit_char(n as int)]
    } else {
        magnitude_text(n / 10).push(digit_char((n % 10) as int))
    }
}

/// An integer written out in decimal, with a minus sign if it is negative.
pub open spec fn integer_text(value: int) -> Seq<char> {
    if value < 0 {
        seq!['-'] + magnitude_text((-value) as nat)
    } else {
        magnitude_text(value as nat)
    }
}

/// `n` zeros.
pub open spec fn zeros(n: nat) -> Seq<char> {
    Seq::new(n, |i: int| '0')
}

/// A fixed-point number written out. The decimal point is put `decimals`
/// characters before the end of the integer as it is written; an integer
/// that is written with no more than `decimals` characters, its sign
/// counted, is filled up with zeros on the left and follows `0.`.
pub open spec fn decimal_text(value: int, decimals: nat) -> Seq<char> {
    let text = integer_text(value);
    if text.len() <= decimals {
        seq!['0', '.'] + zeros((decimals - text.len()) as nat) + text
    } else {
        text.subrange(0, text.len() - decimals) + seq!['.'] + text.subrange(
            text.len() - decimals,
            text.len() as int,
        )
    }
}

/// A number below `10^k` is written with at most `k` digits.
proof fn lemma_magnitude_text_len(n: nat, k: nat)
    requires
        k >= 1,
        n < crate::fixed_point::pow10(k),
    ensures
        1 <= magnitude_text(n).len() <= k,
    decreases k,
{
    reveal_with_fuel(crate::fixed_point::pow10, 2);
    if n >= 10 {
        if k == 1 {
            assert(false);
        } else {
            lemma_magnitude_text_len(n / 10, (k - 1) as nat);
        }
    }
}

/// The character of a decimal digit.
fn digit(d: u8) -> (c: char)
    requires
        d < 10,
    ensures
        c == digit_char(d as int),
{
    if d == 0 {
        '0'
    } else if d == 1 {
        '1'
    } else if d == 2 {
        '2'
    } else if d == 3 {
        '3'
    } else if d == 4 {
        '4'
    } else if d == 5 {
        '5'
    } else if d == 6 {
        '6'
    } else if d == 7 {
        '7'
    } else if d == 8 {
        '8'
    } else {
        '9'
    }
}

/// Appends the decimal digits of `n` to `text`.
fn push_magnitude(text: &mut Vec<char>, n: u128)
    ensures
        final(text)@ == old(text)@ + magnitude_text(n as nat),
    decreases n,
{
    if n >= 10 {
        push_magnitude(text, n / 10);
    }
    text.push(digit((n % 10) as u8));
}

/// An integer written out in decimal.
fn write_integer(value: i128) -> (text: Vec<char>)
    ensures
        text@ == integer_text(value as int),
        1 <= text@.len() <= 40,
{
    let mut text: Vec<char> = Vec::new();
    let n: u128 = if value < 0 {
        text.push('-');
        (-(value + 1)) as u128 + 1
    } else {
        value as u128
    };
    push_magnitude(&mut text, n);
    proof {
        crate::fixed_point::lemma_pow10_max();
        assert(crate::fixed_point::pow10(39) == 10 * crate::fixed_point::pow10(38)) by {
            reveal_with_fuel(crate::fixed_point::pow10, 2);
        }
        lemma_magnitude_text_len(n as nat, 39);
    }
    text
}

/// Calls `String::push` of the standard library. Not proved: that the string
/// then reads as it did before, followed by `c`.
#[verifier::external_body]
fn push_char(s: &mut String, c: char)
    ensures
        final(s)@ == old(s)@.push(c),
{
    s.push(c);
}

impl Decimal {
    pub fn new(value: i128, decimals: u32) -> (d: Decimal)
        ensures
            d.value == value,
            d.decimals == decimals,
    {
        Decimal { value, decimals }
    }

    /// The number written out, as [`decimal_text`] says.
    pub fn to_string(&self) -> (s: String)
        ensures
            s@ == decimal_text(self.value as int, self.decimals as nat),
    {
        let text: Vec<char> = write_integer(self.value);
        let len: usize = text.len();
        let places: usize = self.decimals as usize;
        let mut s: String = String::new();
        let mut i: usize = 0;
        if len <= places {
            push_char(&mut s, '0');
            push_char(&mut s, '.');
            let fill: usize = places - len;
            while i < fill
                invariant
                    i <= fill,
                    s@ == seq!['0', '.'] + zeros(i as nat),
                decreases fill - i,
            {
                push_char(&mut s, '0');
                i = i + 1;
                assert(s@ =~= seq!['0', '.'] + zeros(i as nat));
            }
            i = 0;
            while i < len
                invariant
                    i <= len,
                    len == text@.len(),
                    s@ == seq!['0', '.'] + zeros(fill as nat) + text@.subrange(0, i as int),
                decreases len - i,
            {
                push_char(&mut s, text[i]);
                i = i + 1;
                assert(s@ =~= seq!['0', '.'] + zeros(fill as nat) + text@.subrange(0, i as int));
            }
            assert(text@.subrange(0, len as int) =~= text@);
        } else {
            let point: usize = len - places;
            while i < point
                invariant
                    i <= point <= len,
                    len == text@.len(),
                    s@ == text@.subrange(0, i as int),
                decreases point - i,
            {
                push_char(&mut s, text[i]);
                i = i + 1;
                assert(s@ =~= text@.subrange(0, i as int));
            }
            push_char(&mut s, '.');
            while i < len
                invariant
                    point <= i <= len,
                    len == text@.len(),
                    s@ == text@.subrange(0, point as int) + seq!['.'] + text@.subrange(
                        point as int,
                        i as int,
                    ),
                decreases len - i,
            {
                push_char(&mut s, text[i]);
                i = i + 1;
                assert(s@ =~= text@.subrange(0, point as int) + seq!['.'] + text@.subrange(
                    point as int,
                    i as int,
                ));
            }
        }
        s
    }
}

} // verus!
