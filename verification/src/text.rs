//! Decimal rendering of numbers and small string helpers.

use vstd::prelude::*;

verus! {

/// `String::push` appends one character at the end of the string.
pub assume_specification[ String::push ](s: &mut String, ch: char)
    ensures
        final(s)@ == old(s)@.push(ch),
;

/// The ASCII digit for `d`, which is below ten.
pub open spec fn digit_char(d: nat) -> char {
    if d == 0 { '0' }
    else if d == 1 { '1' }
    else if d == 2 { '2' }
    else if d == 3 { '3' }
    else if d == 4 { '4' }
    else if d == 5 { '5' }
    else if d == 6 { '6' }
    else if d == 7 { '7' }
    else if d == 8 { '8' }
    else { '9' }
}

/// The decimal digits of `n`, with leading zeros up to `width` characters.
pub open spec fn padded_decimal(n: nat, width: nat) -> Seq<char>
    decreases n, width,
{
    if n < 10 && width <= 1 {
        seq![digit_char(n)]
    } else {
        padded_decimal(n / 10, if width == 0 { 0 } else { (width - 1) as nat }).push(digit_char(n % 10))
    }
}

/// The decimal digits of `n`, without leading zeros.
pub open spec fn decimal(n: nat) -> Seq<char> {
    padded_decimal(n, 0)
}

fn digit(d: u64) -> (c: char)
    requires
        d < 10,
    ensures
        c == digit_char(d as nat),
{
    if d == 0 { '0' }
    else if d == 1 { '1' }
    else if d == 2 { '2' }
    else if d == 3 { '3' }
    else if d == 4 { '4' }
    else if d == 5 { '5' }
    else if d == 6 { '6' }
    else if d == 7 { '7' }
    else if d == 8 { '8' }
    else { '9' }
}

/// Appends the decimal digits of `n`, padded with zeros to `width` characters.
pub fn push_padded_decimal(s: &mut String, n: u64, width: u64)
    ensures
        final(s)@ == old(s)@ + padded_decimal(n as nat, width as nat),
    decreases n, width,
{
    if n < 10 && width <= 1 {
        s.push(digit(n));
    } else {
        let w: u64 = if width == 0 { 0 } else { width - 1 };
        push_padded_decimal(s, n / 10, w);
        s.push(digit(n % 10));
    }
}

/// The number that a string of decimal digits denotes.
pub open spec fn digits_value(s: Seq<char>) -> int
    decreases s.len(),
{
    if s.len() == 0 {
        0
    } else {
        digits_value(s.drop_last()) * 10 + (s.last() as int - '0' as int)
    }
}

/// `padded_decimal(n, width)` writes `n` in decimal: only digits, denoting
/// `n`, at least `width` of them (and at least one), and no leading zero
/// beyond what `width` asks for.
pub proof fn lemma_padded_decimal_denotes(n: nat, width: nat)
    ensures
        digits_value(padded_decimal(n, width)) == n,
        forall|i: int| 0 <= i < padded_decimal(n, width).len()
            ==> '0' <= #[trigger] padded_decimal(n, width)[i] <= '9',
        padded_decimal(n, width).len() >= width,
        padded_decimal(n, width).len() >= 1,
        padded_decimal(n, width).len() > width && padded_decimal(n, width).len() > 1
            ==> padded_decimal(n, width)[0] != '0',
    decreases n, width,
{
    let s = padded_decimal(n, width);
    if n < 10 && width <= 1 {
        assert(s == seq![digit_char(n)]);
        assert(s.drop_last() =~= Seq::<char>::empty());
        assert(digits_value(s.drop_last()) == 0);
        assert(digit_char(n) as int - '0' as int == n as int);
    } else {
        let w: nat = if width == 0 { 0 } else { (width - 1) as nat };
        lemma_padded_decimal_denotes(n / 10, w);
        let p = padded_decimal(n / 10, w);
        assert(s == p.push(digit_char(n % 10)));
        assert(s.drop_last() =~= p);
        assert(digit_char(n % 10) as int - '0' as int == (n % 10) as int);
        assert((n / 10) * 10 + n % 10 == n) by (nonlinear_arith);
        assert forall|i: int| 0 <= i < s.len() implies '0' <= #[trigger] s[i] <= '9' by {
            if i < p.len() {
                assert(s[i] == p[i]);
            }
        }
        if s.len() > width && s.len() > 1 {
            assert(s[0] == p[0]);
            if p.len() == 1 {
                assert(w == 0);
                assert(width <= 1);
                assert(n >= 10);
                if n / 10 >= 10 {
                    lemma_padded_decimal_denotes(n / 100, 0);
                    assert(n / 10 / 10 == n / 100);
                    assert(p == padded_decimal(n / 100, 0).push(digit_char((n / 10) % 10)));
                    assert(false);
                }
                assert(p == seq![digit_char(n / 10)]);
            }
        }
    }
}

} // verus!
