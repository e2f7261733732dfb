//! Small display-string builders: decimal rendering and zero padding, used
//! for song lengths, years and settings fields.

use vstd::prelude::*;

verus! {

/// The character for one decimal digit.
pub open spec fn digit_char(d: nat) -> char
    recommends
        d < 10,
{
    ((d + 48) as u8) as char
}

/// Decimal representation of a natural number, most significant digit first.
pub open spec fn dec_digits(n: nat) -> Seq<char>
    decreases n,
{
    if n < 10 {
        seq![digit_char(n)]
    } else {
        dec_digits(n / 10).push(digit_char(n % 10))
    }
}

/// Decimal representation padded with zeroes on the left to at least `w`
/// characters.
pub open spec fn dec_padded(n: nat, w: nat) -> Seq<char>
    decreases w,
{
    let d = dec_digits(n);
    if d.len() >= w {
        d
    } else {
        seq!['0'].add(dec_padded(n, (w - 1) as nat))
    }
}

/// Relies on String::push: appends one character at the end.
#[verifier::external_body]
pub(crate) fn push_char(s: &mut String, c: char)
    ensures
        final(s)@ == old(s)@.push(c),
{
    s.push(c)
}

fn digit_to_char(d: u64) -> (c: char)
    requires
        d < 10,
    ensures
        c == digit_char(d as nat),
{
    (48 + d as u8) as char
}

/// Appends the decimal representation of `n`.
pub fn push_decimal(s: &mut String, n: u64)
    ensures
        final(s)@ == old(s)@ + dec_digits(n as nat),
    decreases n,
{
    if n < 10 {
        push_char(s, digit_to_char(n));
        assert(s@ =~= old(s)@ + dec_digits(n as nat));
    } else {
        assert(n / 10 < n) by (nonlinear_arith)
            requires
                n >= 10,
        ;
        push_decimal(s, n / 10);
        push_char(s, digit_to_char(n % 10));
        assert(s@ =~= old(s)@ + dec_digits(n as nat));
    }
}

/// The number of decimal digits of `n`.
spec fn dec_len(n: nat) -> nat
    decreases n,
{
    if n < 10 {
        1
    } else {
        1 + dec_len(n / 10)
    }
}

proof fn lemma_dec_digits_len(n: nat)
    ensures
        dec_digits(n).len() == dec_len(n),
    decreases n,
{
    if n >= 10 {
        lemma_dec_digits_len(n / 10);
    }
}

/// Appends the decimal representation of `n`, left-padded with zeroes to at
/// least two characters.
pub fn push_padded2(s: &mut String, n: u64)
    ensures
        final(s)@ == old(s)@ + dec_padded(n as nat, 2),
{
    proof {
        lemma_dec_digits_len(n as nat);
    }
    if n < 10 {
        push_char(s, '0');
        push_decimal(s, n);
        proof {
            assert(dec_padded(n as nat, 1) == dec_digits(n as nat));
            assert(dec_padded(n as nat, 2) == seq!['0'].add(dec_digits(n as nat)));
        }
        assert(s@ =~= old(s)@ + dec_padded(n as nat, 2));
    } else {
        proof {
            assert(dec_len(n as nat) == 1 + dec_len(n as nat / 10));
            assert(dec_digits(n as nat).len() >= 2);
            assert(dec_padded(n as nat, 2) == dec_digits(n as nat));
        }
        push_decimal(s, n);
    }
}

/// Appends the decimal representation of `n`, left-padded with zeroes to at
/// least three characters.
pub fn push_padded3(s: &mut String, n: u64)
    ensures
        final(s)@ == old(s)@ + dec_padded(n as nat, 3),
{
    proof {
        lemma_dec_digits_len(n as nat);
    }
    if n < 10 {
        push_char(s, '0');
        push_char(s, '0');
        push_decimal(s, n);
        proof {
            assert(dec_padded(n as nat, 1) == dec_digits(n as nat));
            assert(dec_padded(n as nat, 2) == seq!['0'].add(dec_digits(n as nat)));
            assert(dec_padded(n as nat, 3) == seq!['0'].add(
                seq!['0'].add(dec_digits(n as nat)),
            ));
        }
        assert(s@ =~= old(s)@ + dec_padded(n as nat, 3));
    } else if n < 100 {
        push_char(s, '0');
        push_decimal(s, n);
        proof {
            assert(dec_len(n as nat) == 1 + dec_len(n as nat / 10));
            assert(dec_digits(n as nat).len() == 2);
            assert(dec_padded(n as nat, 2) == dec_digits(n as nat));
            assert(dec_padded(n as nat, 3) == seq!['0'].add(dec_digits(n as nat)));
        }
        assert(s@ =~= old(s)@ + dec_padded(n as nat, 3));
    } else {
        proof {
            assert(dec_len(n as nat) == 1 + dec_len(n as nat / 10));
            assert(n as nat / 10 >= 10);
            assert(dec_len(n as nat / 10) == 1 + dec_len(n as nat / 10 / 10));
            assert(dec_digits(n as nat).len() >= 3);
            assert(dec_padded(n as nat, 3) == dec_digits(n as nat));
        }
        push_decimal(s, n);
    }
}

} // verus!
