//! Building ANSI/VT100 escape strings: decimal rendering of numbers and
//! the 24-bit color sequences, without a formatter.

use vstd::prelude::*;

verus! {

/// Relies on std's `String::push`: appends the given character to the end
/// of the string.
pub assume_specification[ String::push ](s: &mut String, c: char)
    ensures
        final(s)@ == old(s)@.push(c),
;

/// The character for one decimal digit.
pub open spec fn digit_char(d: int) -> char {
    if d == 0 {
        '0'
    } else if d == 1 {
        '1'
    } else if d == 2 {
        '2'
    } else if d == 3 {
        '3'
    } else if d == 4 {
        '4'
    } else if d == 5 {
        '5'
    } else if d == 6 {
        '6'
    } else if d == 7 {
        '7'
    } else if d == 8 {
        '8'
    } else {
        '9'
    }
}

/// The decimal representation of `n`, most significant digit first, with
/// no leading zeros (`0` itself is the single character `'0'`).
pub open spec fn dec_rep(n: nat) -> Seq<char>
    decreases n,
{
    if n < 10 {
        seq![digit_char(n as int)]
    } else {
        dec_rep(n / 10).push(digit_char((n % 10) as int))
    }
}

/// Ten to the power `k`.
pub open spec fn pow10(k: nat) -> nat
    decreases k,
{
    if k == 0 {
        1
    } else {
        10 * pow10((k - 1) as nat)
    }
}

/// A number below `10^k` has at most `k` decimal digits.
pub proof fn lemma_dec_rep_len(n: nat, k: nat)
    requires
        k >= 1,
        n < pow10(k),
    ensures
        dec_rep(n).len() <= k,
    decreases k,
{
    if n < 10 {
    } else {
        assert(pow10(k) == 10 * pow10((k - 1) as nat));
        lemma_dec_rep_len(n / 10, (k - 1) as nat);
    }
}

/// Every `usize` has at most twenty decimal digits.
pub proof fn lemma_dec_rep_len_usize(n: usize)
    ensures
        1 <= dec_rep(n as nat).len() <= 20,
{
    reveal_with_fuel(pow10, 21);
    assert(pow10(20) == 100000000000000000000);
    lemma_dec_rep_len(n as nat, 20);
}

/// Appends the decimal digit `d` as a character.
fn push_digit(s: &mut String, d: u8)
    requires
        d < 10,
    ensures
        final(s)@ == old(s)@.push(digit_char(d as int)),
{
    let c: char = if d == 0 {
        '0'
    } else if d == 1 {
        '1'
    } else if d == 2 {
        '2'
    } else if d == 3 {
        '3'
    } else if d == 4 {
        '4'
    } else if d == 5 {
        '5'
    } else if d == 6 {
        '6'
    } else if d == 7 {
        '7'
    } else if d == 8 {
        '8'
    } else {
        '9'
    };
    s.push(c);
}

/// Appends the decimal representation of `n`.
pub fn push_decimal(s: &mut String, n: usize)
    ensures
        final(s)@ == old(s)@ + dec_rep(n as nat),
    decreases n,
{
    if n >= 10 {
        push_decimal(s, n / 10);
        push_digit(s, (n % 10) as u8);
        proof {
            assert(final(s)@ =~= old(s)@ + dec_rep(n as nat));
        }
    } else {
        push_digit(s, n as u8);
        proof {
            assert(final(s)@ =~= old(s)@ + dec_rep(n as nat));
        }
    }
}

/// The number of decimal digits of `n`.
pub fn decimal_width(n: usize) -> (w: usize)
    ensures
        w == dec_rep(n as nat).len(),
        1 <= w <= 20,
{
    proof {
        lemma_dec_rep_len_usize(n);
    }
    let mut w: usize = 1;
    let mut m: usize = n;
    while m >= 10
        invariant
            w >= 1,
            w - 1 + dec_rep(m as nat).len() == dec_rep(n as nat).len(),
            dec_rep(n as nat).len() <= 20,
        decreases m,
    {
        m = m / 10;
        w = w + 1;
    }
    w
}

/// The escape sequence selecting a 24-bit background color.
pub open spec fn bg_color_seq(r: u8, g: u8, b: u8) -> Seq<char> {
    seq!['\x1b', '[', '4', '8', ';', '2', ';'] + dec_rep(r as nat) + seq![';'] + dec_rep(
        g as nat,
    ) + seq![';'] + dec_rep(b as nat) + seq!['m']
}

/// The escape sequence selecting a 24-bit foreground color.
pub open spec fn fg_color_seq(r: u8, g: u8, b: u8) -> Seq<char> {
    seq!['\x1b', '[', '3', '8', ';', '2', ';'] + dec_rep(r as nat) + seq![';'] + dec_rep(
        g as nat,
    ) + seq![';'] + dec_rep(b as nat) + seq!['m']
}

/// Builds the background-color escape sequence for the given RGB value.
pub fn bg_color(r: u8, g: u8, b: u8) -> (s: String)
    ensures
        s@ == bg_color_seq(r, g, b),
{
    let mut s = String::new();
    s.append("\x1b[48;2;");
    proof {
        reveal_strlit("\x1b[48;2;");
        assert(s@ =~= seq!['\x1b', '[', '4', '8', ';', '2', ';']);
    }
    push_decimal(&mut s, r as usize);
    s.push(';');
    push_decimal(&mut s, g as usize);
    s.push(';');
    push_decimal(&mut s, b as usize);
    s.push('m');
    proof {
        assert(s@ =~= bg_color_seq(r, g, b));
    }
    s
}

/// Builds the foreground-color escape sequence for the given RGB value.
pub fn fg_color(r: u8, g: u8, b: u8) -> (s: String)
    ensures
        s@ == fg_color_seq(r, g, b),
{
    let mut s = String::new();
    s.append("\x1b[38;2;");
    proof {
        reveal_strlit("\x1b[38;2;");
        assert(s@ =~= seq!['\x1b', '[', '3', '8', ';', '2', ';']);
    }
    push_decimal(&mut s, r as usize);
    s.push(';');
    push_decimal(&mut s, g as usize);
    s.push(';');
    push_decimal(&mut s, b as usize);
    s.push('m');
    proof {
        assert(s@ =~= fg_color_seq(r, g, b));
    }
    s
}

} // verus!
