//! Textual renderings of an [`UberByte`] in the usual radixes.
//!
//! Each rendering reflects only the numeric value: the natural radix
//! conversion with no leading zero-padding, exactly as a bare unsigned byte
//! would be printed.

use vstd::prelude::*;
use vstd::string::StringExecFns;

use crate::UberByte;

verus! {

/// The digits of `v` in radix `base`, most significant first.
///
/// A value below the base renders as its single digit, so zero renders as
/// the one digit 0; bases below 2 have no digit sequence.
pub open spec fn radix_digits(v: nat, base: nat) -> Seq<nat>
    decreases v,
        via radix_digits_decreases
{
    if base < 2 {
        Seq::empty()
    } else if v < base {
        seq![v]
    } else {
        radix_digits(v / base, base).push(v % base)
    }
}

#[via_fn]
proof fn radix_digits_decreases(v: nat, base: nat) {
    if base >= 2 && v >= base {
        vstd::arithmetic::div_mod::lemma_div_decreases(v as int, base as int);
    }
}

/// The character for one digit value: 0 to 9, then a to f, in the chosen
/// case.
pub open spec fn digit_char(d: nat, upper: bool) -> char {
    if d == 0 {
        '0'
    } else if d == 1 {
        '1'
    } else if d == 2 {
        '2'
    } else if d == 3 {
        '3'
    } else if d == 4 {
        '4'
    } else if d == 5 {
        '5'
    } else if d == 6 {
        '6'
    } else if d == 7 {
        '7'
    } else if d == 8 {
        '8'
    } else if d == 9 {
        '9'
    } else if d == 10 {
        if upper { 'A' } else { 'a' }
    } else if d == 11 {
        if upper { 'B' } else { 'b' }
    } else if d == 12 {
        if upper { 'C' } else { 'c' }
    } else if d == 13 {
        if upper { 'D' } else { 'd' }
    } else if d == 14 {
        if upper { 'E' } else { 'e' }
    } else if d == 15 {
        if upper { 'F' } else { 'f' }
    } else {
        '?'
    }
}

/// The rendering of `v` in radix `base`: its digits, most significant
/// first, each as a character.
pub open spec fn radix_chars(v: nat, base: nat, upper: bool) -> Seq<char> {
    radix_digits(v, base).map(|i: int, d: nat| digit_char(d, upper))
}

/// The one-character string for one digit value.
fn digit_str(d: u8, upper: bool) -> (r: &'static str)
    requires
        d < 16,
    ensures
        r@ == seq![digit_char(d as nat, upper)],
{
    proof {
        reveal_strlit("0");
        reveal_strlit("1");
        reveal_strlit("2");
        reveal_strlit("3");
        reveal_strlit("4");
        reveal_strlit("5");
        reveal_strlit("6");
        reveal_strlit("7");
        reveal_strlit("8");
        reveal_strlit("9");
        reveal_strlit("a");
        reveal_strlit("b");
        reveal_strlit("c");
        reveal_strlit("d");
        reveal_strlit("e");
        reveal_strlit("f");
        reveal_strlit("A");
        reveal_strlit("B");
        reveal_strlit("C");
        reveal_strlit("D");
        reveal_strlit("E");
        reveal_strlit("F");
    }
    let r: &'static str = match d {
        0 => "0",
        1 => "1",
        2 => "2",
        3 => "3",
        4 => "4",
        5 => "5",
        6 => "6",
        7 => "7",
        8 => "8",
        9 => "9",
        10 => if upper { "A" } else { "a" },
        11 => if upper { "B" } else { "b" },
        12 => if upper { "C" } else { "c" },
        13 => if upper { "D" } else { "d" },
        14 => if upper { "E" } else { "e" },
        _ => if upper { "F" } else { "f" },
    };
    proof {
        assert(r@ =~= seq![digit_char(d as nat, upper)]);
    }
    r
}

/// Renders `v` in radix `base` by peeling digits off the low end and
/// prepending them, so the most significant digit comes first.
fn radix_string(v: u8, base: u8, upper: bool) -> (r: String)
    requires
        2 <= base <= 16,
    ensures
        r@ == radix_chars(v as nat, base as nat, upper),
{
    let ghost to_char = |i: int, d: nat| digit_char(d, upper);
    let mut n: u8 = v;
    let mut acc: String = String::new();
    let ghost mut acc_digits: Seq<nat> = Seq::empty();
    proof {
        assert(acc@ =~= acc_digits.map(to_char));
    }
    while n >= base
        invariant
            2 <= base <= 16,
            radix_digits(v as nat, base as nat) == radix_digits(n as nat, base as nat)
                + acc_digits,
            acc@ == acc_digits.map(to_char),
            to_char == (|i: int, d: nat| digit_char(d, upper)),
        decreases n,
    {
        let d = n % base;
        let digit = digit_str(d, upper);
        proof {
            let sn = n as nat;
            let sb = base as nat;
            vstd::arithmetic::div_mod::lemma_div_decreases(sn as int, sb as int);
            assert(radix_digits(sn / sb, sb).push(sn % sb) =~= radix_digits(sn / sb, sb)
                + seq![sn % sb]);
            assert((radix_digits(sn / sb, sb) + seq![sn % sb]) + acc_digits
                =~= radix_digits(sn / sb, sb) + (seq![sn % sb] + acc_digits));
            assert((seq![sn % sb] + acc_digits).map(to_char) =~= seq![digit_char(sn % sb, upper)]
                + acc_digits.map(to_char));
            acc_digits = seq![sn % sb] + acc_digits;
        }
        acc = digit.to_owned().concat(acc.as_str());
        n = n / base;
    }
    let digit = digit_str(n, upper);
    let r = digit.to_owned().concat(acc.as_str());
    proof {
        let sn = n as nat;
        let sb = base as nat;
        assert(radix_digits(sn, sb) =~= seq![sn]);
        assert((seq![sn] + acc_digits).map(to_char) =~= seq![digit_char(sn, upper)]
            + acc_digits.map(to_char));
    }
    r
}

impl UberByte {
    /// Renders the byte in binary: base 2, no prefix, no leading zeroes.
    pub fn to_binary_string(&self) -> (r: String)
        ensures
            r@ == radix_chars(self.value as nat, 2, false),
    {
        radix_string(self.value, 2, false)
    }

    /// Renders the byte in octal: base 8, no prefix, no leading zeroes.
    pub fn to_octal_string(&self) -> (r: String)
        ensures
            r@ == radix_chars(self.value as nat, 8, false),
    {
        radix_string(self.value, 8, false)
    }

    /// Renders the byte in decimal: base 10, no leading zeroes.
    pub fn to_decimal_string(&self) -> (r: String)
        ensures
            r@ == radix_chars(self.value as nat, 10, false),
    {
        radix_string(self.value, 10, false)
    }

    /// Renders the byte in lower-case hexadecimal: base 16, no prefix, no
    /// leading zeroes.
    pub fn to_lower_hex_string(&self) -> (r: String)
        ensures
            r@ == radix_chars(self.value as nat, 16, false),
    {
        radix_string(self.value, 16, false)
    }

    /// Renders the byte in upper-case hexadecimal: base 16, no prefix, no
    /// leading zeroes.
    pub fn to_upper_hex_string(&self) -> (r: String)
        ensures
            r@ == radix_chars(self.value as nat, 16, true),
    {
        radix_string(self.value, 16, true)
    }
}

} // verus!
