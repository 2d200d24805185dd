//! Decimal renderings of integers, with their specifications.

use vstd::prelude::*;

verus! {

/// `String::push` appends one character at the end of the string.
pub assume_specification[ String::push ](s: &mut String, ch: char)
    ensures
        final(s)@ == old(s)@.push(ch),
;

/// The character of a decimal digit `0..=9`.
pub open spec fn digit_char(d: int) -> char
    recommends
        0 <= d < 10,
{
    (d + 48) as char
}

/// The decimal digits of a natural number, most significant first, without
/// leading zeros ("0" for zero).
pub open spec fn nat_decimal(n: nat) -> Seq<char>
    decreases n,
{
    if n < 10 {
        seq![digit_char(n as int)]
    } else {
        nat_decimal(n / 10).push(digit_char((n % 10) as int))
    }
}

/// The decimal rendering of an integer, with a leading '-' for negative values.
pub open spec fn int_decimal(n: int) -> Seq<char> {
    if n < 0 {
        seq!['-'] + nat_decimal((-n) as nat)
    } else {
        nat_decimal(n as nat)
    }
}

/// The number that a string of decimal digits denotes.
pub open spec fn decimal_value(s: Seq<char>) -> int
    decreases s.len(),
{
    if s.len() == 0 {
        0
    } else {
        decimal_value(s.drop_last()) * 10 + (s.last() as int - 48)
    }
}

/// Whether every character of a string is a decimal digit `0`-`9`.
pub open spec fn all_digits(s: Seq<char>) -> bool {
    forall|i: int| 0 <= i < s.len() ==> 48 <= #[trigger] s[i] as int <= 57
}

/// The decimal rendering of a natural number is a non-empty string of
/// digits, without a leading zero unless it is "0", that reads back as the
/// number.
pub proof fn lemma_nat_decimal_reads_back(n: nat)
    ensures
        nat_decimal(n).len() >= 1,
        all_digits(nat_decimal(n)),
        decimal_value(nat_decimal(n)) == n,
        nat_decimal(n).len() > 1 ==> nat_decimal(n)[0] != '0',
        n < 10 <==> nat_decimal(n).len() == 1,
    decreases n,
{
    if n < 10 {
        let s = nat_decimal(n);
        assert(s[0] as int == n + 48);
        assert(s.drop_last() =~= Seq::<char>::empty());
        assert(decimal_value(s) == decimal_value(s.drop_last()) * 10 + (s.last() as int - 48));
        assert(decimal_value(s.drop_last()) == 0);
    } else {
        let q = n / 10;
        lemma_nat_decimal_reads_back(q);
        let s = nat_decimal(n);
        let d = digit_char((n % 10) as int);
        assert(d as int == n % 10 + 48);
        assert(s == nat_decimal(q).push(d));
        assert(s.drop_last() =~= nat_decimal(q));
        assert(s[0] == nat_decimal(q)[0]);
        assert(s.last() == d);
        assert(decimal_value(s) == decimal_value(s.drop_last()) * 10 + (s.last() as int - 48));
        assert(n == q * 10 + n % 10);
    }
}

/// The decimal rendering of an integer is that of its magnitude, preceded by
/// '-' exactly when the integer is negative.
pub proof fn lemma_int_decimal_reads_back(n: int)
    ensures
        n < 0 ==> int_decimal(n)[0] == '-' && all_digits(int_decimal(n).skip(1)) && decimal_value(
            int_decimal(n).skip(1),
        ) == -n && int_decimal(n).len() >= 2,
        n >= 0 ==> all_digits(int_decimal(n)) && decimal_value(int_decimal(n)) == n,
{
    if n < 0 {
        lemma_nat_decimal_reads_back((-n) as nat);
        assert(int_decimal(n).skip(1) =~= nat_decimal((-n) as nat));
    } else {
        lemma_nat_decimal_reads_back(n as nat);
    }
}

fn digit(d: u64) -> (c: char)
    requires
        d < 10,
    ensures
        c == digit_char(d as int),
{
    let b: u8 = d as u8;
    (b + 48) as char
}

fn push_decimal(out: &mut String, n: u64)
    ensures
        final(out)@ == old(out)@ + nat_decimal(n as nat),
    decreases n,
{
    if n >= 10 {
        push_decimal(out, n / 10);
    }
    out.push(digit(n % 10));
}

/// Renders a signed integer in decimal, as `format!("{}", n)` does.
pub fn i64_to_decimal(n: i64) -> (s: String)
    ensures
        s@ == int_decimal(n as int),
{
    let mut s = String::new();
    if n < 0 {
        s.push('-');
        let magnitude: u64 = (-(n + 1)) as u64 + 1;
        push_decimal(&mut s, magnitude);
    } else {
        push_decimal(&mut s, n as u64);
    }
    s
}

/// Renders an unsigned count in decimal, as `format!("{}", n)` does.
pub fn usize_to_decimal(n: usize) -> (s: String)
    ensures
        s@ == nat_decimal(n as nat),
{
    let mut s = String::new();
    push_decimal(&mut s, n as u64);
    s
}

} // verus!
