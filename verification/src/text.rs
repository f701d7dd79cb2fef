//! Rendering of unsigned integers as text: lower-case hexadecimal and decimal.
use vstd::prelude::*;
use vstd::string::*;

verus! {

/// The text of one digit, for digits below sixteen (lower-case letters above nine).
pub open spec fn digit_text(d: nat) -> Seq<char> {
    if d == 0 { "0"@ }
    else if d == 1 { "1"@ }
    else if d == 2 { "2"@ }
    else if d == 3 { "3"@ }
    else if d == 4 { "4"@ }
    else if d == 5 { "5"@ }
    else if d == 6 { "6"@ }
    else if d == 7 { "7"@ }
    else if d == 8 { "8"@ }
    else if d == 9 { "9"@ }
    else if d == 10 { "a"@ }
    else if d == 11 { "b"@ }
    else if d == 12 { "c"@ }
    else if d == 13 { "d"@ }
    else if d == 14 { "e"@ }
    else { "f"@ }
}

/// `n` written in lower-case hexadecimal, without prefix or leading zeros.
pub open spec fn hex_text(n: nat) -> Seq<char>
    decreases n,
{
    if n < 16 {
        digit_text(n)
    } else {
        hex_text(n / 16) + digit_text(n % 16)
    }
}

/// `n` written in decimal, without leading zeros.
pub open spec fn decimal_text(n: nat) -> Seq<char>
    decreases n,
{
    if n < 10 {
        digit_text(n)
    } else {
        decimal_text(n / 10) + digit_text(n % 10)
    }
}

/// The value of a lower-case hexadecimal digit; -1 for any other character.
pub open spec fn hex_digit_value(c: char) -> int {
    match c {
        '0' => 0,
        '1' => 1,
        '2' => 2,
        '3' => 3,
        '4' => 4,
        '5' => 5,
        '6' => 6,
        '7' => 7,
        '8' => 8,
        '9' => 9,
        'a' => 10,
        'b' => 11,
        'c' => 12,
        'd' => 13,
        'e' => 14,
        'f' => 15,
        _ => -1,
    }
}

/// The value of a decimal digit; -1 for any other character.
pub open spec fn decimal_digit_value(c: char) -> int {
    let v = hex_digit_value(c);
    if 0 <= v < 10 { v } else { -1 }
}

/// The number that a text of hexadecimal digits reads as.
pub open spec fn hex_value(s: Seq<char>) -> int
    decreases s.len(),
{
    if s.len() == 0 {
        0
    } else {
        hex_value(s.drop_last()) * 16 + hex_digit_value(s.last())
    }
}

/// The number that a text of decimal digits reads as.
pub open spec fn decimal_value(s: Seq<char>) -> int
    decreases s.len(),
{
    if s.len() == 0 {
        0
    } else {
        decimal_value(s.drop_last()) * 10 + decimal_digit_value(s.last())
    }
}

/// Every character is a lower-case hexadecimal digit.
pub open spec fn all_hex_digits(s: Seq<char>) -> bool {
    forall|i: int| 0 <= i < s.len() ==> 0 <= #[trigger] hex_digit_value(s[i]) < 16
}

/// Every character is a decimal digit.
pub open spec fn all_decimal_digits(s: Seq<char>) -> bool {
    forall|i: int| 0 <= i < s.len() ==> 0 <= #[trigger] decimal_digit_value(s[i]) < 10
}

/// The text of digit `d` is one character, whose value is `d`.
pub proof fn lemma_digit_text(d: nat)
    requires
        d < 16,
    ensures
        digit_text(d).len() == 1,
        hex_digit_value(digit_text(d)[0]) == d,
        d < 10 ==> decimal_digit_value(digit_text(d)[0]) == d,
{
    reveal_strlit("0");
    reveal_strlit("1");
    reveal_strlit("2");
    reveal_strlit("3");
    reveal_strlit("4");
    reveal_strlit("5");
    reveal_strlit("6");
    reveal_strlit("7");
    reveal_strlit("8");
    reveal_strlit("9");
    reveal_strlit("a");
    reveal_strlit("b");
    reveal_strlit("c");
    reveal_strlit("d");
    reveal_strlit("e");
    reveal_strlit("f");
}

/// The hexadecimal text of `n` is a non-empty run of hexadecimal digits that
/// reads back as `n`, without a leading zero unless `n` is zero.
pub proof fn lemma_hex_text_reads_back(n: nat)
    ensures
        hex_text(n).len() >= 1,
        all_hex_digits(hex_text(n)),
        hex_value(hex_text(n)) == n,
        n > 0 ==> hex_digit_value(hex_text(n)[0]) != 0,
    decreases n,
{
    lemma_digit_text(n % 16);
    if n < 16 {
        let t = hex_text(n);
        assert(t.drop_last() =~= Seq::<char>::empty());
        assert(hex_value(t.drop_last()) == 0);
        assert(t.last() == t[0]);
        assert(n % 16 == n);
    } else {
        lemma_hex_text_reads_back(n / 16);
        let h = hex_text(n / 16);
        let t = hex_text(n);
        assert(t.drop_last() =~= h);
        assert(t.last() == digit_text(n % 16)[0]);
        assert(t[0] == h[0]);
        assert(hex_value(t) == hex_value(h) * 16 + hex_digit_value(t.last()));
        assert(n == (n / 16) * 16 + n % 16) by (nonlinear_arith);
    }
}

/// The decimal text of `n` is a non-empty run of decimal digits that reads back
/// as `n`, without a leading zero unless `n` is zero.
pub proof fn lemma_decimal_text_reads_back(n: nat)
    ensures
        decimal_text(n).len() >= 1,
        all_decimal_digits(decimal_text(n)),
        decimal_value(decimal_text(n)) == n,
        n > 0 ==> decimal_digit_value(decimal_text(n)[0]) != 0,
    decreases n,
{
    lemma_digit_text(n % 10);
    if n < 10 {
        let t = decimal_text(n);
        assert(t.drop_last() =~= Seq::<char>::empty());
        assert(decimal_value(t.drop_last()) == 0);
        assert(t.last() == t[0]);
        assert(n % 10 == n);
    } else {
        lemma_decimal_text_reads_back(n / 10);
        let h = decimal_text(n / 10);
        let t = decimal_text(n);
        assert(t.drop_last() =~= h);
        assert(t.last() == digit_text(n % 10)[0]);
        assert(t[0] == h[0]);
        assert(decimal_value(t) == decimal_value(h) * 10 + decimal_digit_value(t.last()));
        assert(n == (n / 10) * 10 + n % 10) by (nonlinear_arith);
    }
}

fn digit_str(d: u64) -> (s: &'static str)
    requires
        d < 16,
    ensures
        s@ == digit_text(d as nat),
{
    if d == 0 { "0" }
    else if d == 1 { "1" }
    else if d == 2 { "2" }
    else if d == 3 { "3" }
    else if d == 4 { "4" }
    else if d == 5 { "5" }
    else if d == 6 { "6" }
    else if d == 7 { "7" }
    else if d == 8 { "8" }
    else if d == 9 { "9" }
    else if d == 10 { "a" }
    else if d == 11 { "b" }
    else if d == 12 { "c" }
    else if d == 13 { "d" }
    else if d == 14 { "e" }
    else { "f" }
}

/// Appends `n` in lower-case hexadecimal to `out`.
pub fn push_hex(out: &mut String, n: u64)
    ensures
        final(out)@ == old(out)@ + hex_text(n as nat),
        all_hex_digits(final(out)@.skip(old(out)@.len() as int)),
        hex_value(final(out)@.skip(old(out)@.len() as int)) == n,
    decreases n,
{
    proof {
        lemma_hex_text_reads_back(n as nat);
    }
    if n >= 16 {
        push_hex(out, n / 16);
    }
    out.append(digit_str(n % 16));
    assert(out@.skip(old(out)@.len() as int) =~= hex_text(n as nat));
}

/// Appends `n` in decimal to `out`.
pub fn push_decimal(out: &mut String, n: u64)
    ensures
        final(out)@ == old(out)@ + decimal_text(n as nat),
        all_decimal_digits(final(out)@.skip(old(out)@.len() as int)),
        decimal_value(final(out)@.skip(old(out)@.len() as int)) == n,
    decreases n,
{
    proof {
        lemma_decimal_text_reads_back(n as nat);
    }
    if n >= 10 {
        push_decimal(out, n / 10);
    }
    out.append(digit_str(n % 10));
    assert(out@.skip(old(out)@.len() as int) =~= decimal_text(n as nat));
}

} // verus!
