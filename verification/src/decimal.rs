use vstd::prelude::*;

verus! {

/// The character of a decimal digit.
pub open spec fn digit_char(d: int) -> char {
    if d == 0 { '0' }
    else if d == 1 { '1' }
    else if d == 2 { '2' }
    else if d == 3 { '3' }
    else if d == 4 { '4' }
    else if d == 5 { '5' }
    else if d == 6 { '6' }
    else if d == 7 { '7' }
    else if d == 8 { '8' }
    else { '9' }
}

/// Decimal digits of a natural number, most significant first, without leading zeros.
pub open spec fn spec_digits(n: nat) -> Seq<char>
    decreases n,
{
    if n < 10 {
        seq![digit_char(n as int)]
    } else {
        spec_digits(n / 10).push(digit_char((n % 10) as int))
    }
}

/// Decimal representation of an integer, with a leading '-' when negative.
pub open spec fn spec_decimal(n: int) -> Seq<char> {
    if n < 0 {
        seq!['-'] + spec_digits((-n) as nat)
    } else {
        spec_digits(n as nat)
    }
}

/// A character is a decimal digit ('0' to '9').
pub open spec fn is_digit(c: char) -> bool {
    48 <= (c as int) && (c as int) <= 57
}

/// The value of a digit character.
pub open spec fn digit_value(c: char) -> int {
    (c as int) - 48
}

/// The value of a text of digits read in base ten, most significant first.
pub open spec fn text_value(s: Seq<char>) -> int
    decreases s.len(),
{
    if s.len() == 0 {
        0
    } else {
        text_value(s.drop_last()) * 10 + digit_value(s.last())
    }
}

/// `s` is the canonical decimal text of the natural number `n`: non-empty,
/// digits only, worth `n` in base ten, and without a leading zero unless it is
/// the single digit "0".
pub open spec fn reads_as_natural(s: Seq<char>, n: int) -> bool {
    &&& s.len() >= 1
    &&& forall|i: int| 0 <= i < s.len() ==> is_digit(#[trigger] s[i])
    &&& text_value(s) == n
    &&& (s[0] == '0' ==> s.len() == 1)
}

proof fn lemma_digit_char(d: int)
    requires
        0 <= d < 10,
    ensures
        is_digit(digit_char(d)),
        digit_value(digit_char(d)) == d,
        (digit_char(d) == '0') == (d == 0),
{
}

/// The digits of a natural number read back as that number.
pub proof fn lemma_digits_read_back(n: nat)
    ensures
        reads_as_natural(spec_digits(n), n as int),
    decreases n,
{
    let s = spec_digits(n);
    if n < 10 {
        lemma_digit_char(n as int);
        assert(s.drop_last() =~= Seq::<char>::empty());
        assert(text_value(s.drop_last()) == 0);
        assert(s.last() == digit_char(n as int));
        assert(text_value(s) == n);
    } else {
        let q = (n / 10) as nat;
        let r = (n % 10) as int;
        lemma_digits_read_back(q);
        lemma_digit_char(r);
        let p = spec_digits(q);
        assert(s == p.push(digit_char(r)));
        assert(s.drop_last() =~= p);
        assert(s.last() == digit_char(r));
        assert(s[0] == p[0]);
        assert forall|i: int| 0 <= i < s.len() implies is_digit(#[trigger] s[i]) by {
            if i < p.len() {
                assert(s[i] == p[i]);
            }
        }
        assert(p.len() >= 1);
        if p[0] == '0' {
            assert(p.len() == 1);
            assert(p.drop_last() =~= Seq::<char>::empty());
            assert(text_value(p.drop_last()) == 0);
            assert(p.last() == p[0]);
            assert(digit_value(p[0]) == 0);
            assert(false);
        }
        assert(text_value(s) == text_value(p) * 10 + r);
    }
}

/// The decimal text of any integer reads back as that integer: for `n >= 0`
/// it is the canonical digits of `n`; for `n < 0` it is '-' followed by the
/// canonical digits of `-n`.
pub proof fn lemma_decimal_reads_back(n: int)
    ensures
        n >= 0 ==> reads_as_natural(spec_decimal(n), n),
        n < 0 ==> spec_decimal(n).len() >= 2 && spec_decimal(n)[0] == '-'
            && reads_as_natural(spec_decimal(n).drop_first(), -n),
{
    if n >= 0 {
        lemma_digits_read_back(n as nat);
    } else {
        lemma_digits_read_back((-n) as nat);
        assert(spec_decimal(n).drop_first() =~= spec_digits((-n) as nat));
    }
}

fn digit_str(d: u64) -> (s: &'static str)
    requires
        d < 10,
    ensures
        s@ == seq![digit_char(d as int)],
{
    proof {
        reveal_strlit("0");
        reveal_strlit("1");
        reveal_strlit("2");
        reveal_strlit("3");
        reveal_strlit("4");
        reveal_strlit("5");
        reveal_strlit("6");
        reveal_strlit("7");
        reveal_strlit("8");
        reveal_strlit("9");
    }
    if d == 0 { "0" }
    else if d == 1 { "1" }
    else if d == 2 { "2" }
    else if d == 3 { "3" }
    else if d == 4 { "4" }
    else if d == 5 { "5" }
    else if d == 6 { "6" }
    else if d == 7 { "7" }
    else if d == 8 { "8" }
    else { "9" }
}

fn digits_string(n: u64) -> (s: String)
    ensures
        s@ == spec_digits(n as nat),
    decreases n,
{
    if n < 10 {
        String::from_str(digit_str(n))
    } else {
        let mut s = digits_string(n / 10);
        s.append(digit_str(n % 10));
        s
    }
}

/// Decimal text of a 32-bit integer, as `i32::to_string` writes it.
pub fn decimal_string(n: i32) -> (s: String)
    ensures
        s@ == spec_decimal(n as int),
{
    if n < 0 {
        let magnitude: i64 = -(n as i64);
        let digits = digits_string(magnitude as u64);
        let mut s = String::from_str("-");
        proof {
            reveal_strlit("-");
        }
        s.append(digits.as_str());
        s
    } else {
        digits_string(n as u64)
    }
}

} // verus!
