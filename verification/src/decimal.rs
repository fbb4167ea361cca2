use vstd::prelude::*;
use vstd::string::*;

verus! {

/// The character that writes the decimal digit `d` (for `0 <= d < 10`).
pub open spec fn digit_char(d: int) -> char {
    if d == 0 {
        '0'
    } else if d == 1 {
        '1'
    } else if d == 2 {
        '2'
    } else if d == 3 {
        '3'
    } else if d == 4 {
        '4'
    } else if d == 5 {
        '5'
    } else if d == 6 {
        '6'
    } else if d == 7 {
        '7'
    } else if d == 8 {
        '8'
    } else {
        '9'
    }
}

/// The decimal numeral of a natural number, most significant digit first,
/// without leading zeros (`0` is written as a single `'0'`).
pub open spec fn nat_text(n: nat) -> Seq<char>
    decreases n,
{
    if n < 10 {
        seq![digit_char(n as int)]
    } else {
        nat_text(n / 10) + seq![digit_char((n % 10) as int)]
    }
}

/// The decimal numeral of an integer as `Display` writes it: a `'-'`
/// before the digits of its magnitude when it is negative.
pub open spec fn int_text(n: int) -> Seq<char> {
    if n < 0 {
        seq!['-'] + nat_text((-n) as nat)
    } else {
        nat_text(n as nat)
    }
}

fn digit_str(d: u64) -> (s: &'static str)
    requires
        d < 10,
    ensures
        s@ == seq![digit_char(d as int)],
{
    proof {
        reveal_strlit("0");
        reveal_strlit("1");
        reveal_strlit("2");
        reveal_strlit("3");
        reveal_strlit("4");
        reveal_strlit("5");
        reveal_strlit("6");
        reveal_strlit("7");
        reveal_strlit("8");
        reveal_strlit("9");
    }
    if d == 0 {
        "0"
    } else if d == 1 {
        "1"
    } else if d == 2 {
        "2"
    } else if d == 3 {
        "3"
    } else if d == 4 {
        "4"
    } else if d == 5 {
        "5"
    } else if d == 6 {
        "6"
    } else if d == 7 {
        "7"
    } else if d == 8 {
        "8"
    } else {
        "9"
    }
}

/// Appends the decimal numeral of `n` to `s`.
pub fn append_u64(s: &mut String, n: u64)
    ensures
        final(s)@ == old(s)@ + nat_text(n as nat),
    decreases n,
{
    if n >= 10 {
        append_u64(s, n / 10);
    }
    s.append(digit_str(n % 10));
    proof {
        assert(final(s)@ =~= old(s)@ + nat_text(n as nat));
    }
}

/// Appends the decimal numeral of `n` to `s`, with a leading `'-'` when
/// `n` is negative.
pub fn append_i32(s: &mut String, n: i32)
    ensures
        final(s)@ == old(s)@ + int_text(n as int),
{
    if n < 0 {
        proof {
            reveal_strlit("-");
        }
        s.append("-");
        let magnitude: u64 = (0i64 - (n as i64)) as u64;
        append_u64(s, magnitude);
        assert(final(s)@ =~= old(s)@ + int_text(n as int));
    } else {
        append_u64(s, n as u64);
    }
}

/// The decimal numeral of `n`, as `n.to_string()` writes it.
pub fn u64_text(n: u64) -> (res: String)
    ensures
        res@ == nat_text(n as nat),
{
    let mut s = String::new();
    append_u64(&mut s, n);
    assert(s@ =~= nat_text(n as nat));
    s
}

/// Whether `c` can occur in a decimal numeral: a digit or a minus sign.
pub open spec fn is_numeral_char(c: char) -> bool {
    c == '-' || c == '0' || c == '1' || c == '2' || c == '3' || c == '4' || c == '5' || c == '6'
        || c == '7' || c == '8' || c == '9'
}

/// A numeral of a natural number is a non-empty run of digits.
pub proof fn lemma_nat_text_digits(n: nat)
    ensures
        nat_text(n).len() >= 1,
        n >= 10 ==> nat_text(n).len() >= 2,
        forall|i: int| 0 <= i < nat_text(n).len() ==> #[trigger] nat_text(n)[i] != '-'
            && is_numeral_char(nat_text(n)[i]),
    decreases n,
{
    if n >= 10 {
        lemma_nat_text_digits(n / 10);
        let before = nat_text(n / 10);
        assert forall|i: int| 0 <= i < nat_text(n).len() implies #[trigger] nat_text(n)[i] != '-'
            && is_numeral_char(nat_text(n)[i]) by {
            if i < before.len() {
                assert(nat_text(n)[i] == before[i]);
            }
        }
    }
}

/// Different natural numbers have different numerals.
pub proof fn lemma_nat_text_injective(a: nat, b: nat)
    requires
        nat_text(a) == nat_text(b),
    ensures
        a == b,
    decreases a,
{
    lemma_nat_text_digits(a);
    lemma_nat_text_digits(b);
    if a >= 10 && b >= 10 {
        let ta = nat_text(a);
        let tb = nat_text(b);
        assert(ta.last() == digit_char((a % 10) as int));
        assert(tb.last() == digit_char((b % 10) as int));
        assert(ta.drop_last() =~= nat_text(a / 10));
        assert(tb.drop_last() =~= nat_text(b / 10));
        lemma_nat_text_injective(a / 10, b / 10);
    } else if a < 10 && b < 10 {
        assert(nat_text(a)[0] == digit_char(a as int));
        assert(nat_text(b)[0] == digit_char(b as int));
    }
}

/// A numeral of an integer holds only digits and minus signs, and is not empty.
pub proof fn lemma_int_text_chars(n: int)
    ensures
        int_text(n).len() >= 1,
        forall|i: int| 0 <= i < int_text(n).len() ==> is_numeral_char(#[trigger] int_text(n)[i]),
{
    if n < 0 {
        lemma_nat_text_digits((-n) as nat);
        let t = int_text(n);
        assert forall|i: int| 0 <= i < t.len() implies is_numeral_char(#[trigger] t[i]) by {
            if i > 0 {
                assert(t[i] == nat_text((-n) as nat)[i - 1]);
            }
        }
    } else {
        lemma_nat_text_digits(n as nat);
    }
}

/// Different integers have different numerals.
pub proof fn lemma_int_text_injective(a: int, b: int)
    requires
        int_text(a) == int_text(b),
    ensures
        a == b,
{
    if a < 0 {
        lemma_nat_text_digits((-a) as nat);
    } else {
        lemma_nat_text_digits(a as nat);
    }
    if b < 0 {
        lemma_nat_text_digits((-b) as nat);
    } else {
        lemma_nat_text_digits(b as nat);
    }
    if a < 0 && b < 0 {
        assert(int_text(a).drop_first() =~= nat_text((-a) as nat));
        assert(int_text(b).drop_first() =~= nat_text((-b) as nat));
        lemma_nat_text_injective((-a) as nat, (-b) as nat);
    } else if a >= 0 && b >= 0 {
        lemma_nat_text_injective(a as nat, b as nat);
    } else if a < 0 {
        assert(int_text(a)[0] == '-');
        assert(int_text(b)[0] != '-');
    } else {
        assert(int_text(b)[0] == '-');
        assert(int_text(a)[0] != '-');
    }
}

/// The value of a decimal digit character (0 for any other character).
pub open spec fn digit_value(c: char) -> nat {
    if c == '1' {
        1
    } else if c == '2' {
        2
    } else if c == '3' {
        3
    } else if c == '4' {
        4
    } else if c == '5' {
        5
    } else if c == '6' {
        6
    } else if c == '7' {
        7
    } else if c == '8' {
        8
    } else if c == '9' {
        9
    } else {
        0
    }
}

/// The number that a run of decimal digits denotes, most significant
/// digit first.
pub open spec fn numeral_value(s: Seq<char>) -> nat
    decreases s.len(),
{
    if s.len() == 0 {
        0
    } else {
        numeral_value(s.drop_last()) * 10 + digit_value(s.last())
    }
}

/// The numeral of a natural number denotes that number, and has no
/// leading zero unless the number is zero.
pub proof fn lemma_nat_text_value(n: nat)
    ensures
        numeral_value(nat_text(n)) == n,
        nat_text(n)[0] == '0' ==> n == 0,
    decreases n,
{
    if n >= 10 {
        lemma_nat_text_value(n / 10);
        lemma_nat_text_digits(n / 10);
        let t = nat_text(n);
        assert(t.drop_last() =~= nat_text(n / 10));
        assert(t[0] == nat_text(n / 10)[0]);
        assert(digit_value(digit_char((n % 10) as int)) == n % 10);
        assert(t.last() == digit_char((n % 10) as int));
    } else {
        let t = nat_text(n);
        assert(t.drop_last() =~= Seq::<char>::empty());
        assert(numeral_value(Seq::<char>::empty()) == 0);
        assert(t.last() == digit_char(n as int));
        assert(digit_value(digit_char(n as int)) == n);
    }
}

/// The numeral of an integer is a minus sign followed by the numeral of
/// its magnitude when it is negative, and the numeral of the number
/// otherwise.
pub proof fn lemma_int_text_value(n: int)
    ensures
        n < 0 ==> int_text(n)[0] == '-' && numeral_value(int_text(n).drop_first()) == -n,
        n >= 0 ==> numeral_value(int_text(n)) == n,
{
    if n < 0 {
        assert(int_text(n).drop_first() =~= nat_text((-n) as nat));
        lemma_nat_text_value((-n) as nat);
    } else {
        lemma_nat_text_value(n as nat);
    }
}

} // verus!
