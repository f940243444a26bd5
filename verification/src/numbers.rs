use vstd::prelude::*;

use crate::text::push_char;

verus! {

/// Whether `c` is a digit of the given base (at most ten).
pub open spec fn is_digit_in(c: char, base: nat) -> bool {
    48 <= (c as u32) < 48 + base
}

/// The value of the digit character `c`.
pub open spec fn digit_of(c: char) -> nat {
    ((c as u32) - 48) as nat
}

/// The character of the digit `d` (`d` below ten).
pub open spec fn digit_char(d: nat) -> char {
    (d + 48) as char
}

/// Whether every character of `s` is a digit of `base`.
pub open spec fn all_digits(s: Seq<char>, base: nat) -> bool {
    forall|i: int| 0 <= i < s.len() ==> #[trigger] is_digit_in(s[i], base)
}

/// The number that the digits `s` denote in `base`.
pub open spec fn digits_value(s: Seq<char>, base: nat) -> nat
    decreases s.len(),
{
    if s.len() == 0 {
        0
    } else {
        digits_value(s.drop_last(), base) * base + digit_of(s.last())
    }
}

/// `s` without one leading `+`.
pub open spec fn unsigned_digits(s: Seq<char>) -> Seq<char> {
    if s.len() > 0 && s[0] == '+' {
        s.drop_first()
    } else {
        s
    }
}

/// What `from_str_radix` of an unsigned integer type whose largest value is
/// `max` gives for `s`: one optional `+`, then at least one digit of `base`,
/// and a value that fits.
pub open spec fn parse_unsigned(s: Seq<char>, base: nat, max: nat) -> Option<nat> {
    let d = unsigned_digits(s);
    if d.len() > 0 && all_digits(d, base) && digits_value(d, base) <= max {
        Some(digits_value(d, base))
    } else {
        None
    }
}

/// The decimal digits of `n`, without leading zeros.
pub open spec fn decimal_digits(n: nat) -> Seq<char>
    decreases n,
{
    if n < 10 {
        seq![digit_char(n)]
    } else {
        decimal_digits(n / 10).push(digit_char(n % 10))
    }
}

/// The octal digits of `n`, without leading zeros (what `{:o}` prints).
pub open spec fn octal_digits(n: nat) -> Seq<char>
    decreases n,
{
    if n < 8 {
        seq![digit_char(n)]
    } else {
        octal_digits(n / 8).push(digit_char(n % 8))
    }
}

/// A value of digits never falls short of the value of a prefix of them.
pub proof fn lemma_digits_value_prefix(s: Seq<char>, base: nat, k: int)
    requires
        base >= 1,
        0 <= k <= s.len(),
    ensures
        digits_value(s.take(k), base) <= digits_value(s, base),
    decreases s.len(),
{
    if k < s.len() {
        assert(s.drop_last().take(k) == s.take(k));
        lemma_digits_value_prefix(s.drop_last(), base, k);
        let p = digits_value(s.drop_last(), base);
        assert(p * base >= p) by (nonlinear_arith)
            requires
                base >= 1,
        ;
    } else {
        assert(s.take(k) == s);
    }
}

/// Parses `v` as an unsigned number in `base`, failing on bad syntax or a
/// value above `max`.
pub fn parse_unsigned_chars(v: &Vec<char>, base: u64, max: u64) -> (r: Option<u64>)
    requires
        2 <= base <= 10,
    ensures
        match r {
            Some(n) => parse_unsigned(v@, base as nat, max as nat) == Some(n as nat),
            None => parse_unsigned(v@, base as nat, max as nat) is None,
        },
{
    let ghost d = unsigned_digits(v@);
    let start: usize = if v.len() > 0 && v[0] == '+' {
        1
    } else {
        0
    };
    assert(d == v@.subrange(start as int, v@.len() as int));
    if start >= v.len() {
        return None;
    }
    let mut val: u64 = 0;
    let mut i: usize = start;
    assert(d.take(0) =~= Seq::<char>::empty());
    while i < v.len()
        invariant
            start <= i <= v@.len(),
            d == v@.subrange(start as int, v@.len() as int),
            d == unsigned_digits(v@),
            2 <= base <= 10,
            val <= max,
            val as nat == digits_value(d.take(i - start), base as nat),
            all_digits(d.take(i - start), base as nat),
        decreases v.len() - i,
    {
        let c = v[i];
        let k: usize = i - start;
        assert(d[k as int] == c);
        let n: u32 = c as u32;
        if n < 48 || n >= 48 + (base as u32) {
            assert(!is_digit_in(d[k as int], base as nat));
            return None;
        }
        let dv: u64 = (n - 48) as u64;
        assert(d.take(k + 1).drop_last() == d.take(k as int));
        assert(d.take(k + 1).last() == c);
        assert(all_digits(d.take(k + 1), base as nat)) by {
            assert forall|j: int| 0 <= j < k + 1 implies #[trigger] is_digit_in(
                d.take(k + 1)[j],
                base as nat,
            ) by {
                if j < k {
                    assert(d.take(k + 1)[j] == d.take(k as int)[j]);
                }
            }
        }
        if dv > max {
            proof {
                lemma_digits_value_prefix(d, base as nat, k + 1);
            }
            return None;
        }
        let lim: u64 = (max - dv) / base;
        if val > lim {
            assert(val * base + dv > max) by (nonlinear_arith)
                requires
                    lim == (max - dv) as int / base as int,
                    val > lim,
                    base >= 2,
                    dv <= max,
            ;
            proof {
                lemma_digits_value_prefix(d, base as nat, k + 1);
            }
            return None;
        }
        assert(val * base + dv <= max) by (nonlinear_arith)
            requires
                lim == (max - dv) as int / base as int,
                val <= lim,
                base >= 2,
                dv <= max,
        ;
        val = val * base + dv;
        i += 1;
    }
    assert(d.take(d.len() as int) == d);
    Some(val)
}

/// The character of the digit `d`.
pub fn digit_to_char(d: u64) -> (c: char)
    requires
        d < 10,
    ensures
        c == digit_char(d as nat),
{
    ((d as u8) + 48u8) as char
}

/// Appends the decimal digits of `n` to `out`.
pub fn push_decimal(out: &mut String, n: u64)
    ensures
        final(out)@ == old(out)@ + decimal_digits(n as nat),
    decreases n,
{
    if n >= 10 {
        push_decimal(out, n / 10);
    }
    push_char(out, digit_to_char(n % 10));
    assert(final(out)@ =~= old(out)@ + decimal_digits(n as nat));
}

/// Appends the octal digits of `n` to `out`.
pub fn push_octal(out: &mut String, n: u64)
    ensures
        final(out)@ == old(out)@ + octal_digits(n as nat),
    decreases n,
{
    if n >= 8 {
        push_octal(out, n / 8);
    }
    push_char(out, digit_to_char(n % 8));
    assert(final(out)@ =~= old(out)@ + octal_digits(n as nat));
}

/// The decimal form of `n`.
pub fn decimal_string(n: u64) -> (s: String)
    ensures
        s@ == decimal_digits(n as nat),
{
    let mut s = String::new();
    push_decimal(&mut s, n);
    assert(s@ =~= decimal_digits(n as nat));
    s
}

/// The octal form of `n`.
pub fn octal_string(n: u64) -> (s: String)
    ensures
        s@ == octal_digits(n as nat),
{
    let mut s = String::new();
    push_octal(&mut s, n);
    assert(s@ =~= octal_digits(n as nat));
    s
}

/// The octal digits of `n` are octal digits and denote `n`.
pub proof fn lemma_octal_digits(n: nat)
    ensures
        all_digits(octal_digits(n), 8),
        digits_value(octal_digits(n), 8) == n,
        octal_digits(n).len() > 0,
        octal_digits(n)[0] != '+',
    decreases n,
{
    if n >= 8 {
        lemma_octal_digits(n / 8);
        let s = octal_digits(n);
        assert(digit_of(digit_char(n % 8)) == n % 8);
        assert(s.last() == digit_char(n % 8));
        assert(digits_value(s, 8) == digits_value(s.drop_last(), 8) * 8 + n % 8);
        assert((n / 8) * 8 + n % 8 == n);
        assert(s.drop_last() == octal_digits(n / 8));
        assert forall|i: int| 0 <= i < s.len() implies #[trigger] is_digit_in(s[i], 8) by {
            if i < s.len() - 1 {
                assert(s[i] == octal_digits(n / 8)[i]);
            }
        }
    } else {
        let s = octal_digits(n);
        assert(digit_of(digit_char(n)) == n);
        assert(s.drop_last() =~= Seq::<char>::empty());
        assert(digits_value(s, 8) == digits_value(s.drop_last(), 8) * 8 + digit_of(s.last()));
    }
}

/// The decimal digits of `n` are decimal digits and denote `n`.
pub proof fn lemma_decimal_digits(n: nat)
    ensures
        all_digits(decimal_digits(n), 10),
        digits_value(decimal_digits(n), 10) == n,
        decimal_digits(n).len() > 0,
        decimal_digits(n)[0] != '+',
    decreases n,
{
    if n >= 10 {
        lemma_decimal_digits(n / 10);
        let s = decimal_digits(n);
        assert(digit_of(digit_char(n % 10)) == n % 10);
        assert(s.last() == digit_char(n % 10));
        assert(digits_value(s, 10) == digits_value(s.drop_last(), 10) * 10 + n % 10);
        assert((n / 10) * 10 + n % 10 == n);
        assert(s.drop_last() == decimal_digits(n / 10));
        assert forall|i: int| 0 <= i < s.len() implies #[trigger] is_digit_in(s[i], 10) by {
            if i < s.len() - 1 {
                assert(s[i] == decimal_digits(n / 10)[i]);
            }
        }
    } else {
        let s = decimal_digits(n);
        assert(digit_of(digit_char(n)) == n);
        assert(s.drop_last() =~= Seq::<char>::empty());
        assert(digits_value(s, 10) == digits_value(s.drop_last(), 10) * 10 + digit_of(s.last()));
    }
}

/// Parsing the decimal form of a number gives the number back.
pub proof fn law_decimal_round_trip(n: nat, max: nat)
    requires
        n <= max,
    ensures
        parse_unsigned(decimal_digits(n), 10, max) == Some(n),
{
    lemma_decimal_digits(n);
}

/// Parsing the octal form of a number gives the number back.
pub proof fn law_octal_round_trip(n: nat, max: nat)
    requires
        n <= max,
    ensures
        parse_unsigned(octal_digits(n), 8, max) == Some(n),
{
    lemma_octal_digits(n);
}

} // verus!
