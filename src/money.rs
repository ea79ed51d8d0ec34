//! Fixed-point money: an amount is a whole number of cents, so sums never
//! drift and the two decimal places are exact.

use vstd::prelude::*;
use crate::text::{digit_char, digit_value, is_digit, push_char};

verus! {

/// A non-negative amount of money, held in cents.
#[derive(Debug, Clone, Copy, PartialEq, Eq, Structural)]
pub struct Money {
    pub cents: u64,
}

/// Whether every character of `s` is a decimal digit.
pub open spec fn all_digits(s: Seq<char>) -> bool {
    forall|i: int| 0 <= i < s.len() ==> is_digit(#[trigger] s[i])
}

/// The number that a run of decimal digits stands for.
pub open spec fn digits_number(s: Seq<char>) -> nat
    decreases s.len(),
{
    if s.len() == 0 {
        0
    } else {
        (digits_number(s.drop_last()) * 10 + digit_value(s.last())) as nat
    }
}

/// Cents written by decimal text: `123`, `123.4` or `123.45`, with at least
/// one digit before the point and one or two after it.
pub open spec fn text_cents(s: Seq<char>) -> Option<nat> {
    let n = s.len() as int;
    if n >= 4 && s[n - 3] == '.' && all_digits(s.subrange(0, n - 3)) && all_digits(
        s.subrange(n - 2, n),
    ) {
        Some(digits_number(s.subrange(0, n - 3)) * 100 + digits_number(s.subrange(n - 2, n)))
    } else if n >= 3 && s[n - 2] == '.' && all_digits(s.subrange(0, n - 2)) && is_digit(
        s[n - 1],
    ) {
        Some(digits_number(s.subrange(0, n - 2)) * 100 + (digit_value(s[n - 1]) * 10) as nat)
    } else if n >= 1 && all_digits(s) {
        Some(digits_number(s) * 100)
    } else {
        None
    }
}

/// Decimal digits of `n`, most significant first, without leading zeros.
pub open spec fn number_text(n: nat) -> Seq<char>
    decreases n,
{
    if n < 10 {
        seq![digit_char(n as int)]
    } else {
        number_text(n / 10).push(digit_char((n % 10) as int))
    }
}

/// An amount in cents written with exactly two decimal places (`620.00`).
pub open spec fn money_text(cents: nat) -> Seq<char> {
    number_text(cents / 100) + seq!['.', digit_char(((cents % 100) / 10) as int), digit_char(
        (cents % 10) as int,
    )]
}

proof fn lemma_two_digits(s: Seq<char>)
    requires
        all_digits(s),
        s.len() <= 2,
    ensures
        digits_number(s) <= 99,
        s.len() <= 1 ==> digits_number(s) <= 9,
{
    reveal_with_fuel(digits_number, 3);
    if s.len() > 0 {
        assert(is_digit(s[s.len() - 1]));
        if s.len() == 2 {
            assert(is_digit(s.drop_last()[0]));
            assert(s.drop_last().drop_last().len() == 0);
        } else {
            assert(s.drop_last().len() == 0);
        }
    }
}

proof fn lemma_digits_number_prefix(s: Seq<char>, j: int)
    requires
        0 <= j <= s.len(),
        all_digits(s),
    ensures
        digits_number(s) >= digits_number(s.subrange(0, j)),
    decreases s.len(),
{
    if j < s.len() {
        lemma_digits_number_prefix(s.drop_last(), j);
        assert(s.drop_last().subrange(0, j) =~= s.subrange(0, j));
        assert(is_digit(s[s.len() - 1]));
    } else {
        assert(s.subrange(0, j) =~= s);
    }
}

/// Reads the digits `s[from..to]`; `None` where one is no digit or the
/// number does not fit in 64 bits.
pub(crate) fn parse_digits(s: &str, from: usize, to: usize) -> (r: Option<u64>)
    requires
        from <= to <= s@.len(),
    ensures
        r.is_some() <==> all_digits(s@.subrange(from as int, to as int)) && digits_number(
            s@.subrange(from as int, to as int),
        ) <= u64::MAX,
        r.is_some() ==> r.unwrap() == digits_number(s@.subrange(from as int, to as int)),
{
    let ghost full = s@.subrange(from as int, to as int);
    let mut acc: u64 = 0;
    let mut i: usize = from;
    while i < to
        invariant
            from <= i <= to <= s@.len(),
            full == s@.subrange(from as int, to as int),
            all_digits(s@.subrange(from as int, i as int)),
            acc == digits_number(s@.subrange(from as int, i as int)),
        decreases to - i,
    {
        let c = s.get_char(i);
        let ghost pre = s@.subrange(from as int, i as int);
        let ghost next = s@.subrange(from as int, i + 1);
        assert(next.drop_last() =~= pre);
        assert(next.last() == c);
        assert(next =~= full.subrange(0, i + 1 - from));
        if !('0' <= c && c <= '9') {
            assert(!is_digit(full[i - from]));
            return None;
        }
        let d = (c as u32 - '0' as u32) as u64;
        if acc > (u64::MAX - d) / 10 {
            proof {
                assert(digits_number(next) > u64::MAX);
                assert forall|k: int| 0 <= k < next.len() implies is_digit(#[trigger] next[k]) by {
                    if k < pre.len() {
                        assert(next[k] == pre[k]);
                    }
                };
                if all_digits(full) {
                    lemma_digits_number_prefix(full, i + 1 - from);
                }
            }
            return None;
        }
        acc = acc * 10 + d;
        i = i + 1;
        assert forall|k: int| 0 <= k < next.len() implies is_digit(#[trigger] next[k]) by {
            if k < pre.len() {
                assert(next[k] == pre[k]);
            }
        };
    }
    Some(acc)
}

/// Appends the decimal digits of `n` to `out`.
pub(crate) fn push_number(out: &mut String, n: u64)
    ensures
        final(out)@ == old(out)@ + number_text(n as nat),
    decreases n,
{
    if n >= 10 {
        push_number(out, n / 10);
    }
    let c = char_of_digit((n % 10) as u8);
    push_char(out, c);
    proof {
        if n < 10 {
            assert(number_text(n as nat) =~= seq![digit_char(n as int)]);
        }
    }
    assert(final(out)@ =~= old(out)@ + number_text(n as nat));
}

/// The character of a digit below ten.
fn char_of_digit(d: u8) -> (c: char)
    requires
        d < 10,
    ensures
        c == digit_char(d as int),
{
    ((48u8 + d) as char)
}

impl Money {
    /// An amount of `cents` hundredths.
    pub fn from_cents(cents: u64) -> (r: Money)
        ensures
            r.cents == cents,
    {
        Money { cents }
    }

    /// Nothing.
    pub fn zero() -> (r: Money)
        ensures
            r.cents == 0,
    {
        Money { cents: 0 }
    }

    /// Reads decimal text such as `100`, `99.5` or `100.00`. Signs,
    /// exponents, more than two decimals and amounts past the 64-bit range
    /// give `None`.
    pub fn parse_decimal(s: &str) -> (r: Option<Money>)
        ensures
            r.is_some() <==> (text_cents(s@).is_some() && text_cents(s@).unwrap() <= u64::MAX),
            r.is_some() ==> r.unwrap().cents == text_cents(s@).unwrap(),
    {
        let n = s.unicode_len();
        let ghost v = s@;
        if n >= 4 && s.get_char(n - 3) == '.' {
            let whole = parse_digits(s, 0, n - 3);
            let frac = parse_digits(s, n - 2, n);
            proof {
                let l = n as int;
                assert(v.subrange(0, l - 2)[l - 3] == '.');
                assert(!is_digit(v[l - 3]));
                if frac.is_some() {
                    lemma_two_digits(v.subrange(l - 2, l));
                }
            }
            Money::combine(whole, frac, 1)
        } else if n >= 3 && s.get_char(n - 2) == '.' {
            let whole = parse_digits(s, 0, n - 2);
            let frac = parse_digits(s, n - 1, n);
            proof {
                let l = n as int;
                assert(v.subrange(l - 1, l) =~= seq![v[l - 1]]);
                assert(v.subrange(l - 1, l)[0] == v[l - 1]);
                assert(seq![v[l - 1]].drop_last() =~= Seq::<char>::empty());
                reveal_with_fuel(digits_number, 2);
                assert(!is_digit(v[l - 2]));
                if frac.is_some() {
                    lemma_two_digits(v.subrange(l - 1, l));
                }
                if l >= 4 {
                    assert(v.subrange(0, l - 3) =~= v.subrange(0, l - 2).subrange(0, l - 3));
                    assert(v.subrange(0, l - 2)[l - 3] == v[l - 3]);
                }
            }
            Money::combine(whole, frac, 10)
        } else if n >= 1 {
            let whole = parse_digits(s, 0, n);
            proof {
                let l = n as int;
                assert(v.subrange(0, l) =~= v);
                if l >= 3 {
                    assert(!is_digit(v[l - 2]) ==> !all_digits(v));
                }
                if l >= 4 {
                    assert(!is_digit(v[l - 3]) ==> !all_digits(v));
                }
            }
            Money::combine(whole, Some(0), 1)
        } else {
            None
        }
    }

    /// The amount with exactly two decimal places, as in `620.00`.
    pub fn to_decimal_string(&self) -> (r: String)
        ensures
            r@ == money_text(self.cents as nat),
    {
        let mut out = String::new();
        push_number(&mut out, self.cents / 100);
        push_char(&mut out, '.');
        push_char(&mut out, char_of_digit(((self.cents % 100) / 10) as u8));
        push_char(&mut out, char_of_digit((self.cents % 10) as u8));
        assert(out@ =~= money_text(self.cents as nat));
        out
    }

    /// Joins the whole part and the hundredths (`frac * scale`).
    fn combine(whole: Option<u64>, frac: Option<u64>, scale: u64) -> (r: Option<Money>)
        requires
            frac.is_some() ==> frac.unwrap() * scale <= 99,
        ensures
            r.is_some() <==> (whole.is_some() && frac.is_some() && whole.unwrap() * 100
                + frac.unwrap() * scale <= u64::MAX),
            r.is_some() ==> r.unwrap().cents == whole.unwrap() * 100 + frac.unwrap() * scale,
    {
        match (whole, frac) {
            (Some(w), Some(f)) => {
                if w > (u64::MAX - f * scale) / 100 {
                    assert(w * 100 + f * scale > u64::MAX) by (nonlinear_arith)
                        requires
                            w > (u64::MAX - f * scale) / 100,
                            f * scale <= 99,
                    ;
                    return None;
                }
                Some(Money { cents: w * 100 + f * scale })
            },
            _ => None,
        }
    }
}

} // verus!
