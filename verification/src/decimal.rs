//! Exact decimal numbers: a sign, a mantissa and a power of ten.
//!
//! Measurements arrive as decimal numerals and are rescaled by small
//! constants. Keeping them as `mantissa * 10^exponent` makes both steps
//! exact, so that equal inputs always give equal results.
use vstd::prelude::*;
use crate::text::{
    append_decimal, append_signed, chars_of, decimal_digits, digit_char, digit_run_end,
    digits_value, is_digit, lemma_decimal_digits, repeated, scan_digits, signed_digits, string_of,
};

verus! {

/// The number `(-1)^negative * mantissa * 10^exponent`.
///
/// Two values are equal when their three fields are; numerically equal
/// values with different exponents are distinct.
#[derive(Clone, Copy, Debug, PartialEq, Eq, Structural)]
pub struct Decimal {
    pub negative: bool,
    pub mantissa: u128,
    pub exponent: i32,
}

/// The number that a decimal numeral stands for.
///
/// The numeral is an optional minus sign, one or more digits, optionally
/// a point followed by one or more digits, and optionally `e` or `E`, an
/// optional sign and one or more digits. The mantissa is made of all the
/// digits before the exponent mark; the exponent is the written one less
/// the number of digits behind the point. Anything else, and a numeral
/// whose mantissa or exponent does not fit, has no reading.
pub open spec fn decimal_reading(s: Seq<char>) -> Option<Decimal> {
    let negative = s.len() > 0 && s[0] == '-';
    let int_start: int = if negative { 1 } else { 0 };
    let int_end = digit_run_end(s, int_start);
    let has_fraction = int_end < s.len() && s[int_end] == '.';
    let frac_start = if has_fraction { int_end + 1 } else { int_end };
    let frac_end = if has_fraction { digit_run_end(s, frac_start) } else { int_end };
    let has_exponent = frac_end < s.len() && (s[frac_end] == 'e' || s[frac_end] == 'E');
    let sign_at = frac_end + 1;
    let exp_negative = has_exponent && sign_at < s.len() && s[sign_at] == '-';
    let exp_signed = has_exponent && sign_at < s.len() && (s[sign_at] == '-' || s[sign_at] == '+');
    let exp_start = if !has_exponent {
        frac_end
    } else if exp_signed {
        sign_at + 1
    } else {
        sign_at
    };
    let exp_end = if has_exponent { digit_run_end(s, exp_start) } else { frac_end };
    let mantissa = digits_value(s.subrange(int_start, int_end) + s.subrange(frac_start, frac_end));
    let written = digits_value(s.subrange(exp_start, exp_end));
    let exponent = (if exp_negative { -(written as int) } else { written as int })
        - (frac_end - frac_start);
    if int_end > int_start && (has_fraction ==> frac_end > frac_start)
        && (has_exponent ==> exp_end > exp_start) && exp_end == s.len()
        && mantissa <= u128::MAX && i32::MIN <= exponent <= i32::MAX {
        Some(Decimal { negative, mantissa: mantissa as u128, exponent: exponent as i32 })
    } else {
        None
    }
}

/// A stretch of digits that is followed by no further digit is a digit
/// run.
pub proof fn lemma_digit_run_is(s: Seq<char>, from: int, to: int)
    requires
        0 <= from <= to <= s.len(),
        forall|j: int| from <= j < to ==> is_digit(#[trigger] s[j]),
        to < s.len() ==> !is_digit(s[to]),
    ensures
        digit_run_end(s, from) == to,
    decreases to - from,
{
    if from < to {
        lemma_digit_run_is(s, from + 1, to);
    }
}

/// The numeral that is written for a number is read back as that number,
/// field by field.
pub proof fn lemma_text_is_read_back(d: Decimal)
    ensures
        decimal_reading(decimal_text(d)) == Some(d),
{
    let sign = if d.negative {
        seq!['-']
    } else {
        Seq::<char>::empty()
    };
    let digits = decimal_digits(d.mantissa as nat);
    let magnitude: nat = if d.exponent < 0 {
        (-d.exponent) as nat
    } else {
        d.exponent as nat
    };
    let exp_sign = if d.exponent < 0 {
        seq!['-']
    } else {
        Seq::<char>::empty()
    };
    let exp_digits = decimal_digits(magnitude);
    let power = if d.exponent == 0 {
        Seq::<char>::empty()
    } else {
        seq!['e'] + (exp_sign + exp_digits)
    };
    let t = sign + digits + power;
    assert(t == decimal_text(d));
    lemma_decimal_digits(d.mantissa as nat);
    lemma_decimal_digits(magnitude);
    let int_start = sign.len() as int;
    let int_end = int_start + digits.len();
    assert(forall|j: int| int_start <= j < int_end ==> t[j] == digits[j - int_start]);
    assert(d.negative ==> t[0] == '-');
    assert(!d.negative ==> t[0] == digits[0]);
    if d.exponent == 0 {
        assert(t.len() == int_end);
        lemma_digit_run_is(t, int_start, int_end);
        assert(t.subrange(int_start, int_end) + t.subrange(int_end, int_end) == digits);
        assert(t.subrange(int_end, int_end) == Seq::<char>::empty());
    } else {
        assert(t[int_end] == 'e');
        lemma_digit_run_is(t, int_start, int_end);
        assert(t.subrange(int_start, int_end) + t.subrange(int_end, int_end) == digits);
        let exp_start = int_end + 1 + exp_sign.len();
        assert(t.len() == exp_start + exp_digits.len());
        assert(forall|j: int| exp_start <= j < t.len() ==> t[j] == exp_digits[j - exp_start]);
        assert(d.exponent < 0 ==> t[int_end + 1] == '-');
        assert(d.exponent > 0 ==> t[int_end + 1] == exp_digits[0]);
        lemma_digit_run_is(t, exp_start, t.len() as int);
        assert(t.subrange(exp_start, t.len() as int) == exp_digits);
    }
}

/// Ten to the power `n`.
pub open spec fn pow10(n: nat) -> nat
    decreases n,
{
    if n == 0 {
        1
    } else {
        10 * pow10((n - 1) as nat)
    }
}

/// `m * 10^k` as a whole number; where `k` is negative, the nearest whole
/// number, and of two equally near ones the even one.
pub open spec fn scaled_round(m: nat, k: int) -> nat {
    if k >= 0 {
        m * pow10(k as nat)
    } else {
        let p = pow10((-k) as nat);
        let q = m / p;
        let r = m % p;
        if 2 * r < p || (2 * r == p && q % 2 == 0) {
            q
        } else {
            q + 1
        }
    }
}

/// The numeral of `d * 10^shift` with exactly one digit behind the point,
/// rounded to the nearest tenth (ties to the even tenth). The minus sign
/// is written only where the rounded number is not zero.
pub open spec fn fixed_one_text(d: Decimal, shift: int) -> Seq<char> {
    let tenths = scaled_round(d.mantissa as nat, d.exponent + shift + 1);
    let sign = if d.negative && tenths > 0 {
        seq!['-']
    } else {
        Seq::<char>::empty()
    };
    sign + decimal_digits(tenths / 10) + seq!['.', digit_char(tenths % 10)]
}

/// The numeral of `d`: its sign, the mantissa and, unless the exponent is
/// zero, `e` and the exponent.
pub open spec fn decimal_text(d: Decimal) -> Seq<char> {
    let sign = if d.negative {
        seq!['-']
    } else {
        Seq::<char>::empty()
    };
    let power = if d.exponent == 0 {
        Seq::<char>::empty()
    } else {
        seq!['e'] + signed_digits(d.exponent as int)
    };
    sign + decimal_digits(d.mantissa as nat) + power
}


/// Powers of ten are positive and grow with the exponent.
pub proof fn lemma_pow10_monotone(a: nat, b: nat)
    requires
        a <= b,
    ensures
        0 < pow10(a) <= pow10(b),
    decreases b,
{
    if b == 0 {
    } else if a == b {
        lemma_pow10_monotone((a - 1) as nat, (b - 1) as nat);
    } else {
        lemma_pow10_monotone(a, (b - 1) as nat);
    }
}

/// The largest power of ten that fits in 128 bits, and the next one.
pub proof fn lemma_pow10_limits()
    ensures
        pow10(38) == 100000000000000000000000000000000000000,
        pow10(39) == 1000000000000000000000000000000000000000,
{
    reveal_with_fuel(pow10, 40);
}

/// Multiplying a positive number by a power of ten appends that many
/// zeros to its numeral.
pub proof fn lemma_digits_times_pow10(m: nat, j: nat)
    requires
        m > 0,
    ensures
        decimal_digits(m * pow10(j)) == decimal_digits(m) + repeated('0', j),
    decreases j,
{
    if j == 0 {
        assert(pow10(0) == 1);
        assert(m * pow10(0) == m);
        assert(decimal_digits(m) + repeated('0', 0) == decimal_digits(m));
    } else {
        let lower = m * pow10((j - 1) as nat);
        lemma_pow10_monotone(0, (j - 1) as nat);
        assert(m * pow10(j) == lower * 10) by (nonlinear_arith)
            requires
                pow10(j) == 10 * pow10((j - 1) as nat),
                lower == m * pow10((j - 1) as nat),
        ;
        assert(lower >= 1) by (nonlinear_arith)
            requires
                m > 0,
                pow10((j - 1) as nat) > 0,
                lower == m * pow10((j - 1) as nat),
        ;
        lemma_digits_times_pow10(m, (j - 1) as nat);
        assert((lower * 10) / 10 == lower);
        assert((lower * 10) % 10 == 0);
        assert(digit_char(0) == '0');
        assert(repeated('0', j) == repeated('0', (j - 1) as nat).push('0'));
        assert(decimal_digits(lower * 10) == decimal_digits(lower).push('0'));
    }
}

/// Ten to the power `j`, for the powers that fit in 128 bits.
fn power_of_ten(j: u32) -> (p: u128)
    requires
        j <= 38,
    ensures
        p == pow10(j as nat),
{
    let mut p: u128 = 1;
    let mut i: u32 = 0;
    while i < j
        invariant
            i <= j <= 38,
            p == pow10(i as nat),
        decreases j - i,
    {
        proof {
            lemma_pow10_monotone((i + 1) as nat, 38);
            lemma_pow10_limits();
        }
        p = p * 10;
        i += 1;
    }
    p
}


/// Eight times `d`; `None` where the mantissa would not fit.
pub open spec fn times_eight_of(d: Decimal) -> Option<Decimal> {
    if d.mantissa * 8 <= u128::MAX {
        Some(
            Decimal {
                negative: d.negative,
                mantissa: (d.mantissa * 8) as u128,
                exponent: d.exponent,
            },
        )
    } else {
        None
    }
}

/// A thousandth of `d`; `None` where the exponent would not fit.
pub open spec fn per_thousand_of(d: Decimal) -> Option<Decimal> {
    if d.exponent - 3 >= i32::MIN {
        Some(
            Decimal {
                negative: d.negative,
                mantissa: d.mantissa,
                exponent: (d.exponent - 3) as i32,
            },
        )
    } else {
        None
    }
}

impl Decimal {
    /// Whether the number is below zero.
    pub open spec fn is_negative(self) -> bool {
        self.negative && self.mantissa > 0
    }

    /// Whether the number is below zero. A zero with a minus sign is not.
    pub fn below_zero(&self) -> (r: bool)
        ensures
            r == self.is_negative(),
    {
        self.negative && self.mantissa > 0
    }

    /// Eight times the number; `None` where the mantissa would not fit.
    pub fn times_eight(&self) -> (r: Option<Decimal>)
        ensures
            r == times_eight_of(*self),
    {
        match self.mantissa.checked_mul(8) {
            Some(m) => Some(
                Decimal { negative: self.negative, mantissa: m, exponent: self.exponent },
            ),
            None => None,
        }
    }

    /// A thousandth of the number; `None` where the exponent would not fit.
    pub fn per_thousand(&self) -> (r: Option<Decimal>)
        ensures
            r == per_thousand_of(*self),
    {
        match self.exponent.checked_sub(3) {
            Some(e) => Some(
                Decimal { negative: self.negative, mantissa: self.mantissa, exponent: e },
            ),
            None => None,
        }
    }

    /// The numeral of the number, which `parse` reads back.
    pub fn to_text(&self) -> (out: String)
        ensures
            out@ == decimal_text(*self),
    {
        let mut chars: Vec<char> = Vec::new();
        if self.negative {
            chars.push('-');
        }
        append_decimal(&mut chars, self.mantissa);
        if self.exponent != 0 {
            chars.push('e');
            append_signed(&mut chars, self.exponent as i64);
        }
        string_of(&chars)
    }

    /// The numeral of the number times `10^shift`, rounded to one digit
    /// behind the point.
    pub fn to_fixed_one(&self, shift: i32) -> (out: String)
        ensures
            out@ == fixed_one_text(*self, shift as int),
    {
        let k: i64 = self.exponent as i64 + shift as i64 + 1;
        let m: u128 = self.mantissa;
        let ghost tenths = scaled_round(m as nat, k as int);
        let mut chars: Vec<char> = Vec::new();
        if m == 0 {
            proof {
                if k >= 0 {
                    assert(0 * pow10(k as nat) == 0);
                } else {
                    lemma_pow10_monotone(0, (-k) as nat);
                }
                assert(tenths == 0);
            }
            chars.push('0');
            chars.push('.');
            chars.push('0');
        } else if k >= 1 {
            let ghost lower = m as nat * pow10((k - 1) as nat);
            proof {
                lemma_pow10_monotone(0, (k - 1) as nat);
                assert(tenths == lower * 10) by (nonlinear_arith)
                    requires
                        tenths == m as nat * pow10(k as nat),
                        pow10(k as nat) == 10 * pow10((k - 1) as nat),
                        lower == m as nat * pow10((k - 1) as nat),
                ;
                assert(lower >= 1) by (nonlinear_arith)
                    requires
                        m > 0,
                        pow10((k - 1) as nat) > 0,
                        lower == m as nat * pow10((k - 1) as nat),
                ;
                lemma_digits_times_pow10(m as nat, (k - 1) as nat);
                assert((lower * 10) / 10 == lower);
                assert((lower * 10) % 10 == 0);
            }
            if self.negative {
                chars.push('-');
            }
            let ghost head = chars@;
            append_decimal(&mut chars, m);
            let mut z: i64 = 1;
            while z < k
                invariant
                    1 <= z <= k,
                    chars@ == head + decimal_digits(m as nat) + repeated('0', (z - 1) as nat),
                decreases k - z,
            {
                chars.push('0');
                proof {
                    assert(repeated('0', z as nat) == repeated('0', (z - 1) as nat).push('0'));
                }
                z += 1;
            }
            chars.push('.');
            chars.push('0');
        } else if k == 0 {
            proof {
                assert(pow10(0) == 1);
                assert(m as nat * pow10(0) == m as nat) by (nonlinear_arith)
                    requires
                        pow10(0) == 1,
                ;
            }
            if self.negative {
                chars.push('-');
            }
            append_decimal(&mut chars, m / 10);
            chars.push('.');
            chars.push((48u8 + (m % 10) as u8) as char);
        } else if k <= -39 {
            proof {
                lemma_pow10_monotone(39, (-k) as nat);
                lemma_pow10_limits();
                let p = pow10((-k) as nat);
                assert(m as nat / p == 0 && m as nat % p == m as nat) by (nonlinear_arith)
                    requires
                        (m as nat) < p,
                ;
                assert(tenths == 0);
            }
            chars.push('0');
            chars.push('.');
            chars.push('0');
        } else {
            let p: u128 = power_of_ten((-k) as u32);
            proof {
                lemma_pow10_monotone(0, (-k) as nat);
                lemma_pow10_monotone((-k) as nat, 38);
                lemma_pow10_limits();
            }
            let q: u128 = m / p;
            let r: u128 = m % p;
            proof {
                assert(q <= m / 10) by (nonlinear_arith)
                    requires
                        q == m / p,
                        p >= 10,
                ;
            }
            let t: u128 = if 2 * r < p || (2 * r == p && q % 2 == 0) {
                q
            } else {
                q + 1
            };
            assert(t == tenths);
            if self.negative && t > 0 {
                chars.push('-');
            }
            append_decimal(&mut chars, t / 10);
            chars.push('.');
            chars.push((48u8 + (t % 10) as u8) as char);
        }
        proof {
            assert(chars@ == fixed_one_text(*self, shift as int));
        }
        string_of(&chars)
    }

    /// Reads a decimal numeral; `None` where the text is no numeral or the
    /// number does not fit.
    pub fn parse(text: &str) -> (r: Option<Decimal>)
        ensures
            r == decimal_reading(text@),
    {
        let chars = chars_of(text);
        let n = chars.len();
        let negative = n > 0 && chars[0] == '-';
        let int_start: usize = if negative { 1 } else { 0 };
        let (int_end, int_value) = scan_digits(&chars, int_start, Some(0), Ghost(Seq::empty()));
        proof {
            assert(Seq::<char>::empty() + chars@.subrange(int_start as int, int_end as int)
                == chars@.subrange(int_start as int, int_end as int));
        }
        let has_fraction = int_end < n && chars[int_end] == '.';
        let frac_start: usize = if has_fraction { int_end + 1 } else { int_end };
        let (frac_end, mantissa) = if has_fraction {
            scan_digits(
                &chars,
                frac_start,
                int_value,
                Ghost(chars@.subrange(int_start as int, int_end as int)),
            )
        } else {
            proof {
                assert(chars@.subrange(int_start as int, int_end as int) + chars@.subrange(
                    int_end as int,
                    int_end as int,
                ) == chars@.subrange(int_start as int, int_end as int));
            }
            (int_end, int_value)
        };
        let has_exponent = frac_end < n && (chars[frac_end] == 'e' || chars[frac_end] == 'E');
        let mut exp_negative = false;
        let mut exp_start: usize = frac_end;
        if has_exponent {
            exp_start = frac_end + 1;
            if exp_start < n && (chars[exp_start] == '-' || chars[exp_start] == '+') {
                exp_negative = chars[exp_start] == '-';
                exp_start = exp_start + 1;
            }
        }
        let (exp_end, written) = if has_exponent {
            let r = scan_digits(&chars, exp_start, Some(0), Ghost(Seq::empty()));
            proof {
                assert(Seq::<char>::empty() + chars@.subrange(exp_start as int, r.0 as int)
                    == chars@.subrange(exp_start as int, r.0 as int));
            }
            r
        } else {
            proof {
                assert(chars@.subrange(frac_end as int, frac_end as int) =~= Seq::<char>::empty());
            }
            (frac_end, Some(0u128))
        };
        if !(int_end > int_start) || (has_fraction && !(frac_end > frac_start)) || (has_exponent
            && !(exp_end > exp_start)) || exp_end != n {
            return None;
        }
        let m = match mantissa {
            Some(m) => m,
            None => { return None; },
        };
        let w = match written {
            Some(w) => w,
            None => { return None; },
        };
        if w > 0x1_0000_0000_0000_0000_0000 {
            return None;
        }
        let fraction_digits: i128 = (frac_end - frac_start) as i128;
        let signed: i128 = if exp_negative { -(w as i128) } else { w as i128 };
        let exponent: i128 = signed - fraction_digits;
        if exponent < -2147483648 || exponent > 2147483647 {
            return None;
        }
        Some(Decimal { negative, mantissa: m, exponent: exponent as i32 })
    }
}

} // verus!
