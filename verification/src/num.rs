//! Exact non-negative rational numbers and decimal-text parsing.
//!
//! Exchanges send prices and quantities as decimal text. Each such text is
//! parsed into an exact fraction `num / den` (with `den` a power of ten), so
//! that the unit reconciliation downstream is exact rational arithmetic and
//! the relation `volume == price * quantity` can be stated and proved as an
//! identity on integers, with no rounding involved.

use vstd::prelude::*;

verus! {

/// An exact non-negative rational number `num / den`.
#[derive(Clone, Copy)]
pub struct Rat {
    pub num: u128,
    pub den: u128,
}

/// Mathematical value of a [`Rat`]: an integer fraction.
pub ghost struct RatModel {
    pub num: int,
    pub den: int,
}

impl View for Rat {
    type V = RatModel;

    open spec fn view(&self) -> RatModel {
        RatModel { num: self.num as int, den: self.den as int }
    }
}

impl RatModel {
    /// A fraction is well formed when its denominator is positive and its
    /// numerator non-negative: every quantity this library handles is `>= 0`.
    pub open spec fn wf(self) -> bool {
        self.den > 0 && self.num >= 0
    }

    /// Equality of fractions by cross multiplication.
    pub open spec fn same_value(self, other: RatModel) -> bool {
        self.num * other.den == other.num * self.den
    }

    /// The exact product of two fractions.
    pub open spec fn times(self, other: RatModel) -> RatModel {
        RatModel { num: self.num * other.num, den: self.den * other.den }
    }

    /// The exact quotient of two fractions (meaningful when `other.num > 0`).
    pub open spec fn divided_by(self, other: RatModel) -> RatModel {
        RatModel { num: self.num * other.den, den: self.den * other.num }
    }
}

/// `10^n`.
pub open spec fn pow10(n: nat) -> int
    decreases n,
{
    if n == 0 {
        1
    } else {
        10 * pow10((n - 1) as nat)
    }
}

pub proof fn lemma_pow10_positive(n: nat)
    ensures
        pow10(n) >= 1,
    decreases n,
{
    if n > 0 {
        lemma_pow10_positive((n - 1) as nat);
    }
}

pub proof fn lemma_pow10_mono(a: nat, b: nat)
    requires
        a <= b,
    ensures
        pow10(a) <= pow10(b),
    decreases b,
{
    if a < b {
        lemma_pow10_mono(a, (b - 1) as nat);
        lemma_pow10_positive((b - 1) as nat);
    }
}

/// The concrete values of the two powers of ten the parser's bounds use.
pub proof fn lemma_pow10_16_17()
    ensures
        pow10(16) == 10_000_000_000_000_000,
        pow10(17) == 100_000_000_000_000_000,
{
    assert(pow10(0) == 1);
    assert(pow10(1) == 10);
    assert(pow10(2) == 100);
    assert(pow10(3) == 1000);
    assert(pow10(4) == 10000);
    assert(pow10(5) == 100000);
    assert(pow10(6) == 1000000);
    assert(pow10(7) == 10000000);
    assert(pow10(8) == 100000000);
    assert(pow10(9) == 1000000000);
    assert(pow10(10) == 10000000000);
    assert(pow10(11) == 100000000000);
    assert(pow10(12) == 1000000000000);
    assert(pow10(13) == 10000000000000);
    assert(pow10(14) == 100000000000000);
    assert(pow10(15) == 1000000000000000);
    assert(pow10(16) == 10000000000000000);
    assert(pow10(17) == 100000000000000000);
}

/// Decimal digit.
pub open spec fn is_digit(c: char) -> bool {
    '0' <= c && c <= '9'
}

pub open spec fn digit_val(c: char) -> int {
    c as int - '0' as int
}

/// Number of `'.'` characters in `s`.
pub open spec fn dots_in(s: Seq<char>) -> int
    decreases s.len(),
{
    if s.len() == 0 {
        0
    } else {
        dots_in(s.drop_last()) + if s.last() == '.' {
            1int
        } else {
            0int
        }
    }
}

/// Number of digit characters in `s`.
pub open spec fn digits_in(s: Seq<char>) -> int
    decreases s.len(),
{
    if s.len() == 0 {
        0
    } else {
        digits_in(s.drop_last()) + if is_digit(s.last()) {
            1int
        } else {
            0int
        }
    }
}

/// The digits of `s` read as one integer, ignoring the decimal point.
/// For `"100.5"` this is `1005`.
pub open spec fn mant_of(s: Seq<char>) -> int
    decreases s.len(),
{
    if s.len() == 0 {
        0
    } else if s.last() == '.' {
        mant_of(s.drop_last())
    } else {
        mant_of(s.drop_last()) * 10 + digit_val(s.last())
    }
}

/// How many digits follow the decimal point (0 when there is none).
/// Meaningful for texts with at most one point.
pub open spec fn frac_len_of(s: Seq<char>) -> int
    decreases s.len(),
{
    if s.len() == 0 {
        0
    } else if s.last() == '.' {
        0
    } else if dots_in(s.drop_last()) > 0 {
        frac_len_of(s.drop_last()) + 1
    } else {
        0
    }
}

/// The decimal grammar this library accepts: non-empty, only digits and at
/// most one decimal point, and at least one digit. Covers `"2"`, `"100.5"`,
/// `".5"` and `"3."`.
pub open spec fn dec_grammar_ok(s: Seq<char>) -> bool {
    &&& s.len() > 0
    &&& forall|i: int| 0 <= i < s.len() ==> is_digit(s[i]) || s[i] == '.'
    &&& dots_in(s) <= 1
    &&& digits_in(s) >= 1
}

/// Texts accepted by [`parse_decimal`]: grammatical, with at most 17 digits,
/// so every value and every product computed downstream fits the machine
/// integers used to hold it.
pub open spec fn dec_ok(s: Seq<char>) -> bool {
    dec_grammar_ok(s) && digits_in(s) <= 17
}

/// The exact value of an accepted decimal text, as a fraction.
pub open spec fn dec_rat(s: Seq<char>) -> RatModel {
    RatModel { num: mant_of(s), den: pow10(frac_len_of(s) as nat) }
}

/// How each prefix-counting function steps when one character is appended.
proof fn lemma_prefix_step(s: Seq<char>, i: int)
    requires
        0 <= i < s.len(),
    ensures
        dots_in(s.take(i + 1)) == dots_in(s.take(i)) + if s[i] == '.' {
            1int
        } else {
            0int
        },
        digits_in(s.take(i + 1)) == digits_in(s.take(i)) + if is_digit(s[i]) {
            1int
        } else {
            0int
        },
        mant_of(s.take(i + 1)) == if s[i] == '.' {
            mant_of(s.take(i))
        } else {
            mant_of(s.take(i)) * 10 + digit_val(s[i])
        },
        frac_len_of(s.take(i + 1)) == if s[i] == '.' {
            0int
        } else if dots_in(s.take(i)) > 0 {
            frac_len_of(s.take(i)) + 1
        } else {
            0int
        },
{
    let t = s.take(i + 1);
    assert(t.drop_last() =~= s.take(i));
    assert(t.last() == s[i]);
}

/// Counting dots or digits over a prefix never exceeds the count over the
/// whole text.
proof fn lemma_counts_mono(s: Seq<char>, i: int)
    requires
        0 <= i <= s.len(),
    ensures
        dots_in(s.take(i)) <= dots_in(s),
        digits_in(s.take(i)) <= digits_in(s),
    decreases s.len() - i,
{
    if i == s.len() {
        assert(s.take(i) =~= s);
    } else {
        lemma_prefix_step(s, i);
        lemma_counts_mono(s, i + 1);
    }
}

/// The counting functions never go negative.
proof fn lemma_counts_nonneg(s: Seq<char>)
    ensures
        dots_in(s) >= 0,
        digits_in(s) >= 0,
        frac_len_of(s) >= 0,
    decreases s.len(),
{
    if s.len() > 0 {
        lemma_counts_nonneg(s.drop_last());
    }
}

/// A text of `k` digits denotes a value below `10^k`.
proof fn lemma_mant_bound(s: Seq<char>)
    requires
        forall|i: int| 0 <= i < s.len() ==> is_digit(s[i]) || s[i] == '.',
    ensures
        0 <= mant_of(s) < pow10(digits_in(s) as nat),
    decreases s.len(),
{
    if s.len() == 0 {
    } else {
        assert(forall|i: int|
            0 <= i < s.drop_last().len() ==> is_digit(s.drop_last()[i]) || s.drop_last()[i] == '.');
        lemma_counts_nonneg(s.drop_last());
        lemma_mant_bound(s.drop_last());
        if s.last() == '.' {
        } else {
            assert(is_digit(s[s.len() - 1]));
            assert(0 <= digit_val(s.last()) < 10);
            let k = digits_in(s.drop_last()) as nat;
            assert(digits_in(s) as nat == k + 1);
            assert(pow10((k + 1) as nat) == 10 * pow10(k));
            assert(mant_of(s.drop_last()) * 10 + digit_val(s.last()) < pow10(k) * 10) by (
            nonlinear_arith)
                requires
                    mant_of(s.drop_last()) < pow10(k),
                    0 <= mant_of(s.drop_last()),
                    digit_val(s.last()) < 10,
            ;
        }
    }
}

/// Fractional digits are digits, so there are no more of them than digits
/// in all.
proof fn lemma_frac_le_digits(s: Seq<char>)
    requires
        forall|i: int| 0 <= i < s.len() ==> is_digit(s[i]) || s[i] == '.',
    ensures
        0 <= frac_len_of(s) <= digits_in(s),
    decreases s.len(),
{
    if s.len() > 0 {
        assert(forall|i: int|
            0 <= i < s.drop_last().len() ==> is_digit(s.drop_last()[i]) || s.drop_last()[i] == '.');
        lemma_frac_le_digits(s.drop_last());
    }
}

/// An accepted decimal text denotes a well-formed, bounded fraction.
pub proof fn lemma_dec_rat_bounds(s: Seq<char>)
    requires
        dec_ok(s),
    ensures
        dec_rat(s).wf(),
        0 <= dec_rat(s).num < pow10(17),
        0 < dec_rat(s).den <= pow10(17),
{
    lemma_mant_bound(s);
    lemma_frac_le_digits(s);
    lemma_pow10_mono(digits_in(s) as nat, 17);
    lemma_pow10_mono(frac_len_of(s) as nat, 17);
    lemma_pow10_positive(frac_len_of(s) as nat);
}

/// `10^k` computed at run time, for small `k`.
fn pow10_exec(k: u32) -> (r: u128)
    requires
        k <= 17,
    ensures
        r as int == pow10(k as nat),
{
    let mut r: u128 = 1;
    let mut j: u32 = 0;
    while j < k
        invariant
            j <= k,
            k <= 17,
            r as int == pow10(j as nat),
        decreases k - j,
    {
        proof {
            lemma_pow10_mono(j as nat, 16);
            lemma_pow10_16_17();
        }
        r = r * 10;
        j = j + 1;
    }
    r
}

/// Parses a decimal text into an exact fraction.
///
/// Returns `Some` exactly on the texts [`dec_ok`] accepts, and the result is
/// then the exact value of the text: numerator [`mant_of`], denominator
/// `10^`[`frac_len_of`]. Anything else — empty text, a sign, an exponent, a
/// second point, a non-digit, or more than 17 digits — is refused.
///
/// The accepted grammar is deliberately narrower than a general float
/// parser, which would also take signed and exponent forms and digits
/// without bound. The canonical record's invariants want non-negative
/// amounts and a positive price, exchanges send plain decimal text well
/// inside the digit budget, and the budget is what makes every product
/// computed downstream provably fit its machine integers; so the rarities
/// a float parser would round or sign are reported as numeric-parse
/// errors instead.
pub fn parse_decimal(s: &str) -> (r: Option<Rat>)
    ensures
        r is Some <==> dec_ok(s@),
        r matches Some(q) ==> q@ == dec_rat(s@) && q@.wf() && q@.num < pow10(17) && q@.den <= pow10(
        17),
{
    let n = s.unicode_len();
    let mut i: usize = 0;
    let mut acc: u64 = 0;
    let mut dots: u32 = 0;
    let mut digits: u32 = 0;
    let mut fracs: u32 = 0;
    while i < n
        invariant
            0 <= i <= n,
            n == s@.len(),
            dots as int == dots_in(s@.take(i as int)),
            digits as int == digits_in(s@.take(i as int)),
            fracs as int == frac_len_of(s@.take(i as int)),
            acc as int == mant_of(s@.take(i as int)),
            dots <= 1,
            digits <= 17,
            fracs <= digits,
            dots == 0 ==> fracs == 0,
            forall|j: int| 0 <= j < i ==> is_digit(s@[j]) || s@[j] == '.',
        decreases n - i,
    {
        let c = s.get_char(i);
        proof {
            lemma_prefix_step(s@, i as int);
        }
        if c == '.' {
            if dots == 1 {
                proof {
                    lemma_counts_mono(s@, i as int + 1);
                }
                return None;
            }
            dots = 1;
            fracs = 0;
        } else if '0' <= c && c <= '9' {
            if digits == 17 {
                proof {
                    lemma_counts_mono(s@, i as int + 1);
                }
                return None;
            }
            proof {
                assert(forall|j: int|
                    0 <= j < s@.take(i as int).len() ==> is_digit(s@.take(i as int)[j]) || s@.take(
                        i as int,
                    )[j] == '.');
                lemma_mant_bound(s@.take(i as int));
                lemma_pow10_mono(digits_in(s@.take(i as int)) as nat, 16);
                lemma_pow10_16_17();
            }
            acc = acc * 10 + (c as u32 as u64 - 48);
            digits = digits + 1;
            if dots == 1 {
                fracs = fracs + 1;
            }
        } else {
            assert(!(is_digit(s@[i as int]) || s@[i as int] == '.'));
            return None;
        }
        i = i + 1;
    }
    assert(s@.take(n as int) =~= s@);
    if digits == 0 {
        return None;
    }
    proof {
        assert(forall|j: int| 0 <= j < s@.len() ==> is_digit(s@[j]) || s@[j] == '.');
        lemma_frac_le_digits(s@);
        lemma_mant_bound(s@);
        lemma_pow10_mono(digits_in(s@) as nat, 17);
        lemma_pow10_mono(frac_len_of(s@) as nat, 17);
        lemma_pow10_positive(frac_len_of(s@) as nat);
    }
    let den = pow10_exec(fracs);
    Some(Rat { num: acc as u128, den })
}

/// The character of one decimal digit.
pub open spec fn digit_char(d: int) -> char {
    (('0' as u8) + d) as char
}

/// The decimal rendering of a non-negative integer, without leading zeros.
pub open spec fn udec_str(n: nat) -> Seq<char>
    decreases n,
{
    if n < 10 {
        seq![digit_char(n as int)]
    } else {
        udec_str(n / 10).push(digit_char((n % 10) as int))
    }
}

/// The decimal rendering of an integer: a minus sign where negative.
pub open spec fn idec_str(x: int) -> Seq<char> {
    if x < 0 {
        seq!['-'] + udec_str((-x) as nat)
    } else {
        udec_str(x as nat)
    }
}

/// Relies on std's Display for i64: renders the plain decimal digits, with a
/// minus sign for a negative number. Exchange-side numeric identifiers reach
/// the canonical record's string field through this.
#[verifier::external_body]
pub fn i64_to_string(x: i64) -> (r: String)
    ensures
        r@ == idec_str(x as int),
{
    x.to_string()
}

/// Exact product of two fractions. The bounds ask only what the machine
/// forces: both products must fit the 128-bit fields.
pub fn rat_times(a: Rat, b: Rat) -> (r: Rat)
    requires
        a@.num * b@.num <= u128::MAX,
        a@.den * b@.den <= u128::MAX,
    ensures
        r@ == a@.times(b@),
{
    Rat { num: a.num * b.num, den: a.den * b.den }
}

/// Exact quotient of two fractions. The divisor must be positive; the bounds
/// ask only what the machine forces.
pub fn rat_divided(a: Rat, b: Rat) -> (r: Rat)
    requires
        b@.num > 0,
        a@.num * b@.den <= u128::MAX,
        a@.den * b@.num <= u128::MAX,
    ensures
        r@ == a@.divided_by(b@),
{
    Rat { num: a.num * b.den, den: a.den * b.num }
}

} // verus!
