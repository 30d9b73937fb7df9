//! Numbers in plain decimal notation, as a user writes them.
//!
//! A [`Decimal`] holds a sign and a magnitude in billionths, so that the
//! notation `16`, `-0.25`, `.5` or `+3.` is read without loss. A number that
//! would lose a digit, being written with a digit other than `0` beyond the
//! ninth place after the point, is not read, nor is one too large to hold;
//! each has a fault of its own.
use crate::ratio::Ratio;
use vstd::prelude::*;

verus! {

/// How many billionths make one.
pub const BILLION: u64 = 1_000_000_000;

/// Places after the decimal point that a [`Decimal`] keeps.
pub const PLACES: usize = 9;

/// `c` is one of the digits `0` to `9`.
pub open spec fn is_digit(c: char) -> bool {
    '0' <= c <= '9'
}

/// The number that the digit `c` stands for.
pub open spec fn digit_value(c: char) -> nat {
    (c as u32 - '0' as u32) as nat
}

/// Every character of `s` is a digit.
pub open spec fn all_digits(s: Seq<char>) -> bool {
    forall|i: int| 0 <= i < s.len() ==> is_digit(#[trigger] s[i])
}

/// The number that the digits `s` spell, the empty text spelling zero.
pub open spec fn digits_value(s: Seq<char>) -> nat
    decreases s.len(),
{
    if s.len() == 0 {
        0
    } else {
        digits_value(s.drop_last()) * 10 + digit_value(s.last())
    }
}

/// Ten to the power `n`.
pub open spec fn pow10(n: nat) -> nat
    decreases n,
{
    if n == 0 {
        1
    } else {
        10 * pow10((n - 1) as nat)
    }
}

/// The billionths that the digits `s` after a decimal point are worth where
/// those beyond the ninth are zeros: the first nine count.
pub open spec fn fraction_billionths(s: Seq<char>) -> nat {
    if s.len() >= PLACES {
        digits_value(s.take(PLACES as int))
    } else {
        digits_value(s) * pow10((PLACES - s.len()) as nat)
    }
}

/// What a text splits into when read as a decimal number: whether it starts
/// with `-`, the digits before the point, and the digits after it.
pub struct DecimalParts {
    pub negative: bool,
    pub whole: Seq<char>,
    pub fraction: Seq<char>,
}

/// Splits `s` into sign, whole part and fraction, without judging them.
pub open spec fn decimal_parts(s: Seq<char>) -> DecimalParts {
    let signed = s.len() > 0 && (s[0] == '-' || s[0] == '+');
    let body = if signed {
        s.drop_first()
    } else {
        s
    };
    let point = crate::text::first_index_of(body, '.');
    DecimalParts {
        negative: s.len() > 0 && s[0] == '-',
        whole: body.take(point),
        fraction: if point < body.len() {
            body.skip(point + 1)
        } else {
            Seq::empty()
        },
    }
}

/// The magnitude of `s` in billionths, whatever its sign.
pub open spec fn decimal_billionths(s: Seq<char>) -> nat {
    let parts = decimal_parts(s);
    digits_value(parts.whole) * BILLION as nat + fraction_billionths(parts.fraction)
}

/// `s` is written as a decimal number: an optional sign, then digits with
/// at most one point among them and at least one digit.
pub open spec fn well_formed(s: Seq<char>) -> bool {
    let parts = decimal_parts(s);
    &&& all_digits(parts.whole)
    &&& all_digits(parts.fraction)
    &&& parts.whole.len() + parts.fraction.len() > 0
}

/// The digits `fraction` after a decimal point lose nothing when only the
/// first nine are kept: the others are zeros.
pub open spec fn exact_to_nine(fraction: Seq<char>) -> bool {
    forall|i: int| PLACES <= i < fraction.len() ==> #[trigger] fraction[i] == '0'
}

/// `s` is written as a decimal number of a magnitude of at most `u64::MAX`
/// billionths.
pub open spec fn is_decimal(s: Seq<char>) -> bool {
    let parts = decimal_parts(s);
    &&& all_digits(parts.whole)
    &&& all_digits(parts.fraction)
    &&& parts.whole.len() + parts.fraction.len() > 0
    &&& decimal_billionths(s) <= u64::MAX
}

/// Why a text is not read as a [`Decimal`].
#[derive(Clone, Copy, Debug, PartialEq, Eq, Structural)]
pub enum DecimalFault {
    /// The text is not written as a decimal number.
    NotANumber,
    /// The number has a digit other than `0` beyond the ninth place after
    /// the point.
    TooPrecise,
    /// The magnitude of the number is above `u64::MAX` billionths.
    TooLarge,
}

/// A number with a sign and nine decimal places.
#[derive(Clone, Copy, Debug, PartialEq, Eq, Structural)]
pub struct Decimal {
    /// The number was written with a `-`.
    pub negative: bool,
    /// The magnitude, in billionths.
    pub billionths: u64,
}

/// The number that the text `s` denotes, or the fault for which it is not
/// read. A number that is read is read without loss.
pub open spec fn read_decimal(s: Seq<char>) -> Result<Decimal, DecimalFault> {
    if !well_formed(s) {
        Err(DecimalFault::NotANumber)
    } else if !exact_to_nine(decimal_parts(s).fraction) {
        Err(DecimalFault::TooPrecise)
    } else if decimal_billionths(s) > u64::MAX {
        Err(DecimalFault::TooLarge)
    } else {
        Ok(
            Decimal {
                negative: decimal_parts(s).negative,
                billionths: decimal_billionths(s) as u64,
            },
        )
    }
}

/// The number that the first nine places of the text `s` denote, if `s` is
/// written as a number that is not too large.
pub open spec fn value_of(s: Seq<char>) -> Option<Decimal> {
    if is_decimal(s) {
        Some(
            Decimal {
                negative: decimal_parts(s).negative,
                billionths: decimal_billionths(s) as u64,
            },
        )
    } else {
        None
    }
}

impl Decimal {
    /// The number is below zero. Minus zero is not.
    pub open spec fn is_negative(self) -> bool {
        self.negative && self.billionths > 0
    }

    /// The number is above one.
    pub open spec fn exceeds_one(self) -> bool {
        !self.negative && self.billionths > BILLION
    }

    /// Whether the number is below zero.
    pub fn negative(&self) -> (b: bool)
        ensures
            b == self.is_negative(),
    {
        self.negative && self.billionths > 0
    }

    /// The magnitude as a fraction of billionths.
    pub fn magnitude(&self) -> (r: Ratio)
        ensures
            r.wf(),
            r.num() == self.billionths,
            r.den() == BILLION,
    {
        match Ratio::new(self.billionths, BILLION) {
            Some(r) => r,
            None => unreached(),
        }
    }

    /// Reads a number in plain decimal notation, or says for which fault
    /// the text is not read.
    pub fn parse(text: &Vec<char>) -> (r: Result<Decimal, DecimalFault>)
        ensures
            r == read_decimal(text@),
    {
        if !is_number_text(text) {
            return Err(DecimalFault::NotANumber);
        }
        if !keeps_all_digits(text) {
            return Err(DecimalFault::TooPrecise);
        }
        match Decimal::read_value(text) {
            Some(number) => Ok(number),
            None => Err(DecimalFault::TooLarge),
        }
    }

    /// The number that the first nine places of the text denote; `None`
    /// where the text is not written as a number or is too large.
    fn read_value(text: &Vec<char>) -> (r: Option<Decimal>)
        ensures
            r == value_of(text@),
    {
        let n = text.len();
        let mut i: usize = 0;
        let mut negative = false;
        if n > 0 && (text[0] == '-' || text[0] == '+') {
            negative = text[0] == '-';
            i = 1;
        }
        let ghost body = text@.skip(i as int);
        let ghost point = crate::text::first_index_of(body, '.');
        let ghost parts = decimal_parts(text@);
        proof {
            crate::text::lemma_first_index_of(body, '.');
            if i == 0 {
                assert(body == text@);
            }
        }
        let start = i;
        // The digits before the point.
        let mut whole: u64 = 0;
        let mut whole_ok = true;
        let ghost mut bad: int = 0;
        while i < n && text[i] != '.'
            invariant
                start <= i <= n,
                n == text.len(),
                body == text@.skip(start as int),
                forall|j: int| 0 <= j < i - start ==> body[j] != '.',
                whole_ok ==> all_digits(body.take(i - start)) && whole == digits_value(
                    body.take(i - start),
                ),
                !whole_ok ==> 0 <= bad <= i - start && !is_decimal_prefix(body.take(bad)),
            decreases n - i,
        {
            let c = text[i];
            proof {
                assert(body[i - start] == c);
                assert(body.take(i - start + 1).drop_last() == body.take(i - start));
                assert(body.take(i - start + 1).last() == c);
            }
            if whole_ok {
                proof {
                    bad = i - start + 1;
                }
                if c < '0' || c > '9' {
                    whole_ok = false;
                } else {
                    let d: u64 = (c as u32 - '0' as u32) as u64;
                    if whole > (u64::MAX - d) / 10 {
                        whole_ok = false;
                    } else {
                        whole = whole * 10 + d;
                    }
                }
            }
            i += 1;
        }
        proof {
            crate::text::lemma_first_index_of_unique(body, '.', i - start);
            assert(parts.whole == body.take(i - start));
        }
        // The digits after the point.
        let mut fraction: u64 = 0;
        let mut kept: usize = 0;
        let mut fraction_ok = true;
        let after: usize = if i < n {
            i + 1
        } else {
            n
        };
        proof {
            if i < n {
                assert(parts.fraction == body.skip(point + 1));
                assert(parts.fraction == text@.skip(after as int));
            } else {
                assert(parts.fraction == text@.skip(after as int));
            }
        }
        let mut k: usize = after;
        proof {
            lemma_pow10_values();
        }
        while k < n
            invariant
                after <= k <= n,
                n == text.len(),
                parts.fraction == text@.skip(after as int),
                kept <= PLACES,
                fraction_ok ==> kept == if k - after < PLACES {
                    k - after
                } else {
                    PLACES as int
                },
                fraction_ok ==> all_digits(parts.fraction.take(k - after)) && fraction
                    == digits_value(parts.fraction.take(kept as int)),
                !fraction_ok ==> !all_digits(parts.fraction),
                fraction < pow10(kept as nat),
            decreases n - k,
        {
            let c = text[k];
            proof {
                assert(parts.fraction[k - after] == c);
                assert(parts.fraction.take(k - after + 1).drop_last() == parts.fraction.take(
                    k - after,
                ));
                assert(parts.fraction.take(k - after + 1).last() == c);
                lemma_pow10_values();
            }
            if fraction_ok {
                if c < '0' || c > '9' {
                    fraction_ok = false;
                } else if kept < PLACES {
                    let d: u64 = (c as u32 - '0' as u32) as u64;
                    assert(fraction * 10 + d < pow10((kept + 1) as nat)) by (nonlinear_arith)
                        requires
                            fraction < pow10(kept as nat),
                            pow10((kept + 1) as nat) == 10 * pow10(kept as nat),
                            d <= 9,
                    ;
                    assert(pow10((kept + 1) as nat) <= pow10(9)) by {
                        lemma_pow10_monotone((kept + 1) as nat, 9);
                    }
                    fraction = fraction * 10 + d;
                    kept += 1;
                } else {
                    assert(parts.fraction.take(k - after + 1).take(PLACES as int)
                        == parts.fraction.take(PLACES as int));
                }
            }
            k += 1;
        }
        proof {
            assert(parts.fraction.take(n - after) == parts.fraction);
            lemma_pow10_values();
        }
        if !whole_ok || !fraction_ok || (i - start) + (n - after) == 0 {
            proof {
                if !whole_ok {
                    assert(parts.whole.take(bad) == body.take(bad));
                    lemma_decimal_prefix(parts.whole, bad);
                    assert(digits_value(parts.whole) * BILLION >= digits_value(parts.whole))
                        by (nonlinear_arith);
                }
            }
            return None;
        }
        // Pad the fraction to nine places.
        let mut scaled: u64 = fraction;
        let mut places: usize = kept;
        while places < PLACES
            invariant
                kept <= places <= PLACES,
                scaled == fraction * pow10((places - kept) as nat),
                scaled < pow10(places as nat),
            decreases PLACES - places,
        {
            proof {
                lemma_pow10_values();
                lemma_pow10_monotone((places + 1) as nat, 9);
                assert(scaled * 10 < pow10((places + 1) as nat)) by (nonlinear_arith)
                    requires
                        scaled < pow10(places as nat),
                        pow10((places + 1) as nat) == 10 * pow10(places as nat),
                ;
                assert(fraction * pow10((places + 1 - kept) as nat) == fraction * pow10(
                    (places - kept) as nat,
                ) * 10) by (nonlinear_arith)
                    requires
                        pow10((places + 1 - kept) as nat) == 10 * pow10((places - kept) as nat),
                ;
            }
            scaled = scaled * 10;
            places += 1;
        }
        proof {
            lemma_pow10_values();
            if parts.fraction.len() >= PLACES {
                assert(kept == PLACES);
                assert(scaled == fraction * 1);
            }
            assert(scaled == fraction_billionths(parts.fraction));
            assert(whole * BILLION <= u64::MAX * BILLION) by (nonlinear_arith)
                requires
                    whole <= u64::MAX,
            ;
        }
        let total: u128 = (whole as u128) * (BILLION as u128) + (scaled as u128);
        if total > u64::MAX as u128 {
            None
        } else {
            Some(Decimal { negative, billionths: total as u64 })
        }
    }
}

/// Where the whole part and the fraction of a number stand in its text: the
/// whole part from the first place given up to the second, the fraction
/// behind the point at the second.
fn bounds(text: &Vec<char>) -> (at: (usize, usize))
    ensures
        at.0 <= at.1 <= text.len(),
        decimal_parts(text@).whole == text@.subrange(at.0 as int, at.1 as int),
        decimal_parts(text@).fraction == if at.1 < text.len() {
            text@.subrange(at.1 + 1, text.len() as int)
        } else {
            Seq::<char>::empty()
        },
{
    let n = text.len();
    let start: usize = if n > 0 && (text[0] == '-' || text[0] == '+') {
        1
    } else {
        0
    };
    let ghost body = text@.skip(start as int);
    proof {
        if start == 0 {
            assert(body == text@);
        }
    }
    let mut i: usize = start;
    while i < n && text[i] != '.'
        invariant
            start <= i <= n,
            n == text.len(),
            body == text@.skip(start as int),
            forall|j: int| 0 <= j < i - start ==> body[j] != '.',
        decreases n - i,
    {
        assert(body[i - start] == text@[i as int]);
        i += 1;
    }
    proof {
        if i < n {
            assert(body[i - start] == text@[i as int]);
        }
        crate::text::lemma_first_index_of_unique(body, '.', i - start);
        assert(body.take(i - start) == text@.subrange(start as int, i as int));
        if i < n {
            assert(body.skip(i - start + 1) == text@.subrange(i + 1, n as int));
        }
    }
    (start, i)
}

/// Whether the characters from place `from` up to place `to` are digits.
fn digits_between(text: &Vec<char>, from: usize, to: usize) -> (digits: bool)
    requires
        from <= to <= text.len(),
    ensures
        digits == all_digits(text@.subrange(from as int, to as int)),
{
    let ghost part = text@.subrange(from as int, to as int);
    let mut i: usize = from;
    while i < to
        invariant
            from <= i <= to <= text.len(),
            part == text@.subrange(from as int, to as int),
            forall|j: int| 0 <= j < i - from ==> is_digit(#[trigger] part[j]),
        decreases to - i,
    {
        let c = text[i];
        assert(part[i - from] == c);
        if c < '0' || c > '9' {
            return false;
        }
        i += 1;
    }
    true
}

/// Whether the text is written as a decimal number.
fn is_number_text(text: &Vec<char>) -> (written: bool)
    ensures
        written == well_formed(text@),
{
    let n = text.len();
    let (start, point) = bounds(text);
    let after: usize = if point < n {
        point + 1
    } else {
        n
    };
    assert(decimal_parts(text@).fraction =~= text@.subrange(after as int, n as int));
    digits_between(text, start, point) && digits_between(text, after, n) && (point - start) + (n
        - after) > 0
}

/// Whether the text, read as a decimal number, has only zeros beyond the
/// ninth place after the point.
fn keeps_all_digits(text: &Vec<char>) -> (exact: bool)
    ensures
        exact == exact_to_nine(decimal_parts(text@).fraction),
{
    let n = text.len();
    let (_, point) = bounds(text);
    let after: usize = if point < n {
        point + 1
    } else {
        n
    };
    let ghost fraction = decimal_parts(text@).fraction;
    assert(fraction =~= text@.subrange(after as int, n as int));
    if n - after <= PLACES {
        return true;
    }
    let mut k: usize = after + PLACES;
    while k < n
        invariant
            after + PLACES <= k <= n,
            n == text.len(),
            fraction == text@.subrange(after as int, n as int),
            fraction == decimal_parts(text@).fraction,
            forall|j: int| PLACES <= j < k - after ==> #[trigger] fraction[j] == '0',
        decreases n - k,
    {
        assert(fraction[k - after] == text@[k as int]);
        if text[k] != '0' {
            return false;
        }
        k += 1;
    }
    true
}

/// A number that is read is read without loss: the digits after the point,
/// taken all together, are worth what the first nine of them are worth.
pub proof fn lemma_fraction_exact(fraction: Seq<char>)
    requires
        fraction.len() >= PLACES,
        exact_to_nine(fraction),
    ensures
        digits_value(fraction) == fraction_billionths(fraction) * pow10(
            (fraction.len() - PLACES) as nat,
        ),
    decreases fraction.len(),
{
    lemma_pow10_values();
    if fraction.len() == PLACES {
        assert(fraction.take(PLACES as int) == fraction);
    } else {
        let shorter = fraction.drop_last();
        assert(shorter.take(PLACES as int) == fraction.take(PLACES as int));
        assert forall|i: int| PLACES <= i < shorter.len() implies #[trigger] shorter[i] == '0' by {
            assert(shorter[i] == fraction[i]);
        }
        lemma_fraction_exact(shorter);
        assert(fraction.last() == fraction[fraction.len() - 1]);
        assert(digit_value(fraction.last()) == 0);
        let rest = (shorter.len() - PLACES) as nat;
        assert(pow10((fraction.len() - PLACES) as nat) == 10 * pow10(rest));
        assert(fraction_billionths(fraction) * (10 * pow10(rest)) == fraction_billionths(fraction)
            * pow10(rest) * 10) by (nonlinear_arith);
    }
}

/// A run of digits whose value a `u64` holds: what the whole part of a
/// decimal has to be, and every start of it with it.
pub open spec fn is_decimal_prefix(s: Seq<char>) -> bool {
    all_digits(s) && digits_value(s) <= u64::MAX
}

/// The powers of ten up to the ninth.
pub proof fn lemma_pow10_values()
    ensures
        pow10(0) == 1,
        pow10(1) == 10,
        pow10(2) == 100,
        pow10(3) == 1_000,
        pow10(4) == 10_000,
        pow10(5) == 100_000,
        pow10(6) == 1_000_000,
        pow10(7) == 10_000_000,
        pow10(8) == 100_000_000,
        pow10(9) == 1_000_000_000,
        forall|n: nat| #[trigger] pow10(n + 1) == 10 * pow10(n),
{
    reveal_with_fuel(pow10, 10);
}

/// A larger exponent gives no smaller power.
pub proof fn lemma_pow10_monotone(a: nat, b: nat)
    requires
        a <= b,
    ensures
        1 <= pow10(a) <= pow10(b),
    decreases b,
{
    if b > 0 {
        if a < b {
            lemma_pow10_monotone(a, (b - 1) as nat);
        } else {
            lemma_pow10_monotone((a - 1) as nat, (b - 1) as nat);
        }
    }
}

/// Digits appended to a run never lower its value.
pub proof fn lemma_digits_value_grows(s: Seq<char>, k: int)
    requires
        0 <= k <= s.len(),
    ensures
        digits_value(s.take(k)) <= digits_value(s),
    decreases s.len(),
{
    if k < s.len() {
        lemma_digits_value_grows(s.drop_last(), k);
        assert(s.drop_last().take(k) == s.take(k));
    } else {
        assert(s.take(k) == s);
    }
}

/// `s` is the way to write `n` in digits: no leading zero, and `0` for zero.
pub open spec fn is_numeral(s: Seq<char>, n: nat) -> bool {
    &&& s.len() >= 1
    &&& all_digits(s)
    &&& digits_value(s) == n
    &&& s[0] == '0' ==> s.len() == 1
}

/// The character for a digit.
fn digit_char(d: u64) -> (c: char)
    requires
        d < 10,
    ensures
        is_digit(c),
        digit_value(c) == d,
{
    if d == 0 {
        '0'
    } else if d == 1 {
        '1'
    } else if d == 2 {
        '2'
    } else if d == 3 {
        '3'
    } else if d == 4 {
        '4'
    } else if d == 5 {
        '5'
    } else if d == 6 {
        '6'
    } else if d == 7 {
        '7'
    } else if d == 8 {
        '8'
    } else {
        '9'
    }
}

/// The digits that spell `n`.
pub fn numeral(n: u64) -> (digits: Vec<char>)
    ensures
        is_numeral(digits@, n as nat),
    decreases n,
{
    if n < 10 {
        let mut digits: Vec<char> = Vec::new();
        digits.push(digit_char(n));
        assert(digits@.drop_last().len() == 0);
        assert(digits_value(digits@.drop_last()) == 0);
        digits
    } else {
        let mut digits = numeral(n / 10);
        let ghost before = digits@;
        let c = digit_char(n % 10);
        digits.push(c);
        proof {
            assert(digits@.drop_last() == before);
            assert(digits@.last() == c);
            assert(digits@[0] == before[0]);
            if before[0] == '0' {
                assert(before.drop_last().len() == 0);
                assert(digits_value(before.drop_last()) == 0);
                assert(before.last() == before[0]);
            }
        }
        digits
    }
}

/// A run with a start that is no decimal prefix is none itself.
proof fn lemma_decimal_prefix(s: Seq<char>, k: int)
    requires
        0 <= k <= s.len(),
        !is_decimal_prefix(s.take(k)),
    ensures
        !is_decimal_prefix(s),
{
    lemma_digits_value_grows(s, k);
    if all_digits(s) {
        assert forall|i: int| 0 <= i < s.take(k).len() implies is_digit(#[trigger] s.take(k)[i]) by {
            assert(s.take(k)[i] == s[i]);
        }
    }
}

} // verus!
