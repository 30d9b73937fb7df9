//! The proportion of width to height that a canvas is to have.
use crate::decimal::{read_decimal, Decimal, DecimalFault, BILLION};
use crate::errors::OliframeError;
use crate::ratio::Ratio;
use crate::text::{chars_of, first_index_of, split_once, trim, trimmed};
use vstd::prelude::*;
use vstd::string::*;

verus! {

/// The width of a canvas divided by its height, a number above zero.
///
/// It is written as a decimal number (`1.5`) or as two of them with a colon
/// or a slash between (`16:9`, `16/9`).
#[derive(Clone, Copy, Debug, PartialEq)]
pub struct AspectRatio {
    inner: Ratio,
}

/// What a text says when read as an aspect ratio.
pub enum RatioReading {
    /// The proportion `numerator / denominator`, which is above zero.
    Value { numerator: nat, denominator: nat },
    /// A number of the text is below zero.
    Negative,
    /// The text divides by zero.
    ZeroDenominator,
    /// The proportion that the text gives is zero.
    Zero,
    /// A number of the text has a digit other than `0` beyond the ninth
    /// place after the point.
    TooPrecise,
    /// A number of the text is too large to hold.
    TooLarge,
    /// The text is no aspect ratio.
    Invalid,
}

/// Reads `s` as two numbers with the first `delimiter` of `s` between them;
/// `None` where `s` does not have that form. Of the faults of the two
/// numbers, a digit too many counts before a magnitude too large.
pub open spec fn read_fraction(s: Seq<char>, delimiter: char) -> Option<RatioReading> {
    let at = first_index_of(s, delimiter);
    let left = read_decimal(trim(s.take(at)));
    let right = read_decimal(trim(s.skip(at + 1)));
    if at == s.len() || left == Err::<Decimal, DecimalFault>(DecimalFault::NotANumber) || right
        == Err::<Decimal, DecimalFault>(DecimalFault::NotANumber) {
        None
    } else if left == Err::<Decimal, DecimalFault>(DecimalFault::TooPrecise) || right == Err::<
        Decimal,
        DecimalFault,
    >(DecimalFault::TooPrecise) {
        Some(RatioReading::TooPrecise)
    } else if left is Err || right is Err {
        Some(RatioReading::TooLarge)
    } else if right->Ok_0.billionths == 0 {
        Some(RatioReading::ZeroDenominator)
    } else if left->Ok_0.is_negative() || right->Ok_0.is_negative() {
        Some(RatioReading::Negative)
    } else if left->Ok_0.billionths == 0 {
        Some(RatioReading::Zero)
    } else {
        Some(
            RatioReading::Value {
                numerator: left->Ok_0.billionths as nat,
                denominator: right->Ok_0.billionths as nat,
            },
        )
    }
}

/// Reads `s` as an aspect ratio: as one decimal number, else as a fraction
/// with a colon, else as a fraction with a slash.
pub open spec fn read_ratio(s: Seq<char>) -> RatioReading {
    match read_decimal(s) {
        Ok(plain) => if plain.is_negative() {
            RatioReading::Negative
        } else if plain.billionths == 0 {
            RatioReading::Zero
        } else {
            RatioReading::Value { numerator: plain.billionths as nat, denominator: BILLION as nat }
        },
        Err(DecimalFault::TooPrecise) => RatioReading::TooPrecise,
        Err(DecimalFault::TooLarge) => RatioReading::TooLarge,
        Err(DecimalFault::NotANumber) => match read_fraction(s, ':') {
            Some(reading) => reading,
            None => match read_fraction(s, '/') {
                Some(reading) => reading,
                None => RatioReading::Invalid,
            },
        },
    }
}

/// The result that [`AspectRatio::parse`] owes for a text with the given reading.
pub open spec fn parsed_as(
    input: Seq<char>,
    reading: RatioReading,
    result: Result<AspectRatio, OliframeError>,
) -> bool {
    match reading {
        RatioReading::Value { numerator, denominator } => {
            &&& result matches Ok(ratio)
            &&& ratio.wf()
            &&& ratio.value().num() == numerator
            &&& ratio.value().den() == denominator
        },
        RatioReading::Negative => {
            &&& result matches Err(OliframeError::InvalidInput(detail))
            &&& detail@ == "Aspect ratio values cannot be negative"@
        },
        RatioReading::ZeroDenominator => {
            &&& result matches Err(OliframeError::InvalidInput(detail))
            &&& detail@ == "Denominator cannot be zero: "@ + input
        },
        RatioReading::Zero => {
            &&& result matches Err(OliframeError::InvalidInput(detail))
            &&& detail@ == "Aspect ratio cannot be zero: "@ + input
        },
        RatioReading::TooPrecise => {
            &&& result matches Err(OliframeError::InvalidInput(detail))
            &&& detail@ == "Aspect ratio values can have at most nine decimal places: "@ + input
        },
        RatioReading::TooLarge => {
            &&& result matches Err(OliframeError::InvalidInput(detail))
            &&& detail@ == "Aspect ratio values are too large: "@ + input
        },
        RatioReading::Invalid => {
            &&& result matches Err(OliframeError::InvalidInput(detail))
            &&& detail@ == "Invalid ratio: "@ + input
        },
    }
}

/// A text that reads as a proportion reads as one above zero, with a
/// denominator above zero.
pub proof fn lemma_read_ratio_above_zero(s: Seq<char>)
    ensures
        read_ratio(s) matches RatioReading::Value { numerator, denominator } ==> numerator > 0
            && denominator > 0,
{
}

/// The error for a text whose proportion is zero.
fn zero_ratio(input: &str) -> (error: OliframeError)
    ensures
        error matches OliframeError::InvalidInput(detail) && detail@
            == "Aspect ratio cannot be zero: "@ + input@,
{
    OliframeError::InvalidInput(String::from_str("Aspect ratio cannot be zero: ").concat(input))
}

/// The error for a text with a number that is not read for the given fault,
/// which is not that of being no number.
fn unread_number(input: &str, fault: DecimalFault) -> (error: OliframeError)
    requires
        fault != DecimalFault::NotANumber,
    ensures
        error matches OliframeError::InvalidInput(detail) && detail@ == (if fault
            == DecimalFault::TooPrecise {
            "Aspect ratio values can have at most nine decimal places: "@
        } else {
            "Aspect ratio values are too large: "@
        }) + input@,
{
    match fault {
        DecimalFault::TooPrecise => OliframeError::InvalidInput(
            String::from_str("Aspect ratio values can have at most nine decimal places: ").concat(
                input,
            ),
        ),
        _ => OliframeError::InvalidInput(
            String::from_str("Aspect ratio values are too large: ").concat(input),
        ),
    }
}

/// Reads the two sides of a fraction that was split at `delimiter`.
fn fraction_of(
    input: &str,
    chars: &Vec<char>,
    delimiter: char,
) -> (r: Option<Result<AspectRatio, OliframeError>>)
    requires
        chars@ == input@,
    ensures
        r is None <==> read_fraction(input@, delimiter) is None,
        r matches Some(result) ==> parsed_as(
            input@,
            read_fraction(input@, delimiter)->0,
            result,
        ),
{
    match split_once(chars, delimiter) {
        None => None,
        Some((left, right)) => {
            let numerator = Decimal::parse(&trimmed(&left));
            let denominator = Decimal::parse(&trimmed(&right));
            match (numerator, denominator) {
                (Err(DecimalFault::NotANumber), _) => None,
                (_, Err(DecimalFault::NotANumber)) => None,
                (Err(DecimalFault::TooPrecise), _) => Some(
                    Err(unread_number(input, DecimalFault::TooPrecise)),
                ),
                (_, Err(DecimalFault::TooPrecise)) => Some(
                    Err(unread_number(input, DecimalFault::TooPrecise)),
                ),
                (Err(DecimalFault::TooLarge), _) => Some(
                    Err(unread_number(input, DecimalFault::TooLarge)),
                ),
                (_, Err(DecimalFault::TooLarge)) => Some(
                    Err(unread_number(input, DecimalFault::TooLarge)),
                ),
                (Ok(n), Ok(d)) => {
                    match Ratio::new(n.billionths, d.billionths) {
                        None => Some(
                            Err(
                                OliframeError::InvalidInput(
                                    String::from_str("Denominator cannot be zero: ").concat(input),
                                ),
                            ),
                        ),
                        Some(inner) => {
                            if n.negative() || d.negative() {
                                Some(
                                    Err(
                                        OliframeError::InvalidInput(
                                            String::from_str(
                                                "Aspect ratio values cannot be negative",
                                            ),
                                        ),
                                    ),
                                )
                            } else {
                                match AspectRatio::new(inner) {
                                    Some(ratio) => Some(Ok(ratio)),
                                    None => Some(Err(zero_ratio(input))),
                                }
                            }
                        },
                    }
                },
            }
        },
    }
}

impl AspectRatio {
    #[verifier::type_invariant]
    spec fn above_zero(self) -> bool {
        self.inner.num() > 0
    }

    /// The proportion as a fraction.
    pub closed spec fn value(self) -> Ratio {
        self.inner
    }

    /// What every aspect ratio that executable code holds satisfies: it is
    /// a fraction above zero.
    pub open spec fn wf(self) -> bool {
        self.value().wf() && self.value().num() > 0
    }

    /// The aspect ratio `inner`; `None` where `inner` is zero.
    pub fn new(inner: Ratio) -> (ratio: Option<AspectRatio>)
        ensures
            ratio is None <==> inner.num() == 0,
            ratio matches Some(r) ==> r.value() == inner,
    {
        if inner.numerator() == 0 {
            None
        } else {
            Some(AspectRatio { inner })
        }
    }

    /// The proportion as a fraction.
    pub fn inner(&self) -> (r: Ratio)
        ensures
            r == self.value(),
            self.wf(),
    {
        proof {
            use_type_invariant(self);
        }
        let r = self.inner;
        let shown = r.denominator();
        assert(shown > 0);
        r
    }

    /// Reads an aspect ratio from what a user wrote. A proportion of zero
    /// or below is refused, and so is a number that cannot be read without
    /// loss.
    pub fn parse(input: &str) -> (result: Result<AspectRatio, OliframeError>)
        ensures
            parsed_as(input@, read_ratio(input@), result),
    {
        let chars = chars_of(input);
        match Decimal::parse(&chars) {
            Ok(plain) => {
                if plain.negative() {
                    return Err(
                        OliframeError::InvalidInput(
                            String::from_str("Aspect ratio values cannot be negative"),
                        ),
                    );
                }
                return match AspectRatio::new(plain.magnitude()) {
                    Some(ratio) => Ok(ratio),
                    None => Err(zero_ratio(input)),
                };
            },
            Err(DecimalFault::TooPrecise) => {
                return Err(unread_number(input, DecimalFault::TooPrecise));
            },
            Err(DecimalFault::TooLarge) => {
                return Err(unread_number(input, DecimalFault::TooLarge));
            },
            Err(DecimalFault::NotANumber) => {},
        }
        if let Some(result) = fraction_of(input, &chars, ':') {
            return result;
        }
        if let Some(result) = fraction_of(input, &chars, '/') {
            return result;
        }
        Err(OliframeError::InvalidInput(String::from_str("Invalid ratio: ").concat(input)))
    }
}

impl std::str::FromStr for AspectRatio {
    type Err = OliframeError;

    fn from_str(input: &str) -> (result: Result<AspectRatio, OliframeError>)
        ensures
            parsed_as(input@, read_ratio(input@), result),
    {
        AspectRatio::parse(input)
    }
}

} // verus!
