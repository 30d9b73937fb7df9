//! The space around a picture, relative to the picture's size.
use crate::decimal::{numeral, read_decimal, Decimal, DecimalFault, BILLION};
use crate::errors::OliframeError;
use crate::geometry::border::Border;
use crate::geometry::size::Size;
use crate::ratio::{round_div, round_div_u128, saturate_u32, saturating_u32, Ratio};
use crate::text::{chars_of, string_of};
use vstd::prelude::*;
use vstd::string::*;

verus! {

/// The pattern of one number in a list of margins: an optional minus sign
/// and digits, with at most one point before the last digits.
pub const NUMBER_PATTERN: &'static str = r"-?\d*\.?\d+";

#[verifier::external_type_specification]
#[verifier::external_body]
pub struct ExRegex(regex::Regex);

/// The text is a regular expression that can be compiled.
pub uninterp spec fn regex_compiles(pattern: Seq<char>) -> bool;

/// The pattern that a regular expression was compiled from.
pub uninterp spec fn regex_pattern(regex: regex::Regex) -> Seq<char>;

/// The regular expression was built with the default options, so that its
/// pattern alone says what it matches.
pub uninterp spec fn regex_default(regex: regex::Regex) -> bool;

/// The parts of `text` that match the regular expression `pattern`, one
/// after the other from left to right, without overlap.
pub uninterp spec fn regex_matches(pattern: Seq<char>, text: Seq<char>) -> Seq<Seq<char>>;

/// The parts of `text` that count as numbers; `None` where `pattern` is no
/// regular expression.
pub open spec fn numbers_in(pattern: Seq<char>, text: Seq<char>) -> Option<Seq<Seq<char>>> {
    if regex_compiles(pattern) {
        Some(regex_matches(pattern, text))
    } else {
        None
    }
}

/// The regular expression that `pattern` spells, if it spells one.
///
/// Trusted: `Regex::new` of the crate `regex`, which compiles the pattern
/// with the default options or refuses it. Claimed: whether it compiles
/// depends on the pattern alone, and the compiled expression is that of the
/// pattern, built with the default options.
#[verifier::external_body]
fn compile(pattern: &str) -> (compiled: Option<regex::Regex>)
    ensures
        compiled is Some <==> regex_compiles(pattern@),
        compiled matches Some(regex) ==> regex_pattern(regex) == pattern@ && regex_default(regex),
{
    regex::Regex::new(pattern).ok()
}

/// The parts of `text` that match `regex`, which must be one built with
/// the default options.
///
/// Trusted: `Regex::find_iter` of the crate `regex`, which yields the
/// successive matches in the text that do not overlap; each is handed on as
/// the text it matched. Claimed, of an expression with the default options
/// only: the matches depend on the pattern and the text alone. An expression
/// built with other options could share the pattern and match otherwise,
/// which is why those are left out.
#[verifier::external_body]
fn find_all(regex: &regex::Regex, text: &str) -> (found: Vec<String>)
    requires
        regex_default(*regex),
    ensures
        found.deep_view() == regex_matches(regex_pattern(*regex), text@),
{
    regex.find_iter(text).map(|found| found.as_str().to_string()).collect()
}

/// Relative margins: between one and four fractions of the mean of a
/// picture's width and height.
///
/// - one value: all four sides;
/// - two values: top and bottom, then left and right;
/// - three values: top, then left and right, then bottom;
/// - four values: top, right, bottom, left.
#[derive(Debug)]
pub struct Margins {
    values: Vec<Ratio>,
}

/// The pixels that the margin `value` takes of a picture of size `size`:
/// `value` times the mean of width and height, rounded to the nearest pixel.
pub open spec fn margin_pixels(value: Ratio, size: Size) -> int {
    saturate_u32(round_div(value.num() * (size.width + size.height), 2 * (value.den() as int)))
}

/// The border that the margins `values` give a picture of size `size`.
pub open spec fn border_of(values: Seq<Ratio>, size: Size) -> Border {
    let px = |i: int| margin_pixels(values[i], size) as u32;
    if values.len() == 1 {
        Border { top: px(0), right: px(0), bottom: px(0), left: px(0) }
    } else if values.len() == 2 {
        Border { top: px(0), right: px(1), bottom: px(0), left: px(1) }
    } else if values.len() == 3 {
        Border { top: px(0), right: px(1), bottom: px(2), left: px(1) }
    } else {
        Border { top: px(0), right: px(1), bottom: px(2), left: px(3) }
    }
}

/// The margin that the number `value` stands for: itself, or its hundredth
/// where it is above one and so is meant as a percentage.
pub open spec fn margin_of(value: Decimal) -> (nat, nat) {
    if value.exceeds_one() {
        (value.billionths as nat, (100 * BILLION) as nat)
    } else {
        (value.billionths as nat, BILLION as nat)
    }
}

/// The numbers `values` can be margins: there are one to four, none negative.
pub open spec fn acceptable(values: Seq<Decimal>) -> bool {
    &&& 1 <= values.len() <= 4
    &&& forall|i: int| 0 <= i < values.len() ==> !(#[trigger] values[i]).is_negative()
}

/// The message for a list of `count` values, which is not one to four.
pub open spec fn count_message(text: Seq<char>, count: nat) -> bool {
    exists|digits: Seq<char>|
        {
            &&& crate::decimal::is_numeral(digits, count)
            &&& text == "Margins must be specified with 1-4 positive values (received "@ + digits
                + " values)."@
        }
}

/// What [`Margins::try_new`] owes for the numbers `values`.
pub open spec fn made_of(values: Seq<Decimal>, result: Result<Margins, OliframeError>) -> bool {
    if !(1 <= values.len() <= 4) {
        &&& result matches Err(OliframeError::InvalidInput(detail))
        &&& count_message(detail@, values.len())
    } else if !acceptable(values) {
        &&& result matches Err(OliframeError::InvalidInput(detail))
        &&& detail@ == "Negative margin values are not allowed."@
    } else {
        &&& result matches Ok(margins)
        &&& margins.wf()
        &&& margins@.len() == values.len()
        &&& forall|i: int|
            0 <= i < values.len() ==> ((#[trigger] margins@[i]).num(), margins@[i].den())
                == margin_of(values[i])
    }
}

/// The numbers that the texts `tokens` denote, or the fault of the first of
/// them that is not read.
pub open spec fn read_all(tokens: Seq<Seq<char>>) -> Result<Seq<Decimal>, DecimalFault>
    decreases tokens.len(),
{
    if tokens.len() == 0 {
        Ok(Seq::empty())
    } else {
        match read_all(tokens.drop_last()) {
            Err(fault) => Err(fault),
            Ok(values) => match read_decimal(tokens.last()) {
                Ok(value) => Ok(values.push(value)),
                Err(fault) => Err(fault),
            },
        }
    }
}

/// The message for a margin that is not read for the fault `fault`.
pub open spec fn fault_message(fault: DecimalFault) -> Seq<char> {
    match fault {
        DecimalFault::NotANumber => "Invalid margin value."@,
        DecimalFault::TooPrecise => "Margin values can have at most nine decimal places."@,
        DecimalFault::TooLarge => "Margin values are too large."@,
    }
}

/// A fault among the first `k` texts is the fault of the whole list.
proof fn lemma_read_all_fails(tokens: Seq<Seq<char>>, k: int)
    requires
        0 <= k <= tokens.len(),
        read_all(tokens.take(k)) is Err,
    ensures
        read_all(tokens) == read_all(tokens.take(k)),
    decreases tokens.len() - k,
{
    if k < tokens.len() {
        assert(tokens.take(k + 1).drop_last() == tokens.take(k));
        lemma_read_all_fails(tokens, k + 1);
    } else {
        assert(tokens.take(k) == tokens);
    }
}

/// What [`Margins::from_tokens`] owes for the texts `tokens`.
pub open spec fn made_of_tokens(
    tokens: Seq<Seq<char>>,
    result: Result<Margins, OliframeError>,
) -> bool {
    match read_all(tokens) {
        Ok(values) => made_of(values, result),
        Err(fault) => {
            &&& result matches Err(OliframeError::InvalidInput(detail))
            &&& detail@ == fault_message(fault)
        },
    }
}

/// What [`Margins::parse`] owes for a text with the given numbers in it.
pub open spec fn made_of_matches(
    matches: Option<Seq<Seq<char>>>,
    result: Result<Margins, OliframeError>,
) -> bool {
    match matches {
        Some(tokens) => made_of_tokens(tokens, result),
        None => {
            &&& result matches Err(OliframeError::InvalidInput(detail))
            &&& detail@ == "Invalid margin value."@
        },
    }
}

impl View for Margins {
    type V = Seq<Ratio>;

    closed spec fn view(&self) -> Seq<Ratio> {
        self.values@
    }
}

impl Margins {
    #[verifier::type_invariant]
    spec fn one_to_four(self) -> bool {
        1 <= self.values@.len() <= 4
    }

    /// What all margins that executable code holds satisfy.
    pub open spec fn wf(self) -> bool {
        &&& 1 <= self@.len() <= 4
        &&& forall|i: int| 0 <= i < self@.len() ==> (#[trigger] self@[i]).wf()
    }

    /// The values of the margins.
    pub fn values(&self) -> (values: &Vec<Ratio>)
        ensures
            values@ == self@,
            1 <= values@.len() <= 4,
    {
        proof {
            use_type_invariant(self);
        }
        &self.values
    }

    /// The pixels that the margin at place `index` takes of a picture of
    /// size `size`.
    fn pixels(&self, index: usize, size: &Size) -> (px: u32)
        requires
            index < self@.len(),
        ensures
            px == margin_pixels(self@[index as int], *size),
    {
        let value = &self.values[index];
        let span: u64 = size.width as u64 + size.height as u64;
        let numerator = value.numerator();
        let denominator = value.denominator();
        assert(numerator * span <= u64::MAX * (2 * u32::MAX)) by (nonlinear_arith)
            requires
                numerator <= u64::MAX,
                span <= 2 * u32::MAX,
        ;
        saturating_u32(
            round_div_u128((numerator as u128) * (span as u128), 2 * (denominator as u128)),
        )
    }

    /// The border in pixels that the margins give a picture of size `size`.
    pub fn to_border_with_size(&self, size: &Size) -> (border: Border)
        ensures
            border == border_of(self@, *size),
    {
        proof {
            use_type_invariant(self);
        }
        let count = self.values.len();
        if count == 1 {
            let side = self.pixels(0, size);
            Border::new(side, side, side, side)
        } else if count == 2 {
            let vertical = self.pixels(0, size);
            let horizontal = self.pixels(1, size);
            Border::new(vertical, horizontal, vertical, horizontal)
        } else if count == 3 {
            let top = self.pixels(0, size);
            let side = self.pixels(1, size);
            let bottom = self.pixels(2, size);
            Border::new(top, side, bottom, side)
        } else {
            let top = self.pixels(0, size);
            let right = self.pixels(1, size);
            let bottom = self.pixels(2, size);
            let left = self.pixels(3, size);
            Border::new(top, right, bottom, left)
        }
    }

    /// Margins of the given numbers. There must be one to four of them, none
    /// negative; a number above one is taken as a percentage.
    pub fn try_new(values: Vec<Decimal>) -> (result: Result<Margins, OliframeError>)
        ensures
            made_of(values@, result),
    {
        let count = values.len();
        if count < 1 || count > 4 {
            let digits = numeral(count as u64);
            let shown = string_of(&digits);
            let detail = String::from_str(
                "Margins must be specified with 1-4 positive values (received ",
            ).concat(shown.as_str()).concat(" values).");
            return Err(OliframeError::InvalidInput(detail));
        }
        let mut ratios: Vec<Ratio> = Vec::new();
        let mut i: usize = 0;
        while i < count
            invariant
                i <= count,
                count == values.len(),
                1 <= count <= 4,
                ratios@.len() == i,
                forall|j: int| 0 <= j < i ==> !(#[trigger] values@[j]).is_negative(),
                forall|j: int|
                    0 <= j < i ==> (#[trigger] ratios@[j]).wf() && (ratios@[j].num(), ratios@[j].den())
                        == margin_of(values@[j]),
            decreases count - i,
        {
            let value = values[i];
            let denominator: u64 = if !value.negative && value.billionths > BILLION {
                100 * BILLION
            } else {
                BILLION
            };
            if value.negative() {
                return Err(
                    OliframeError::InvalidInput(
                        String::from_str("Negative margin values are not allowed."),
                    ),
                );
            }
            match Ratio::new(value.billionths, denominator) {
                Some(ratio) => ratios.push(ratio),
                None => {},
            }
            i += 1;
        }
        Ok(Margins { values: ratios })
    }

    /// Margins of the numbers that the given texts denote.
    pub fn from_tokens(tokens: &Vec<String>) -> (result: Result<Margins, OliframeError>)
        ensures
            made_of_tokens(tokens.deep_view(), result),
    {
        let ghost texts = tokens.deep_view();
        let mut values: Vec<Decimal> = Vec::new();
        let mut i: usize = 0;
        assert(texts.take(0) == Seq::<Seq<char>>::empty());
        while i < tokens.len()
            invariant
                i <= tokens.len(),
                texts == tokens.deep_view(),
                texts.len() == tokens.len(),
                read_all(texts.take(i as int)) == Ok::<Seq<Decimal>, DecimalFault>(values@),
            decreases tokens.len() - i,
        {
            proof {
                assert(texts[i as int] == tokens@[i as int]@);
                assert(texts.take(i + 1).drop_last() == texts.take(i as int));
                assert(texts.take(i + 1).last() == texts[i as int]);
            }
            match Decimal::parse(&chars_of(tokens[i].as_str())) {
                Ok(value) => values.push(value),
                Err(fault) => {
                    proof {
                        lemma_read_all_fails(texts, i + 1);
                    }
                    let detail = match fault {
                        DecimalFault::NotANumber => String::from_str("Invalid margin value."),
                        DecimalFault::TooPrecise => String::from_str(
                            "Margin values can have at most nine decimal places.",
                        ),
                        DecimalFault::TooLarge => String::from_str("Margin values are too large."),
                    };
                    return Err(OliframeError::InvalidInput(detail));
                },
            }
            i += 1;
        }
        assert(texts.take(tokens.len() as int) == texts);
        Margins::try_new(values)
    }

    /// Reads margins from what a user wrote: every number in the text counts,
    /// whatever stands between the numbers.
    pub fn parse(input: &str) -> (result: Result<Margins, OliframeError>)
        ensures
            made_of_matches(numbers_in(NUMBER_PATTERN@, input@), result),
    {
        match compile(NUMBER_PATTERN) {
            Some(regex) => Margins::from_tokens(&find_all(&regex, input)),
            None => Err(OliframeError::InvalidInput(String::from_str("Invalid margin value."))),
        }
    }
}

impl Clone for Margins {
    fn clone(&self) -> (copy: Margins)
        ensures
            copy@ == self@,
    {
        proof {
            use_type_invariant(self);
        }
        let mut values: Vec<Ratio> = Vec::new();
        let mut i: usize = 0;
        while i < self.values.len()
            invariant
                i <= self.values.len(),
                values@ == self.values@.take(i as int),
            decreases self.values.len() - i,
        {
            values.push(self.values[i]);
            assert(self.values@.take(i as int).push(self.values@[i as int]) == self.values@.take(
                i + 1,
            ));
            i += 1;
        }
        assert(self.values@.take(self.values.len() as int) == self.values@);
        Margins { values }
    }
}

impl Default for Margins {
    /// Margins of five percent on all sides.
    fn default() -> (margins: Margins)
        ensures
            margins.wf(),
            margins@.len() == 1,
            margins@[0].num() == 5 * BILLION,
            margins@[0].den() == 100 * BILLION,
    {
        let mut values: Vec<Ratio> = Vec::new();
        match Ratio::new(5 * BILLION, 100 * BILLION) {
            Some(ratio) => values.push(ratio),
            None => {},
        }
        Margins { values }
    }
}

impl std::str::FromStr for Margins {
    type Err = OliframeError;

    fn from_str(input: &str) -> (result: Result<Margins, OliframeError>)
        ensures
            made_of_matches(numbers_in(NUMBER_PATTERN@, input@), result),
    {
        Margins::parse(input)
    }
}

} // verus!
