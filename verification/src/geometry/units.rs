//! The units in which a length can be given.
use crate::errors::OliframeError;
use crate::text::{chars_of, same_text};
use vstd::prelude::*;

verus! {

/// A unit of length.
#[derive(Clone, Copy, Debug, PartialEq, Eq, Structural)]
pub enum Unit {
    /// Pixels, written `px`.
    Pixel,
    /// Hundredths, written `%`.
    Percent,
}

impl Unit {
    /// The way the unit is written.
    pub open spec fn symbol(self) -> Seq<char> {
        match self {
            Unit::Pixel => "px"@,
            Unit::Percent => "%"@,
        }
    }

    /// The unit that `text` is the symbol of.
    pub fn parse(text: &str) -> (unit: Option<Unit>)
        ensures
            unit matches Some(u) ==> text@ == u.symbol(),
            unit is None ==> forall|u: Unit| text@ != u.symbol(),
    {
        let chars = chars_of(text);
        if same_text(&chars, &chars_of("px")) {
            Some(Unit::Pixel)
        } else if same_text(&chars, &chars_of("%")) {
            Some(Unit::Percent)
        } else {
            None
        }
    }
}

impl std::str::FromStr for Unit {
    type Err = OliframeError;

    fn from_str(text: &str) -> (result: Result<Unit, OliframeError>)
        ensures
            match result {
                Ok(unit) => text@ == unit.symbol(),
                Err(error) => {
                    &&& forall|unit: Unit| text@ != unit.symbol()
                    &&& error matches OliframeError::InvalidInput(detail)
                    &&& detail@ == "Matching variant not found"@
                },
            },
    {
        match Unit::parse(text) {
            Some(unit) => Ok(unit),
            None => Err(OliframeError::InvalidInput("Matching variant not found".to_owned())),
        }
    }
}

} // verus!
