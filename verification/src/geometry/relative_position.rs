//! Where a picture sits on a canvas that is larger than picture and border.
use crate::errors::OliframeError;
use crate::text::{chars_of, contains, has_infix, same_text};
use vstd::prelude::*;
use vstd::string::*;

verus! {

/// The place of a picture between the left and the right edge.
#[derive(Clone, Copy, Debug, PartialEq, Eq, Structural)]
pub enum HorizontalPosition {
    /// Against the left border.
    Left,
    /// In the middle.
    Center,
    /// Against the right border.
    Right,
}

/// The place of a picture between the top and the bottom edge.
#[derive(Clone, Copy, Debug, PartialEq, Eq, Structural)]
pub enum VerticalPosition {
    /// Against the top border.
    Top,
    /// In the middle.
    Center,
    /// Against the bottom border.
    Bottom,
}

/// The place of a picture on its canvas, one value for each axis.
#[derive(Clone, Copy, Debug, PartialEq, Eq, Structural)]
pub struct RelativePosition {
    /// The place between left and right.
    pub horizontal: HorizontalPosition,
    /// The place between top and bottom.
    pub vertical: VerticalPosition,
}

/// The horizontal position that the text `s` names: the one whose word
/// occurs in it, the centre where neither `left` nor `right` occurs, and
/// `None` where both do.
pub open spec fn read_horizontal(s: Seq<char>) -> Option<HorizontalPosition> {
    let left = has_infix(s, "left"@);
    let right = has_infix(s, "right"@);
    if left && right {
        None
    } else if left {
        Some(HorizontalPosition::Left)
    } else if right {
        Some(HorizontalPosition::Right)
    } else {
        Some(HorizontalPosition::Center)
    }
}

/// The vertical position that the text `s` names: the one whose word occurs
/// in it, the centre where neither `top` nor `bottom` occurs, and `None`
/// where both do.
pub open spec fn read_vertical(s: Seq<char>) -> Option<VerticalPosition> {
    let top = has_infix(s, "top"@);
    let bottom = has_infix(s, "bottom"@);
    if top && bottom {
        None
    } else if top {
        Some(VerticalPosition::Top)
    } else if bottom {
        Some(VerticalPosition::Bottom)
    } else {
        Some(VerticalPosition::Center)
    }
}

/// What [`RelativePosition::parse`] owes for the text `s`.
pub open spec fn read_position(s: Seq<char>, result: Result<RelativePosition, OliframeError>) -> bool {
    match (read_horizontal(s), read_vertical(s)) {
        (None, _) => {
            &&& result matches Err(OliframeError::InvalidInput(detail))
            &&& detail@ == "Please provide only one horizontal position."@
        },
        (Some(_), None) => {
            &&& result matches Err(OliframeError::InvalidInput(detail))
            &&& detail@ == "Please provide only one vertical position."@
        },
        (Some(horizontal), Some(vertical)) => result == Ok::<RelativePosition, OliframeError>(
            RelativePosition { horizontal, vertical },
        ),
    }
}

impl HorizontalPosition {
    /// The word for the position.
    pub open spec fn word(self) -> Seq<char> {
        match self {
            HorizontalPosition::Left => "left"@,
            HorizontalPosition::Center => "center"@,
            HorizontalPosition::Right => "right"@,
        }
    }

    /// The word for the position.
    pub fn as_str(&self) -> (word: &'static str)
        ensures
            word@ == self.word(),
    {
        match self {
            HorizontalPosition::Left => "left",
            HorizontalPosition::Center => "center",
            HorizontalPosition::Right => "right",
        }
    }

    /// The position that `text` is the word for.
    pub fn parse(text: &str) -> (position: Option<HorizontalPosition>)
        ensures
            position matches Some(p) ==> text@ == p.word(),
            position is None ==> forall|p: HorizontalPosition| text@ != p.word(),
    {
        let chars = chars_of(text);
        if same_text(&chars, &chars_of("left")) {
            Some(HorizontalPosition::Left)
        } else if same_text(&chars, &chars_of("center")) {
            Some(HorizontalPosition::Center)
        } else if same_text(&chars, &chars_of("right")) {
            Some(HorizontalPosition::Right)
        } else {
            None
        }
    }

    /// The position that a text names by containing its word.
    pub fn extract(text: &Vec<char>) -> (position: Option<HorizontalPosition>)
        ensures
            position == read_horizontal(text@),
    {
        let left = contains(text, &chars_of("left"));
        let right = contains(text, &chars_of("right"));
        if left && right {
            None
        } else if left {
            Some(HorizontalPosition::Left)
        } else if right {
            Some(HorizontalPosition::Right)
        } else {
            Some(HorizontalPosition::Center)
        }
    }
}

impl VerticalPosition {
    /// The word for the position.
    pub open spec fn word(self) -> Seq<char> {
        match self {
            VerticalPosition::Top => "top"@,
            VerticalPosition::Center => "center"@,
            VerticalPosition::Bottom => "bottom"@,
        }
    }

    /// The word for the position.
    pub fn as_str(&self) -> (word: &'static str)
        ensures
            word@ == self.word(),
    {
        match self {
            VerticalPosition::Top => "top",
            VerticalPosition::Center => "center",
            VerticalPosition::Bottom => "bottom",
        }
    }

    /// The position that `text` is the word for.
    pub fn parse(text: &str) -> (position: Option<VerticalPosition>)
        ensures
            position matches Some(p) ==> text@ == p.word(),
            position is None ==> forall|p: VerticalPosition| text@ != p.word(),
    {
        let chars = chars_of(text);
        if same_text(&chars, &chars_of("top")) {
            Some(VerticalPosition::Top)
        } else if same_text(&chars, &chars_of("center")) {
            Some(VerticalPosition::Center)
        } else if same_text(&chars, &chars_of("bottom")) {
            Some(VerticalPosition::Bottom)
        } else {
            None
        }
    }

    /// The position that a text names by containing its word.
    pub fn extract(text: &Vec<char>) -> (position: Option<VerticalPosition>)
        ensures
            position == read_vertical(text@),
    {
        let top = contains(text, &chars_of("top"));
        let bottom = contains(text, &chars_of("bottom"));
        if top && bottom {
            None
        } else if top {
            Some(VerticalPosition::Top)
        } else if bottom {
            Some(VerticalPosition::Bottom)
        } else {
            Some(VerticalPosition::Center)
        }
    }
}

impl RelativePosition {
    /// The place between left and right.
    pub fn horizontal(&self) -> (h: HorizontalPosition)
        ensures
            h == self.horizontal,
    {
        self.horizontal
    }

    /// The place between top and bottom.
    pub fn vertical(&self) -> (v: VerticalPosition)
        ensures
            v == self.vertical,
    {
        self.vertical
    }

    /// Reads a position from what a user wrote: the words `left`, `right`,
    /// `top` and `bottom` count wherever they occur; an axis that is not
    /// named is centred; two words for one axis are an error.
    pub fn parse(text: &str) -> (result: Result<RelativePosition, OliframeError>)
        ensures
            read_position(text@, result),
    {
        let chars = chars_of(text);
        let horizontal = match HorizontalPosition::extract(&chars) {
            Some(horizontal) => horizontal,
            None => {
                return Err(
                    OliframeError::InvalidInput(
                        String::from_str("Please provide only one horizontal position."),
                    ),
                );
            },
        };
        let vertical = match VerticalPosition::extract(&chars) {
            Some(vertical) => vertical,
            None => {
                return Err(
                    OliframeError::InvalidInput(
                        String::from_str("Please provide only one vertical position."),
                    ),
                );
            },
        };
        Ok(RelativePosition { horizontal, vertical })
    }
}

impl Default for HorizontalPosition {
    fn default() -> (position: HorizontalPosition)
        ensures
            position == HorizontalPosition::Center,
    {
        HorizontalPosition::Center
    }
}

impl Default for VerticalPosition {
    fn default() -> (position: VerticalPosition)
        ensures
            position == VerticalPosition::Center,
    {
        VerticalPosition::Center
    }
}

impl Default for RelativePosition {
    fn default() -> (position: RelativePosition)
        ensures
            position == (RelativePosition {
                horizontal: HorizontalPosition::Center,
                vertical: VerticalPosition::Center,
            }),
    {
        RelativePosition {
            horizontal: HorizontalPosition::Center,
            vertical: VerticalPosition::Center,
        }
    }
}

impl std::str::FromStr for HorizontalPosition {
    type Err = OliframeError;

    fn from_str(text: &str) -> (result: Result<HorizontalPosition, OliframeError>)
        ensures
            match result {
                Ok(position) => text@ == position.word(),
                Err(error) => {
                    &&& forall|position: HorizontalPosition| text@ != position.word()
                    &&& error matches OliframeError::InvalidInput(detail)
                    &&& detail@ == "Matching variant not found"@
                },
            },
    {
        match HorizontalPosition::parse(text) {
            Some(position) => Ok(position),
            None => Err(OliframeError::InvalidInput("Matching variant not found".to_owned())),
        }
    }
}

impl std::str::FromStr for VerticalPosition {
    type Err = OliframeError;

    fn from_str(text: &str) -> (result: Result<VerticalPosition, OliframeError>)
        ensures
            match result {
                Ok(position) => text@ == position.word(),
                Err(error) => {
                    &&& forall|position: VerticalPosition| text@ != position.word()
                    &&& error matches OliframeError::InvalidInput(detail)
                    &&& detail@ == "Matching variant not found"@
                },
            },
    {
        match VerticalPosition::parse(text) {
            Some(position) => Ok(position),
            None => Err(OliframeError::InvalidInput("Matching variant not found".to_owned())),
        }
    }
}

impl std::str::FromStr for RelativePosition {
    type Err = OliframeError;

    fn from_str(text: &str) -> (result: Result<RelativePosition, OliframeError>)
        ensures
            read_position(text@, result),
    {
        RelativePosition::parse(text)
    }
}

} // verus!
