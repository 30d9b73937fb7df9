//! The values that describe a frame: sizes, points, borders, margins, aspect
//! ratios and relative positions.
pub mod aspect_ratio;
pub mod border;
pub mod margins;
pub mod point;
pub mod relative_position;
pub mod size;
pub mod units;

pub use aspect_ratio::AspectRatio;
pub use border::Border;
pub use margins::Margins;
pub use point::Point;
pub use relative_position::{HorizontalPosition, RelativePosition, VerticalPosition};
pub use size::Size;
pub use units::Unit;
