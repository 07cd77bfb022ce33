//! Small verified building blocks: a guess that is held to the range from
//! 1 to 100, the decimal text of an integer, a greeting, rectangles that
//! can be compared by containment, and a restaurant laid out in modules.

pub mod decimal;
pub mod greeting;
pub mod guess;
pub mod rectangle;
pub mod restaurant;
pub mod text;
