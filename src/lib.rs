//! Two small value types: a user account record and an axis-aligned
//! rectangle with its area and a strict containment test.

pub mod rectangle;
pub mod user;

pub use rectangle::Rectangle;
pub use user::{User, UserView};
