//! Verified core of a Direct2D binding: the value types that cross the
//! Direct2D boundary (enumerations, option flags, render tags, wide text)
//! and the decisions the binding takes on what Direct2D hands back.
pub mod enums;
pub mod error;
pub mod render_target;
pub mod wide;
