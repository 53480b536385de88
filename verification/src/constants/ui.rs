//! Limits of the user interface.

use vstd::prelude::*;

verus! {

/// The smallest font size that can be set, in pixels.
pub const MIN_FONT_SIZE: u16 = 12;

/// The largest font size that can be set, in pixels.
pub const MAX_FONT_SIZE: u16 = 32;

/// The font size the application starts with, in pixels.
pub const DEFAULT_FONT_SIZE: u16 = 18;

} // verus!
