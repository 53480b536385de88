//! The name of the application.

use vstd::prelude::*;

verus! {

/// The name of the application, as window titles show it.
pub const NAME: &'static str = "NihonRS";

} // verus!
