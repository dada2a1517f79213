//! Decisions and exact tables of a natural-gas metering calculator: menu
//! choices, the unit conversion table, and the rendering of fixed-point text.
use vstd::prelude::*;

pub mod units;
pub mod conversion;
pub mod choice;
pub mod render;
pub mod session;

verus! {

} // verus!
