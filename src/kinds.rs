//! The colors of the RYB color model.
use vstd::prelude::*;

verus! {

/// The primary colors according to the RYB color model.
#[derive(PartialEq, Eq, Structural, Debug, Clone, Copy)]
pub enum PrimaryColor {
    Red,
    Yellow,
    Blue,
}

/// The secondary colors according to the RYB color model.
#[derive(PartialEq, Eq, Structural, Debug, Clone, Copy)]
pub enum SecondaryColor {
    Orange,
    Green,
    Purple,
}

} // verus!
