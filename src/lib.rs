//! Small closures-and-iterators library: a color-mixing rule, a single-slot
//! memoizing wrapper, a bounded counting sequence, and a size filter over shoes.
pub mod cacher;
pub mod counter;
pub mod kinds;
pub mod shoes;
pub mod utils;
pub mod workout;

pub use self::kinds::PrimaryColor;
pub use self::kinds::SecondaryColor;
pub use self::utils::mix;

use vstd::prelude::*;

verus! {

/// Adds one to the number given.
pub fn add_one(num: u32) -> (r: u32)
    requires
        num < u32::MAX,
    ensures
        r == num + 1,
{
    num + 1
}

/// A closure that reads a variable of the scope it was made in: it compares
/// its argument with the captured `x`, both four, and so answers `true`.
pub fn capturing_their_enviornment() -> (r: bool)
    ensures
        r,
{
    let x: u32 = 4;
    let equal_to_x = |z: u32| -> (b: bool)
        ensures
            b == (z == x),
        { z == x };
    let y: u32 = 4;
    equal_to_x(y)
}

} // verus!
