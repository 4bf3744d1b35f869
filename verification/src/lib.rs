//! Ordinal number types.
//!
//! Ordinal numbers (_first, second, third, ..._) are usually represented as 0-based or
//! 1-based integers. In English and most other natural languages they are 1-based:
//! first = 1st, second = 2nd, third = 3rd and so on. Most programming languages count
//! from zero: the first element of an array has the index 0.
//!
//! To make working with ordinal numbers more explicit and less error-prone, this library
//! provides ordinal number types that are converted to and from integers by functions
//! that say whether the integer is 0-based or 1-based: `Osize::from0(3)` is the _4th_
//! ordinal, `Osize::from1(3)` the _third_. There is one type for each unsigned integer
//! type, and they all implement [`Ordinal`]. [`ordinal0`] and [`ordinal1`] create an
//! ordinal of the type that the context asks for.
//!
//! Ordinal numbers can be compared, hashed and copied, and
//! [written in English](Ordinal::to_string). An integer can be added to an ordinal or
//! subtracted from it; subtracting an ordinal from an ordinal gives an integer. The
//! default value is _first_.
//!
//! # What is proved
//!
//! Every function of this library is verified: it does not overflow or panic when its
//! precondition holds, and it returns what its postcondition says. The contracts speak
//! of an ordinal by its [offset](Ordinal::offset), the number of ordinals before it.
//! The highest number of an integer type is the offset of no ordinal, so the 1-based
//! integer of an ordinal always fits its type. What follows for every ordinal type is
//! proved in [`laws`].

pub mod laws;
pub mod o128;
pub mod o16;
pub mod o32;
pub mod o64;
pub mod o8;
pub mod ordinal;
pub mod osize;
pub mod text;

pub use o128::O128;
pub use o16::O16;
pub use o32::O32;
pub use o64::O64;
pub use o8::O8;
pub use ordinal::{ordinal0, ordinal1, Ordinal};
pub use osize::Osize;
