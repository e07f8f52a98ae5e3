//! Sine, cosine, logarithms, the exponential, powers and roots, computed by
//! series expansions and fixed-count iteration over any type that provides
//! the arithmetic of [`Scalar`].

pub mod scalar;
pub mod log;
pub mod pow;
pub mod rads_degs;
pub mod roots;
pub mod series;
pub mod sine_cosine;

pub use scalar::{precision_count, Scalar, DEFAULT_PRECISION};
pub use log::{lb, lg, ln, log};
pub use pow::{exp, pow, powf};
pub use rads_degs::{degrees, radians, Degrees, Radians};
pub use roots::{root, sqrt};
pub use series::{summation, TermSource};
pub use sine_cosine::{cos, sin};
