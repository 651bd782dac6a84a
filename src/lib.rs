//! A four-week strength program ("Beyond 5/3/1") generated from three one-rep maxima.
//!
//! Every weight is held as a whole number of hundredths of a kilogram, and
//! every intensity as a whole percentage, so that each prescribed weight is
//! computed and rounded to the nearest 2.5 kg exactly.
pub mod display;
pub mod laws;
pub mod program;
pub mod weight;
