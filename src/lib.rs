//! Small verified building blocks: a range-checked guess, a shoe counter,
//! string helpers, the largest element of a slice, and sums, maps and
//! filters over integers.

pub mod guess;
pub mod shoe;
pub mod text;
pub mod largest;
pub mod numbers;
