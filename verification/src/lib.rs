//! Worked examples of core Rust features, one module per chapter.
//!
//! Every example computes the lines it has to show and hands them back, so
//! that what an example prints is part of its contract. Printing, the file
//! system and floating-point numbers are left to the caller.

pub mod text;
pub mod numbers;
pub mod scores;
pub mod chapter1;
pub mod chapter2;
pub mod chapter3;
pub mod chapter5;
pub mod chapter6;
pub mod chapter7;
pub mod chapter9;
pub mod selector;
