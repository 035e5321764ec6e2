//! Combinators that let the consumer of a `Result` declare some of its errors
//! acceptable: such an error is turned into a success (or into a success that
//! holds no value), while every other error passes through untouched.
mod outcome;
mod tools;

pub use outcome::{classify, settled};
pub use tools::{ResultToolsA, ResultToolsB, ResultToolsC, ResultToolsD};
