//! A verified counter state machine over 256-bit unsigned arithmetic.
//!
//! The library owns two things: a fixed-width 256-bit unsigned integer type
//! with overflow-checked arithmetic, and the counter state machine that uses
//! it. Both are specified against a mathematical model (`nat`) and verified.

pub mod counter;
pub mod u256;
