//! A window-procedure subclassing engine.
//!
//! The engine decides; it performs nothing itself. Each entry point takes what
//! the operating system reported as plain values and returns the operations
//! that the embedding layer must carry out, in order.

use vstd::prelude::*;

pub mod win32;
pub mod window;
pub mod locator;
pub mod effect;
pub mod handlers;
pub mod position;
pub mod interceptor;
pub mod lifecycle;
pub mod desktop;

verus! {

/// Sum of two machine words.
pub fn add(left: usize, right: usize) -> (sum: usize)
    requires
        left + right <= usize::MAX,
    ensures
        sum == left + right,
{
    left + right
}

} // verus!
