//! A spin-based mutual-exclusion primitive.
//!
//! `Spinlock` guards one value and hands out exclusive access through a
//! [`Guard`] token produced by `lock`. The lock's protocol is the two-state
//! machine Unlocked/Locked: an acquisition poll wins the flag exactly when it
//! is free and moves the protected value into the guard; `unlock` returns the
//! value and clears the flag. The `sections` module states what serialized
//! critical sections guarantee about the protected value.

pub mod lock;
pub mod sections;

pub use lock::Guard;
pub use lock::Spinlock;
