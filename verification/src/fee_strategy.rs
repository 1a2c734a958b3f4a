//! The fee strategies the platform can be configured with.

use vstd::prelude::*;

verus! {

/// How the platform fee is computed.
#[derive(Clone, Copy, Debug, PartialEq, Eq, Structural)]
pub enum FeeStrategy {
    /// A fee in basis points of the amount.
    Percentage(u32),
    /// A fixed fee, whatever the amount.
    Flat(i128),
    /// A tiered fee, parameterised by basis points.
    Dynamic(u32),
}

} // verus!
