//! Plain identifiers shared by every part of the engine.

use vstd::prelude::*;

verus! {

/// A tradable instrument, known by the number the caller's instrument table gives it.
#[derive(Copy, Clone, Debug, PartialEq, Eq, Hash, Structural)]
pub struct Instrument(pub u64);

/// A trading venue, known by the number the caller's venue table gives it.
#[derive(Copy, Clone, Debug, PartialEq, Eq, Hash, Structural)]
pub struct Exchange(pub u64);

/// Direction of an order or of a trade.
#[derive(Copy, Clone, Debug, PartialEq, Eq, Hash, Structural)]
pub enum Side {
    Buy,
    Sell,
}

impl Side {
    /// The side on which a signed quantity trades: positive buys, negative sells.
    pub open spec fn of_quantity(quantity: int) -> Side {
        if quantity >= 0 {
            Side::Buy
        } else {
            Side::Sell
        }
    }

    /// The side that a signed quantity trades on.
    pub fn from_quantity(quantity: i64) -> (side: Side)
        ensures
            side == Side::of_quantity(quantity as int),
    {
        if quantity >= 0 {
            Side::Buy
        } else {
            Side::Sell
        }
    }

    /// The other side.
    pub open spec fn spec_opposite(self) -> Side {
        match self {
            Side::Buy => Side::Sell,
            Side::Sell => Side::Buy,
        }
    }

    /// The other side.
    #[verifier::when_used_as_spec(spec_opposite)]
    pub fn opposite(self) -> (side: Side)
        ensures
            side == self.spec_opposite(),
    {
        match self {
            Side::Buy => Side::Sell,
            Side::Sell => Side::Buy,
        }
    }
}

} // verus!
