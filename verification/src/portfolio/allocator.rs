//! Allocation: how large an order a decision gets.

use crate::fixed::{div_scaled, mul_scaled, scaled_product, scaled_quotient};
use crate::portfolio::position::Position;
use crate::strategy::{Decision, SignalStrength};
use vstd::prelude::*;

verus! {

/// Allocates to every entry the same order value, scaled by the strength of
/// the signal, and to every exit the whole position.
#[derive(Copy, Clone, Debug, PartialEq, Eq)]
pub struct Allocator {
    /// Value of an entry order at full signal strength, in fixed-point quote
    /// units.
    pub default_order_value: u64,
}

impl Allocator {
    /// Size of an entry order: the default order value times the strength,
    /// divided by the price. `None` where the price is zero or the size is zero
    /// or too large for an order.
    pub open spec fn entry_size(&self, strength: SignalStrength, close: u64) -> Option<i64> {
        let value = scaled_product(self.default_order_value as int, strength.0 as int);
        if value > u64::MAX || close == 0 {
            None
        } else {
            let size = scaled_quotient(value, close as int);
            if 0 < size <= i64::MAX {
                Some(size as i64)
            } else {
                None
            }
        }
    }

    /// The signed quantity to order for `decision`: for an entry its size, with
    /// the sign of its direction; for an exit the whole of `position`, negated.
    /// `None` where nothing is to be ordered.
    pub open spec fn allocation(
        &self,
        decision: Decision,
        strength: SignalStrength,
        close: u64,
        position: Option<Position>,
    ) -> Option<i64> {
        match decision {
            Decision::Long => self.entry_size(strength, close),
            Decision::Short => match self.entry_size(strength, close) {
                Some(size) => Some((-size) as i64),
                None => None,
            },
            Decision::CloseLong | Decision::CloseShort => match position {
                Some(position) => Some((-position.quantity) as i64),
                None => None,
            },
        }
    }

    /// The signed quantity to order for `decision`, or `None` where nothing is
    /// to be ordered. The same inputs always give the same quantity.
    pub fn allocate_order(
        &self,
        decision: Decision,
        strength: SignalStrength,
        close: u64,
        position: Option<Position>,
    ) -> (quantity: Option<i64>)
        requires
            position matches Some(held) ==> held.wf(),
        ensures
            quantity == self.allocation(decision, strength, close, position),
            quantity matches Some(ordered) ==> ordered != 0 && ordered > i64::MIN,
    {
        match decision {
            Decision::Long => self.size_entry(strength, close),
            Decision::Short => match self.size_entry(strength, close) {
                Some(size) => Some(-size),
                None => None,
            },
            Decision::CloseLong | Decision::CloseShort => match position {
                Some(position) => Some(-position.quantity),
                None => None,
            },
        }
    }

    fn size_entry(&self, strength: SignalStrength, close: u64) -> (size: Option<i64>)
        ensures
            size == self.entry_size(strength, close),
            size matches Some(ordered) ==> ordered > 0,
    {
        let value: u64 = match mul_scaled(self.default_order_value, strength.0) {
            Some(value) => value,
            None => {
                return None;
            },
        };
        match div_scaled(value, close) {
            Some(size) => {
                if 0 < size && size <= i64::MAX as u64 {
                    Some(size as i64)
                } else {
                    None
                }
            },
            None => None,
        }
    }
}

} // verus!
