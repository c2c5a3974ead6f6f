//! Risk: whether an order that the allocator proposes may go out, and how
//! large.

use crate::fixed::{abs_i64, magnitude, mul_scaled, scaled_product};
use crate::strategy::Decision;
use vstd::prelude::*;

verus! {

/// Bounds every entry by a largest position, and every purchase by the cash
/// that is free.
#[derive(Copy, Clone, Debug, PartialEq, Eq)]
pub struct Risk {
    /// Largest size of a position, as a fixed-point quantity.
    pub max_position_quantity: u64,
}

impl Risk {
    /// The bound is a size that a position can have.
    pub open spec fn wf(&self) -> bool {
        0 < self.max_position_quantity <= i64::MAX
    }

    /// The proposed quantity, cut down to the largest position where it is an
    /// entry beyond it.
    pub open spec fn capped(&self, decision: Decision, quantity: i64) -> i64 {
        if decision.is_entry() && magnitude(quantity as int) > self.max_position_quantity {
            if quantity > 0 {
                self.max_position_quantity as i64
            } else {
                (-(self.max_position_quantity as int)) as i64
            }
        } else {
            quantity
        }
    }

    /// What risk makes of the proposal to order `quantity` for `decision`.
    /// Vetoed (`None`) where an order on the same side of the instrument has not
    /// ended yet (`duplicate`), or a purchase would cost more than the cash
    /// that is `free`; else passed, an entry cut down to the largest position.
    pub open spec fn evaluation(
        &self,
        decision: Decision,
        quantity: i64,
        close: u64,
        free: u64,
        duplicate: bool,
    ) -> Option<i64> {
        let capped = self.capped(decision, quantity);
        if duplicate {
            None
        } else if capped > 0 && scaled_product(capped as int, close as int) > free {
            None
        } else {
            Some(capped)
        }
    }

    /// Passes, shrinks or vetoes the proposal to order `quantity` for
    /// `decision`.
    pub fn evaluate_order(
        &self,
        decision: Decision,
        quantity: i64,
        close: u64,
        free: u64,
        duplicate: bool,
    ) -> (approved: Option<i64>)
        requires
            self.wf(),
        ensures
            approved == self.evaluation(decision, quantity, close, free, duplicate),
            approved matches Some(ordered) ==> (ordered > 0) == (quantity > 0) && (quantity != 0
                ==> ordered != 0) && (quantity > i64::MIN ==> ordered > i64::MIN),
    {
        if duplicate {
            return None;
        }
        let capped: i64 = if decision.is_entry() && abs_i64(quantity) > self.max_position_quantity {
            if quantity > 0 {
                self.max_position_quantity as i64
            } else {
                -(self.max_position_quantity as i64)
            }
        } else {
            quantity
        };
        if capped > 0 {
            match mul_scaled(capped as u64, close) {
                Some(notional) => {
                    if notional > free {
                        return None;
                    }
                },
                None => {
                    return None;
                },
            }
        }
        Some(capped)
    }
}

} // verus!
