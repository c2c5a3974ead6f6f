//! Positions: the net open exposure in one instrument, and what a fill does
//! to it.
//!
//! A position never crosses zero in one step. A fill against it that is larger
//! than it closes the position and opens a new one, in the other direction, for
//! what is left of the fill.

use crate::data::MarketMeta;
use crate::fixed::{abs_i64, magnitude, mul_scaled_signed, signed_scaled_product};
use crate::model::{Exchange, Instrument};
use crate::portfolio::error::PortfolioError;
use crate::portfolio::AccountEvent;
use vstd::prelude::*;

verus! {

/// Profit of holding `quantity`, bought or sold short at `entry_price`, when
/// the price stands at `price`. A negative quantity is a short position, which
/// gains as the price falls.
pub open spec fn profit(quantity: int, entry_price: int, price: int) -> int {
    signed_scaled_product(quantity, price - entry_price)
}

/// Average price of two lots, weighted by their sizes and rounded down.
pub open spec fn average_price(held: int, held_price: int, added: int, added_price: int) -> int {
    (magnitude(held) * held_price + magnitude(added) * added_price) / (magnitude(held)
        + magnitude(added))
}

/// Net open exposure in one instrument.
#[derive(Copy, Clone, Debug, PartialEq, Eq)]
pub struct Position {
    pub exchange: Exchange,
    pub instrument: Instrument,
    /// Metadata of the market observation that the position was entered on.
    pub meta: MarketMeta,
    /// Fixed-point quantity held; positive is long, negative is short.
    pub quantity: i64,
    /// Average price at which the quantity was entered.
    pub entry_price: u64,
    /// Price at which the position was last valued.
    pub current_price: u64,
    /// Profit of the position at `current_price`, not yet realised.
    pub unrealised_pnl: i128,
}

/// What a market observation changed in a position.
#[derive(Copy, Clone, Debug, PartialEq, Eq)]
pub struct PositionUpdate {
    pub instrument: Instrument,
    /// Time of the observation, in milliseconds since the Unix epoch.
    pub update_time: i64,
    pub current_price: u64,
    pub unrealised_pnl: i128,
}

/// What closing a position came to.
#[derive(Copy, Clone, Debug, PartialEq, Eq)]
pub struct PositionExit {
    pub exchange: Exchange,
    pub instrument: Instrument,
    /// Quantity that was held and has been closed.
    pub quantity: i64,
    pub entry_price: u64,
    pub exit_price: u64,
    /// Profit of the position at `exit_price`.
    pub realised_pnl: i128,
}

impl Position {
    /// A position holds something, and its quantity can be negated.
    pub open spec fn wf(&self) -> bool {
        self.quantity != 0 && self.quantity > i64::MIN
    }

    /// A position entered just now, for `quantity` at `price`.
    pub open spec fn spec_opened(
        exchange: Exchange,
        instrument: Instrument,
        meta: MarketMeta,
        quantity: i64,
        price: u64,
    ) -> Position {
        Position {
            exchange,
            instrument,
            meta,
            quantity,
            entry_price: price,
            current_price: price,
            unrealised_pnl: 0,
        }
    }

    /// The position valued at `price`.
    pub open spec fn spec_marked(&self, price: u64) -> Position {
        Position {
            current_price: price,
            unrealised_pnl: profit(
                self.quantity as int,
                self.entry_price as int,
                price as int,
            ) as i128,
            ..*self
        }
    }

    /// The position after `added`, of the same sign, joined it at `price`: the
    /// entry price becomes the average of the two lots.
    pub open spec fn spec_increased(&self, added: i64, price: u64) -> Position {
        let entry_price = average_price(
            self.quantity as int,
            self.entry_price as int,
            added as int,
            price as int,
        ) as u64;
        let joined = Position { quantity: (self.quantity + added) as i64, entry_price, ..*self };
        joined.spec_marked(price)
    }

    /// The position after `removed`, of the other sign and smaller, left it at
    /// `price`: the entry price stays.
    pub open spec fn spec_reduced(&self, removed: i64, price: u64) -> Position {
        Position { quantity: (self.quantity + removed) as i64, ..*self }.spec_marked(price)
    }

    /// What closing the whole position at `price` comes to.
    pub open spec fn spec_exit(&self, price: u64) -> PositionExit {
        PositionExit {
            exchange: self.exchange,
            instrument: self.instrument,
            quantity: self.quantity,
            entry_price: self.entry_price,
            exit_price: price,
            realised_pnl: profit(
                self.quantity as int,
                self.entry_price as int,
                price as int,
            ) as i128,
        }
    }

    /// What a market observation at `update_time` reports of the position.
    pub open spec fn spec_update(&self, update_time: i64) -> PositionUpdate {
        PositionUpdate {
            instrument: self.instrument,
            update_time,
            current_price: self.current_price,
            unrealised_pnl: self.unrealised_pnl,
        }
    }

    /// A position entered just now, for `quantity` at `price`.
    pub fn opened(
        exchange: Exchange,
        instrument: Instrument,
        meta: MarketMeta,
        quantity: i64,
        price: u64,
    ) -> (position: Position)
        ensures
            position == Position::spec_opened(exchange, instrument, meta, quantity, price),
    {
        Position {
            exchange,
            instrument,
            meta,
            quantity,
            entry_price: price,
            current_price: price,
            unrealised_pnl: 0,
        }
    }

    /// Profit of the position at `price`.
    pub fn profit_at(&self, price: u64) -> (pnl: i128)
        ensures
            pnl == profit(self.quantity as int, self.entry_price as int, price as int),
    {
        if price >= self.entry_price {
            mul_scaled_signed(self.quantity, false, price - self.entry_price)
        } else {
            mul_scaled_signed(self.quantity, true, self.entry_price - price)
        }
    }

    /// The position valued at `price`.
    #[verifier::when_used_as_spec(spec_marked)]
    pub fn marked(&self, price: u64) -> (position: Position)
        ensures
            position == self.spec_marked(price),
    {
        let unrealised_pnl: i128 = self.profit_at(price);
        Position {
            exchange: self.exchange,
            instrument: self.instrument,
            meta: self.meta,
            quantity: self.quantity,
            entry_price: self.entry_price,
            current_price: price,
            unrealised_pnl,
        }
    }

    /// What closing the whole position at `price` comes to.
    #[verifier::when_used_as_spec(spec_exit)]
    pub fn exit(&self, price: u64) -> (exit: PositionExit)
        ensures
            exit == self.spec_exit(price),
    {
        let realised_pnl: i128 = self.profit_at(price);
        PositionExit {
            exchange: self.exchange,
            instrument: self.instrument,
            quantity: self.quantity,
            entry_price: self.entry_price,
            exit_price: price,
            realised_pnl,
        }
    }

    /// What a market observation at `update_time` reports of the position.
    #[verifier::when_used_as_spec(spec_update)]
    pub fn update(&self, update_time: i64) -> (update: PositionUpdate)
        ensures
            update == self.spec_update(update_time),
    {
        PositionUpdate {
            instrument: self.instrument,
            update_time,
            current_price: self.current_price,
            unrealised_pnl: self.unrealised_pnl,
        }
    }

    /// The position after `added`, of the same sign, joined it at `price`.
    fn increased(&self, added: i64, price: u64) -> (position: Position)
        requires
            self.wf(),
            added != 0,
            (self.quantity > 0) == (added > 0),
            i64::MIN < self.quantity + added <= i64::MAX,
        ensures
            position == self.spec_increased(added, price),
            position.wf(),
    {
        let held: u64 = abs_i64(self.quantity);
        let joining: u64 = abs_i64(added);
        proof {
            crate::fixed::lemma_product_fits_u128(held, self.entry_price);
            crate::fixed::lemma_product_fits_u128(joining, price);
            lemma_average_between(
                held as int,
                self.entry_price as int,
                joining as int,
                price as int,
            );
            assert(held * self.entry_price <= 0x8000_0000_0000_0000 * 0xFFFF_FFFF_FFFF_FFFF)
                by (nonlinear_arith)
                requires
                    0 <= held <= 0x8000_0000_0000_0000,
                    0 <= self.entry_price <= 0xFFFF_FFFF_FFFF_FFFF,
            ;
            assert(joining * price <= 0x8000_0000_0000_0000 * 0xFFFF_FFFF_FFFF_FFFF)
                by (nonlinear_arith)
                requires
                    0 <= joining <= 0x8000_0000_0000_0000,
                    0 <= price <= 0xFFFF_FFFF_FFFF_FFFF,
            ;
        }
        let weighted: u128 = (held as u128) * (self.entry_price as u128) + (joining as u128) * (
        price as u128);
        let size: u128 = (held as u128) + (joining as u128);
        let entry_price: u64 = (weighted / size) as u64;
        let joined = Position {
            exchange: self.exchange,
            instrument: self.instrument,
            meta: self.meta,
            quantity: self.quantity + added,
            entry_price,
            current_price: self.current_price,
            unrealised_pnl: self.unrealised_pnl,
        };
        joined.marked(price)
    }

    /// The position after `removed`, of the other sign and smaller, left it at
    /// `price`.
    fn reduced(&self, removed: i64, price: u64) -> (position: Position)
        requires
            self.wf(),
            removed != 0,
            (self.quantity > 0) != (removed > 0),
            (self.quantity + removed > 0) == (self.quantity > 0),
            self.quantity + removed != 0,
        ensures
            position == self.spec_reduced(removed, price),
            position.wf(),
    {
        let left = Position {
            exchange: self.exchange,
            instrument: self.instrument,
            meta: self.meta,
            quantity: self.quantity + removed,
            entry_price: self.entry_price,
            current_price: self.current_price,
            unrealised_pnl: self.unrealised_pnl,
        };
        left.marked(price)
    }
}

/// The weighted average of two prices lies between them; in particular it is
/// no larger than the larger one.
pub proof fn lemma_average_between(held: int, held_price: int, added: int, added_price: int)
    requires
        held >= 0,
        added >= 0,
        held + added > 0,
        held_price >= 0,
        added_price >= 0,
    ensures
        0 <= (held * held_price + added * added_price) / (held + added),
        (held * held_price + added * added_price) / (held + added) <= if held_price
            >= added_price {
            held_price
        } else {
            added_price
        },
{
    let top = if held_price >= added_price {
        held_price
    } else {
        added_price
    };
    let weighted = held * held_price + added * added_price;
    let size = held + added;
    assert(0 <= weighted <= top * size) by (nonlinear_arith)
        requires
            held >= 0,
            added >= 0,
            0 <= held_price <= top,
            0 <= added_price <= top,
            weighted == held * held_price + added * added_price,
            size == held + added,
    ;
    assert(0 <= weighted / size <= top) by (nonlinear_arith)
        requires
            0 <= weighted <= top * size,
            size > 0,
    ;
}

/// Whether the position that a fill of `quantity` leaves can be written down.
pub open spec fn fill_fits(current: Option<Position>, quantity: i64) -> bool {
    match current {
        Some(position) => i64::MIN < position.quantity + quantity <= i64::MAX,
        None => true,
    }
}

/// Why a fill of `quantity` cannot be applied to `current`, if it cannot:
/// the fill is empty, or so large that it cannot be negated, or the position
/// it leaves cannot be written down.
pub open spec fn fill_error(current: Option<Position>, quantity: i64) -> Option<PortfolioError> {
    if quantity == 0 || quantity == i64::MIN {
        Some(PortfolioError::TradeInvalid)
    } else if !fill_fits(current, quantity) {
        Some(PortfolioError::Overflow)
    } else {
        None
    }
}

/// The position that a fill of `quantity` at `price` leaves, where `current`
/// was held before it. The order that was filled gives `exchange`, `instrument`
/// and `meta` to a position that the fill opens.
pub open spec fn position_after_fill(
    current: Option<Position>,
    exchange: Exchange,
    instrument: Instrument,
    meta: MarketMeta,
    quantity: i64,
    price: u64,
) -> Option<Position> {
    match current {
        None => Some(Position::spec_opened(exchange, instrument, meta, quantity, price)),
        Some(position) => {
            let left = position.quantity + quantity;
            if (position.quantity > 0) == (quantity > 0) {
                Some(position.spec_increased(quantity, price))
            } else if left == 0 {
                None
            } else if (left > 0) == (position.quantity > 0) {
                Some(position.spec_reduced(quantity, price))
            } else {
                Some(Position::spec_opened(exchange, instrument, meta, left as i64, price))
            }
        },
    }
}

/// The events that a fill of `quantity` at `price` gives rise to, in the order
/// in which the position changes: a fill that crosses zero first closes the
/// position it finds and then opens the new one.
pub open spec fn events_of_fill(
    current: Option<Position>,
    exchange: Exchange,
    instrument: Instrument,
    meta: MarketMeta,
    quantity: i64,
    price: u64,
) -> Seq<AccountEvent> {
    let after = position_after_fill(current, exchange, instrument, meta, quantity, price);
    match current {
        None => seq![AccountEvent::PositionOpened(after.unwrap())],
        Some(position) => {
            let left = position.quantity + quantity;
            if (position.quantity > 0) == (quantity > 0) {
                seq![AccountEvent::PositionChanged(after.unwrap())]
            } else if left == 0 {
                seq![AccountEvent::PositionClosed(position.spec_exit(price))]
            } else if (left > 0) == (position.quantity > 0) {
                seq![AccountEvent::PositionChanged(after.unwrap())]
            } else {
                seq![
                    AccountEvent::PositionClosed(position.spec_exit(price)),
                    AccountEvent::PositionOpened(after.unwrap()),
                ]
            }
        },
    }
}

/// Signed quantity that `position` holds; nothing held is zero.
pub open spec fn quantity_of(position: Option<Position>) -> int {
    match position {
        Some(position) => position.quantity as int,
        None => 0,
    }
}

/// Applies a fill of `quantity` at `price` to what is held, and reports the
/// position left and the events; or reports why the fill cannot be applied.
pub fn apply_fill(
    current: Option<Position>,
    exchange: Exchange,
    instrument: Instrument,
    meta: MarketMeta,
    quantity: i64,
    price: u64,
) -> (applied: Result<(Option<Position>, Vec<AccountEvent>), PortfolioError>)
    requires
        current matches Some(position) ==> position.wf(),
    ensures
        match applied {
            Ok((after, events)) => {
                &&& fill_error(current, quantity) is None
                &&& after == position_after_fill(
                    current,
                    exchange,
                    instrument,
                    meta,
                    quantity,
                    price,
                )
                &&& events@ == events_of_fill(current, exchange, instrument, meta, quantity, price)
                &&& after matches Some(position) ==> position.wf()
            },
            Err(error) => fill_error(current, quantity) == Some(error),
        },
{
    if quantity == 0 || quantity == i64::MIN {
        return Err(PortfolioError::TradeInvalid);
    }
    let mut events: Vec<AccountEvent> = Vec::new();
    match current {
        None => {
            let after = Position::opened(exchange, instrument, meta, quantity, price);
            events.push(AccountEvent::PositionOpened(after));
            assert(events@ =~= events_of_fill(
                current,
                exchange,
                instrument,
                meta,
                quantity,
                price,
            ));
            Ok((Some(after), events))
        },
        Some(position) => {
            if (position.quantity > 0) == (quantity > 0) {
                match position.quantity.checked_add(quantity) {
                    Some(left) => {
                        if left == i64::MIN {
                            return Err(PortfolioError::Overflow);
                        }
                        let after = position.increased(quantity, price);
                        events.push(AccountEvent::PositionChanged(after));
                        assert(events@ =~= events_of_fill(
                            current,
                            exchange,
                            instrument,
                            meta,
                            quantity,
                            price,
                        ));
                        Ok((Some(after), events))
                    },
                    None => Err(PortfolioError::Overflow),
                }
            } else {
                let left: i64 = position.quantity + quantity;
                if left == 0 {
                    events.push(AccountEvent::PositionClosed(position.exit(price)));
                    assert(events@ =~= events_of_fill(
                        current,
                        exchange,
                        instrument,
                        meta,
                        quantity,
                        price,
                    ));
                    Ok((None, events))
                } else if (left > 0) == (position.quantity > 0) {
                    let after = position.reduced(quantity, price);
                    events.push(AccountEvent::PositionChanged(after));
                    assert(events@ =~= events_of_fill(
                        current,
                        exchange,
                        instrument,
                        meta,
                        quantity,
                        price,
                    ));
                    Ok((Some(after), events))
                } else {
                    let after = Position::opened(exchange, instrument, meta, left, price);
                    events.push(AccountEvent::PositionClosed(position.exit(price)));
                    events.push(AccountEvent::PositionOpened(after));
                    assert(events@ =~= events_of_fill(
                        current,
                        exchange,
                        instrument,
                        meta,
                        quantity,
                        price,
                    ));
                    Ok((Some(after), events))
                }
            }
        },
    }
}

/// A fill adds its signed quantity to what is held: the quantity of the
/// position it leaves is the quantity before plus the quantity of the fill, and
/// the position it leaves is in order.
pub proof fn lemma_fill_adds_quantity(
    current: Option<Position>,
    exchange: Exchange,
    instrument: Instrument,
    meta: MarketMeta,
    quantity: i64,
    price: u64,
)
    requires
        quantity != 0,
        quantity > i64::MIN,
        fill_fits(current, quantity),
        current matches Some(position) ==> position.wf(),
    ensures
        quantity_of(position_after_fill(current, exchange, instrument, meta, quantity, price))
            == quantity_of(current) + quantity,
        position_after_fill(current, exchange, instrument, meta, quantity, price) matches Some(
            position,
        ) ==> position.wf(),
{
}

/// Whether each of `fills`, a signed quantity and a price, can be applied in
/// turn, starting from `current`: none is empty, and none leaves a position
/// too large to write down.
pub open spec fn fills_fit(
    current: Option<Position>,
    exchange: Exchange,
    instrument: Instrument,
    meta: MarketMeta,
    fills: Seq<(i64, u64)>,
) -> bool
    decreases fills.len(),
{
    if fills.len() == 0 {
        true
    } else {
        let quantity = fills.first().0;
        let price = fills.first().1;
        &&& quantity != 0
        &&& quantity > i64::MIN
        &&& fill_fits(current, quantity)
        &&& fills_fit(
            position_after_fill(current, exchange, instrument, meta, quantity, price),
            exchange,
            instrument,
            meta,
            fills.drop_first(),
        )
    }
}

/// The position that `fills`, applied in turn, leave of `current`.
pub open spec fn position_after_fills(
    current: Option<Position>,
    exchange: Exchange,
    instrument: Instrument,
    meta: MarketMeta,
    fills: Seq<(i64, u64)>,
) -> Option<Position>
    decreases fills.len(),
{
    if fills.len() == 0 {
        current
    } else {
        position_after_fills(
            position_after_fill(
                current,
                exchange,
                instrument,
                meta,
                fills.first().0,
                fills.first().1,
            ),
            exchange,
            instrument,
            meta,
            fills.drop_first(),
        )
    }
}

/// Sum of the signed quantities of `fills`.
pub open spec fn sum_of_fills(fills: Seq<(i64, u64)>) -> int
    decreases fills.len(),
{
    if fills.len() == 0 {
        0
    } else {
        fills.first().0 + sum_of_fills(fills.drop_first())
    }
}

/// Whatever fills are applied in turn, at whatever prices, the quantity held
/// in the end is the quantity held at the start plus the sum of the signed
/// quantities of the fills. Starting flat, it is that sum.
pub proof fn lemma_fills_add_up(
    current: Option<Position>,
    exchange: Exchange,
    instrument: Instrument,
    meta: MarketMeta,
    fills: Seq<(i64, u64)>,
)
    requires
        current matches Some(position) ==> position.wf(),
        fills_fit(current, exchange, instrument, meta, fills),
    ensures
        quantity_of(position_after_fills(current, exchange, instrument, meta, fills))
            == quantity_of(current) + sum_of_fills(fills),
    decreases fills.len(),
{
    if fills.len() > 0 {
        lemma_fill_adds_quantity(
            current,
            exchange,
            instrument,
            meta,
            fills.first().0,
            fills.first().1,
        );
        lemma_fills_add_up(
            position_after_fill(
                current,
                exchange,
                instrument,
                meta,
                fills.first().0,
                fills.first().1,
            ),
            exchange,
            instrument,
            meta,
            fills.drop_first(),
        );
    }
}

/// No step of a fill takes a position through zero: the position that a fill
/// changes keeps its direction, and a fill that is larger than the position
/// against it first closes that position.
pub proof fn lemma_fill_never_flips(
    current: Position,
    exchange: Exchange,
    instrument: Instrument,
    meta: MarketMeta,
    quantity: i64,
    price: u64,
)
    requires
        quantity != 0,
        fill_fits(Some(current), quantity),
        current.wf(),
    ensures
        ({
            let events = events_of_fill(Some(current), exchange, instrument, meta, quantity, price);
            &&& events[0] matches AccountEvent::PositionChanged(changed) ==> (changed.quantity > 0)
                == (current.quantity > 0)
            &&& (current.quantity + quantity > 0) != (current.quantity > 0) ==> events[0]
                == AccountEvent::PositionClosed(current.spec_exit(price))
        }),
{
}

} // verus!
