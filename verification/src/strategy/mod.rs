//! Advisory signals: what a strategy tells the portfolio.

use crate::clock::utc_now_millis;
use crate::data::{MarketEvent, MarketMeta};
use crate::model::{Exchange, Instrument, Side};
use vstd::prelude::*;

verus! {

/// May generate an advisory [`Signal`] as a result of analysing a market event.
pub trait SignalGenerator {
    /// Optionally returns a [`Signal`] given a market event.
    fn generate_signal(&mut self, market: &MarketEvent) -> Option<Signal>;
}

/// Strength of an advisory signal decision, as a fixed-point factor: `SCALE`
/// stands for full strength.
#[derive(Copy, Clone, Debug, PartialEq, Eq)]
pub struct SignalStrength(pub u64);

/// Describes the type of advisory signal the strategy is endorsing.
#[derive(Copy, Clone, Debug, PartialEq, Eq, Hash, Structural)]
pub enum Decision {
    Long,
    CloseLong,
    Short,
    CloseShort,
}

impl Decision {
    /// Whether the decision is `Long`.
    pub open spec fn spec_is_long(&self) -> bool {
        *self == Decision::Long
    }

    /// Whether the decision is `Short`.
    pub open spec fn spec_is_short(&self) -> bool {
        *self == Decision::Short
    }

    /// Whether the decision enters a position.
    pub open spec fn spec_is_entry(&self) -> bool {
        *self == Decision::Long || *self == Decision::Short
    }

    /// Whether the decision exits a position.
    pub open spec fn spec_is_exit(&self) -> bool {
        *self == Decision::CloseLong || *self == Decision::CloseShort
    }

    /// The side of the order that carries the decision out: entering long and
    /// closing a short buy, entering short and closing a long sell.
    pub open spec fn spec_side(&self) -> Side {
        match *self {
            Decision::Long => Side::Buy,
            Decision::CloseShort => Side::Buy,
            Decision::Short => Side::Sell,
            Decision::CloseLong => Side::Sell,
        }
    }

    /// Determines if a [`Decision`] is Long.
    #[verifier::when_used_as_spec(spec_is_long)]
    pub fn is_long(&self) -> (long: bool)
        ensures
            long == self.spec_is_long(),
    {
        matches!(self, Decision::Long)
    }

    /// Determines if a [`Decision`] is Short.
    #[verifier::when_used_as_spec(spec_is_short)]
    pub fn is_short(&self) -> (short: bool)
        ensures
            short == self.spec_is_short(),
    {
        matches!(self, Decision::Short)
    }

    /// Determines if a [`Decision`] is an entry (long or short).
    #[verifier::when_used_as_spec(spec_is_entry)]
    pub fn is_entry(&self) -> (entry: bool)
        ensures
            entry == self.spec_is_entry(),
    {
        matches!(self, Decision::Short | Decision::Long)
    }

    /// Determines if a [`Decision`] is an exit (close long or close short).
    #[verifier::when_used_as_spec(spec_is_exit)]
    pub fn is_exit(&self) -> (exit: bool)
        ensures
            exit == self.spec_is_exit(),
    {
        matches!(self, Decision::CloseLong | Decision::CloseShort)
    }

    /// The side of the order that carries the decision out.
    #[verifier::when_used_as_spec(spec_side)]
    pub fn side(&self) -> (side: Side)
        ensures
            side == self.spec_side(),
    {
        match self {
            Decision::Long => Side::Buy,
            Decision::CloseShort => Side::Buy,
            Decision::Short => Side::Sell,
            Decision::CloseLong => Side::Sell,
        }
    }
}

/// Every decision is an entry or an exit, and none is both.
pub proof fn lemma_entry_or_else_exit(decision: Decision)
    ensures
        decision.is_entry() != decision.is_exit(),
        decision.is_long() ==> decision.is_entry(),
        decision.is_short() ==> decision.is_entry(),
{
}

/// At most one strength for each decision.
#[derive(Copy, Clone, Debug, PartialEq, Eq)]
pub struct SignalStrengths {
    long: Option<SignalStrength>,
    close_long: Option<SignalStrength>,
    short: Option<SignalStrength>,
    close_short: Option<SignalStrength>,
}

impl SignalStrengths {
    spec fn slot(&self, decision: Decision) -> Option<SignalStrength> {
        match decision {
            Decision::Long => self.long,
            Decision::CloseLong => self.close_long,
            Decision::Short => self.short,
            Decision::CloseShort => self.close_short,
        }
    }

    /// The strengths as a map from the decisions that have one.
    pub closed spec fn view(&self) -> Map<Decision, SignalStrength> {
        Map::new(
            |decision: Decision| self.slot(decision).is_some(),
            |decision: Decision| self.slot(decision).unwrap(),
        )
    }

    /// No strength for any decision.
    pub fn new() -> (strengths: Self)
        ensures
            strengths@ == Map::<Decision, SignalStrength>::empty(),
    {
        let strengths = SignalStrengths {
            long: None,
            close_long: None,
            short: None,
            close_short: None,
        };
        strengths
    }

    /// Sets the strength of `decision`, returning the strength it had.
    pub fn insert(&mut self, decision: Decision, strength: SignalStrength) -> (previous: Option<
        SignalStrength,
    >)
        ensures
            final(self)@ == old(self)@.insert(decision, strength),
            previous == (if old(self)@.contains_key(decision) {
                Some(old(self)@[decision])
            } else {
                None
            }),
    {
        let previous: Option<SignalStrength> = self.get(decision);
        match decision {
            Decision::Long => {
                self.long = Some(strength);
            },
            Decision::CloseLong => {
                self.close_long = Some(strength);
            },
            Decision::Short => {
                self.short = Some(strength);
            },
            Decision::CloseShort => {
                self.close_short = Some(strength);
            },
        }
        previous
    }

    /// The strength of `decision`, if it has one.
    pub fn get(&self, decision: Decision) -> (strength: Option<SignalStrength>)
        ensures
            strength == (if self@.contains_key(decision) {
                Some(self@[decision])
            } else {
                None
            }),
    {
        match decision {
            Decision::Long => self.long,
            Decision::CloseLong => self.close_long,
            Decision::Short => self.short,
            Decision::CloseShort => self.close_short,
        }
    }

    /// Whether no decision has a strength.
    pub fn is_empty(&self) -> (empty: bool)
        ensures
            empty == (self@ == Map::<Decision, SignalStrength>::empty()),
    {
        let empty: bool = self.long.is_none() && self.close_long.is_none() && self.short.is_none()
            && self.close_short.is_none();
        proof {
            if empty {
                assert(self@ =~= Map::<Decision, SignalStrength>::empty());
            } else {
                let witness = if self.long.is_some() {
                    Decision::Long
                } else if self.close_long.is_some() {
                    Decision::CloseLong
                } else if self.short.is_some() {
                    Decision::Short
                } else {
                    Decision::CloseShort
                };
                assert(self@.contains_key(witness));
            }
        }
        empty
    }
}

/// Advice from a strategy: for one instrument on one venue, how strongly it
/// endorses each decision.
#[derive(Copy, Clone, Debug, PartialEq, Eq)]
pub struct Signal {
    /// Time of the advice, in milliseconds since the Unix epoch.
    pub timestamp: i64,
    pub exchange: Exchange,
    pub instrument: Instrument,
    pub signals: SignalStrengths,
    /// Metadata propagated from the source market event.
    pub market_meta: MarketMeta,
}

/// Force exit signal produced after the engine receives a command to exit a
/// position from an external source.
#[derive(Copy, Clone, Debug, PartialEq, Eq)]
pub struct SignalForceExit {
    /// Time of the instruction, in milliseconds since the Unix epoch.
    pub timestamp: i64,
    pub exchange: Exchange,
    pub instrument: Instrument,
}

impl SignalForceExit {
    pub const FORCED_EXIT_SIGNAL: &'static str = "SignalForcedExit";

    /// A forced exit for `instrument` on `exchange`, stamped with `timestamp`.
    pub fn at(timestamp: i64, exchange: Exchange, instrument: Instrument) -> (signal: Self)
        ensures
            signal == (SignalForceExit { timestamp, exchange, instrument }),
    {
        SignalForceExit { timestamp, exchange, instrument }
    }

    /// A forced exit for `instrument` on `exchange`, stamped with the current time.
    pub fn new(exchange: Exchange, instrument: Instrument) -> (signal: Self)
        ensures
            signal.exchange == exchange,
            signal.instrument == instrument,
    {
        let timestamp: i64 = utc_now_millis();
        SignalForceExit::at(timestamp, exchange, instrument)
    }
}

} // verus!
