use barter::fixed::SCALE;
use barter::model::{Exchange, Instrument, Side};
use barter::strategy::{Decision, SignalForceExit, SignalStrength, SignalStrengths};

#[test]
fn should_return_decision_is_long() {
    let decision = Decision::Long;
    assert_eq!(decision.is_long(), true)
}

#[test]
fn should_return_decision_is_not_long() {
    let decision = Decision::Short;
    assert_eq!(decision.is_long(), false)
}

#[test]
fn should_return_decision_is_short() {
    let decision = Decision::Short;
    assert_eq!(decision.is_short(), true)
}

#[test]
fn should_return_decision_is_not_short() {
    let decision = Decision::Long;
    assert_eq!(decision.is_short(), false)
}

#[test]
fn should_return_decision_is_entry() {
    let decision = Decision::Long;
    assert_eq!(decision.is_entry(), true)
}

#[test]
fn should_return_decision_is_not_entry() {
    let decision = Decision::CloseLong;
    assert_eq!(decision.is_entry(), false)
}

#[test]
fn should_return_decision_is_exit() {
    let decision = Decision::CloseShort;
    assert_eq!(decision.is_exit(), true)
}

#[test]
fn should_return_decision_is_not_exit() {
    let decision = Decision::Long;
    assert_eq!(decision.is_exit(), false)
}

#[test]
fn every_decision_is_an_entry_or_else_an_exit() {
    for decision in [Decision::Long, Decision::CloseLong, Decision::Short, Decision::CloseShort] {
        assert_ne!(decision.is_entry(), decision.is_exit());
    }
}

#[test]
fn decisions_map_to_order_sides() {
    assert_eq!(Decision::Long.side(), Side::Buy);
    assert_eq!(Decision::Short.side(), Side::Sell);
    assert_eq!(Decision::CloseLong.side(), Side::Sell);
    assert_eq!(Decision::CloseShort.side(), Side::Buy);
}

#[test]
fn side_of_a_quantity_follows_its_sign() {
    assert_eq!(Side::from_quantity(5), Side::Buy);
    assert_eq!(Side::from_quantity(0), Side::Buy);
    assert_eq!(Side::from_quantity(-5), Side::Sell);
    assert_eq!(Side::Buy.opposite(), Side::Sell);
    assert_eq!(Side::Sell.opposite(), Side::Buy);
}

#[test]
fn new_signal_strengths_are_empty() {
    let strengths = SignalStrengths::new();
    assert!(strengths.is_empty());
    assert_eq!(strengths.get(Decision::Long), None);
    assert_eq!(strengths.get(Decision::CloseShort), None);
}

#[test]
fn signal_strengths_hold_one_strength_per_decision() {
    let mut strengths = SignalStrengths::new();
    assert_eq!(strengths.insert(Decision::Long, SignalStrength(SCALE)), None);
    assert_eq!(
        strengths.insert(Decision::Long, SignalStrength(SCALE / 2)),
        Some(SignalStrength(SCALE))
    );
    assert_eq!(strengths.insert(Decision::CloseShort, SignalStrength(7)), None);
    assert!(!strengths.is_empty());
    assert_eq!(strengths.get(Decision::Long), Some(SignalStrength(SCALE / 2)));
    assert_eq!(strengths.get(Decision::CloseShort), Some(SignalStrength(7)));
    assert_eq!(strengths.get(Decision::Short), None);
    assert_eq!(strengths.get(Decision::CloseLong), None);
}

#[test]
fn forced_exit_is_stamped_as_told() {
    let signal = SignalForceExit::at(1_650_000_000_000, Exchange(3), Instrument(4));
    assert_eq!(
        signal,
        SignalForceExit { timestamp: 1_650_000_000_000, exchange: Exchange(3), instrument: Instrument(4) }
    );
}

#[test]
fn forced_exit_is_stamped_with_the_current_time() {
    let signal = SignalForceExit::new(Exchange(3), Instrument(4));
    assert_eq!(signal.exchange, Exchange(3));
    assert_eq!(signal.instrument, Instrument(4));
    // Later than the first of January 2020.
    assert!(signal.timestamp > 1_577_836_800_000);
    assert_eq!(SignalForceExit::FORCED_EXIT_SIGNAL, "SignalForcedExit");
}
