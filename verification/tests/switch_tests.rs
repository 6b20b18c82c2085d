use slog_atomic::AtomicSwitch;
use slog_atomic::DiscardSink;
use slog_atomic::Level;
use slog_atomic::Sink;
use slog_atomic::SinkRecord;
use slog_atomic::TokenSink;
use std::sync::Arc;

fn record(level: Level, message: &str) -> SinkRecord {
    SinkRecord::new(level, message.to_string())
}

fn chatty(token: u64) -> TokenSink {
    TokenSink { token, min_level: Level::Trace }
}

#[test]
fn log_is_served_by_the_installed_sink() {
    let sw = AtomicSwitch::new(chatty(7));
    assert_eq!(sw.log(&record(Level::Info, "m")), Ok(7));
    assert_eq!(sw.log(&record(Level::Critical, "n")), Ok(7));
}

#[test]
fn set_makes_the_new_sink_immediately_visible() {
    let sw = AtomicSwitch::new(chatty(1));
    assert_eq!(sw.log(&record(Level::Info, "before")), Ok(1));
    let mut ctrl = sw.ctrl();
    ctrl.set(chatty(2));
    let sw = ctrl.drain();
    assert_eq!(sw.log(&record(Level::Info, "after")), Ok(2));
    assert_eq!(sw.log(&record(Level::Info, "later")), Ok(2));
}

#[test]
fn swap_returns_the_previous_sink_and_installs_the_new_one() {
    let sw = AtomicSwitch::new(chatty(1));
    let mut ctrl = sw.ctrl();
    let displaced = ctrl.swap(Arc::new(chatty(2)));
    assert_eq!(displaced.token, 1);
    assert_eq!(ctrl.get().token, 2);
    // The displaced sink is intact and still usable by a holder.
    assert_eq!(displaced.log(&record(Level::Info, "late")), Ok(1));
}

#[test]
fn a_loaded_sink_outlives_its_displacement() {
    let sw = AtomicSwitch::new(chatty(1));
    let mut ctrl = sw.ctrl();
    // A reader obtained this handle before the replacement below.
    let in_flight = ctrl.get();
    ctrl.set(chatty(2));
    // The old sink is still valid for the call that already began.
    assert_eq!(in_flight.log(&record(Level::Info, "old")), Ok(1));
    let sw = ctrl.drain();
    assert_eq!(sw.log(&record(Level::Info, "new")), Ok(2));
}

#[test]
fn set_round_trip_is_equivalent_to_one_set() {
    let sw = AtomicSwitch::new(chatty(9));
    let a = TokenSink { token: 1, min_level: Level::Info };
    let b = TokenSink { token: 2, min_level: Level::Trace };

    let mut ctrl = sw.ctrl();
    ctrl.set(a);
    ctrl.set(b);
    ctrl.set(a);
    let tripled = ctrl.drain();

    let sw_once = AtomicSwitch::new(chatty(9));
    let mut ctrl_once = sw_once.ctrl();
    ctrl_once.set(a);
    let once = ctrl_once.drain();

    for rec in [record(Level::Critical, "x"), record(Level::Info, "y"), record(Level::Trace, "z")] {
        assert_eq!(tripled.log(&rec), once.log(&rec));
    }
    assert_eq!(tripled.is_enabled(Level::Debug), once.is_enabled(Level::Debug));
}

#[test]
fn scenario_two_sinks_each_record_their_own_messages() {
    // Sink A serves the first message, sink B the second; the caller's
    // transcript shows each message answered by exactly one sink.
    let a = chatty(1);
    let b = chatty(2);
    let mut transcript: Vec<(String, u64)> = Vec::new();

    let sw = AtomicSwitch::new(a);
    let r1 = sw.log(&record(Level::Info, "m1")).unwrap();
    transcript.push(("m1".to_string(), r1));

    let mut ctrl = sw.ctrl();
    ctrl.set(b);
    let sw = ctrl.drain();
    let r2 = sw.log(&record(Level::Info, "m2")).unwrap();
    transcript.push(("m2".to_string(), r2));

    assert_eq!(
        transcript,
        vec![("m1".to_string(), 1), ("m2".to_string(), 2)],
    );
}

#[test]
fn switch_filters_exactly_as_the_installed_sink_does() {
    let sw = AtomicSwitch::new(TokenSink { token: 5, min_level: Level::Warning });
    assert!(sw.is_enabled(Level::Critical));
    assert!(sw.is_enabled(Level::Warning));
    assert!(!sw.is_enabled(Level::Info));
    assert_eq!(sw.log(&record(Level::Error, "kept")), Ok(5));
    assert_eq!(sw.log(&record(Level::Debug, "rejected")), Err(5));
}

#[test]
fn default_switch_discards_everything() {
    let sw = AtomicSwitch::default();
    assert!(!sw.is_enabled(Level::Critical));
    assert!(!sw.is_enabled(Level::Trace));
    assert_eq!(sw.log(&record(Level::Info, "gone")), Ok(()));
}

#[test]
fn new_from_arc_wraps_an_existing_slot() {
    let slot = slog_atomic::SharedSlot::new(chatty(4));
    let sw = AtomicSwitch::new_from_arc(slot);
    assert_eq!(sw.log(&record(Level::Info, "m")), Ok(4));
}

#[test]
fn a_switch_is_itself_a_sink_and_nests() {
    // The switch implements the sink capability, so it can be installed
    // inside another switch; calls pass through both layers.
    let inner = AtomicSwitch::new(chatty(3));
    let outer = AtomicSwitch::new(inner);
    assert_eq!(outer.log(&record(Level::Info, "m")), Ok(3));
    assert!(outer.is_enabled(Level::Trace));
}

#[test]
fn discard_sink_reports_success_and_accepts_nothing() {
    let d = DiscardSink;
    assert_eq!(d.log(&record(Level::Critical, "m")), Ok(()));
    assert!(!d.is_enabled(Level::Critical));
}
