use skill_converter::tracer::{CollectedEvent, EventCollector, Level};

#[test]
fn collector_keeps_matching_events_in_order() {
    let mut c = EventCollector::level(Level::Debug, "converter");
    c.collect(CollectedEvent::new(Level::Info, "converter::process", "first"));
    c.collect(CollectedEvent::new(Level::Trace, "converter", "too verbose"));
    c.collect(CollectedEvent::new(Level::Error, "other", "wrong target"));
    c.collect(CollectedEvent::new(Level::Debug, "converter", "second"));
    let events = c.events();
    assert_eq!(events.len(), 2);
    assert_eq!(events[0].message, "first");
    assert_eq!(events[1].message, "second");
    assert_eq!(events[1].level, Level::Debug);
}

#[test]
fn clear_forgets_events() {
    let mut c = EventCollector::level(Level::Trace, "");
    c.collect(CollectedEvent::new(Level::Trace, "any", "x"));
    assert_eq!(c.events().len(), 1);
    c.clear();
    assert!(c.events().is_empty());
    c.collect(CollectedEvent::new(Level::Warn, "any", "y"));
    assert_eq!(c.events()[0].message, "y");
}

#[test]
fn levels_rank_by_verbosity() {
    assert_eq!(Level::Error.rank(), 0);
    assert_eq!(Level::Warn.rank(), 1);
    assert_eq!(Level::Info.rank(), 2);
    assert_eq!(Level::Debug.rank(), 3);
    assert_eq!(Level::Trace.rank(), 4);
}
