//! A sink for diagnostic events: it keeps, in order of arrival, the events
//! of a chosen target prefix that are at most as verbose as its level.
use vstd::prelude::*;
use crate::text::starts_with;

verus! {

/// How verbose an event is, from the least to the most.
#[derive(Clone, Copy, Debug, PartialEq, Eq, Structural)]
pub enum Level {
    Error,
    Warn,
    Info,
    Debug,
    Trace,
}

impl Level {
    pub open spec fn verbosity(self) -> int {
        match self {
            Level::Error => 0,
            Level::Warn => 1,
            Level::Info => 2,
            Level::Debug => 3,
            Level::Trace => 4,
        }
    }

    /// The place of the level in the order from least to most verbose.
    pub fn rank(&self) -> (r: u8)
        ensures
            r as int == self.verbosity(),
    {
        match self {
            Level::Error => 0,
            Level::Warn => 1,
            Level::Info => 2,
            Level::Debug => 3,
            Level::Trace => 4,
        }
    }
}

/// One event as it was reported.
#[derive(Debug)]
pub struct CollectedEvent {
    pub level: Level,
    pub target: String,
    pub message: String,
}

pub struct EventView {
    pub level: Level,
    pub target: Seq<char>,
    pub message: Seq<char>,
}

impl View for CollectedEvent {
    type V = EventView;

    open spec fn view(&self) -> EventView {
        EventView { level: self.level, target: self.target@, message: self.message@ }
    }
}

impl CollectedEvent {
    pub fn new(level: Level, target: &str, message: &str) -> (r: CollectedEvent)
        ensures
            r@ == (EventView { level, target: target@, message: message@ }),
    {
        CollectedEvent {
            level,
            target: String::from_str(target),
            message: String::from_str(message),
        }
    }

    /// A copy of the event.
    pub fn duplicate(&self) -> (r: CollectedEvent)
        ensures
            r@ == self@,
    {
        CollectedEvent {
            level: self.level,
            target: self.target.clone(),
            message: self.message.clone(),
        }
    }
}

pub struct CollectorView {
    pub level: Level,
    pub target_prefix: Seq<char>,
    pub events: Seq<EventView>,
}

/// Keeps the events that pass its level and target filter.
#[derive(Debug)]
pub struct EventCollector {
    level: Level,
    target_prefix: String,
    events: Vec<CollectedEvent>,
}

pub open spec fn event_views(v: Seq<CollectedEvent>) -> Seq<EventView> {
    v.map_values(|e: CollectedEvent| e@)
}

impl View for EventCollector {
    type V = CollectorView;

    closed spec fn view(&self) -> CollectorView {
        CollectorView {
            level: self.level,
            target_prefix: self.target_prefix@,
            events: event_views(self.events@),
        }
    }
}

/// Whether a collector with `level` and `prefix` keeps event `e`.
pub open spec fn keeps(level: Level, prefix: Seq<char>, e: EventView) -> bool {
    e.level.verbosity() <= level.verbosity() && prefix.len() <= e.target.len()
        && e.target.subrange(0, prefix.len() as int) == prefix
}

impl EventCollector {
    /// An empty collector that keeps events up to `level` whose target
    /// starts with `target_prefix`.
    pub fn level(level: Level, target_prefix: &str) -> (r: Self)
        ensures
            r@.level == level,
            r@.target_prefix == target_prefix@,
            r@.events == Seq::<EventView>::empty(),
    {
        let r = EventCollector {
            level,
            target_prefix: String::from_str(target_prefix),
            events: Vec::new(),
        };
        assert(r@.events =~= Seq::<EventView>::empty());
        r
    }

    /// The events kept so far, oldest first.
    pub fn events(&self) -> (r: Vec<CollectedEvent>)
        ensures
            event_views(r@) == self@.events,
    {
        let mut out: Vec<CollectedEvent> = Vec::new();
        let mut i: usize = 0;
        assert(event_views(out@) =~= event_views(self.events@.take(0)));
        while i < self.events.len()
            invariant
                i <= self.events@.len(),
                event_views(out@) == event_views(self.events@.take(i as int)),
            decreases self.events@.len() - i,
        {
            let ghost before = out@;
            let e = self.events[i].duplicate();
            out.push(e);
            assert(event_views(out@) =~= event_views(before).push(self.events@[i as int]@));
            assert(self.events@.take(i + 1) =~= self.events@.take(i as int).push(
                self.events@[i as int],
            ));
            assert(event_views(self.events@.take(i + 1)) =~= event_views(
                self.events@.take(i as int),
            ).push(self.events@[i as int]@));
            i += 1;
        }
        assert(self.events@.take(self.events@.len() as int) =~= self.events@);
        out
    }

    /// Forgets every event kept so far.
    pub fn clear(&mut self)
        ensures
            final(self)@.level == old(self)@.level,
            final(self)@.target_prefix == old(self)@.target_prefix,
            final(self)@.events == Seq::<EventView>::empty(),
    {
        self.events = Vec::new();
        assert(event_views(self.events@) =~= Seq::<EventView>::empty());
    }

    /// Keeps `event` if its level is at most the collector's and its target
    /// starts with the collector's prefix; otherwise drops it.
    pub fn collect(&mut self, event: CollectedEvent)
        ensures
            final(self)@.level == old(self)@.level,
            final(self)@.target_prefix == old(self)@.target_prefix,
            final(self)@.events == if keeps(old(self)@.level, old(self)@.target_prefix, event@) {
                old(self)@.events.push(event@)
            } else {
                old(self)@.events
            },
    {
        if event.level.rank() <= self.level.rank() && starts_with(
            event.target.as_str(),
            self.target_prefix.as_str(),
        ) {
            let ghost before = self.events@;
            let ghost ev = event@;
            self.events.push(event);
            assert(event_views(self.events@) =~= event_views(before).push(ev));
        }
    }
}

} // verus!
