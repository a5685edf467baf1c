//! The bridge told as a sequence of events: what the consumer gets to see,
//! given what the channel holds. The channel itself is outside code, of which
//! nothing is proved; here it is taken to be one slot that refuses a send
//! while it is taken and every send once the receiver is torn down. The rest
//! is what the producer and the receiver are proved to do.
//!
//! `replay` computes what this account predicts for a run of events, so that
//! the real channel can be held against it.

use vstd::prelude::*;
use crate::scheme::{classify, scheme_of, ColorSample, ColorScheme};
use crate::bridge::{notice_of, settle, Notice, Polled, SendOutcome};
use crate::receiver::{resolve, resolved, Phase};

verus! {

/// The bridge as one value: what waits in the slot, and where the receiver
/// stands. The slot holds one scheme at most.
#[derive(Clone, Copy, Debug)]
pub struct Bridge {
    pub slot: Option<ColorScheme>,
    pub phase: Phase,
}

/// What can happen to a bridge.
#[derive(Clone, Copy, Debug)]
pub enum Event {
    /// The provider called back; fetching the colour gave this.
    Notification(Option<ColorSample>),
    /// The consumer polled the stream.
    Poll,
    /// The receiver was torn down.
    Teardown,
}

/// The bridge as it is opened: nothing waits, the receiver is active.
pub open spec fn opened() -> Bridge {
    Bridge { slot: None, phase: Phase::Active }
}

/// How a send ends on this bridge.
pub open spec fn outcome_in(bridge: Bridge) -> SendOutcome {
    match bridge.phase {
        Phase::TornDown => SendOutcome::Disconnected,
        Phase::Active => if bridge.slot is Some {
            SendOutcome::Full
        } else {
            SendOutcome::Delivered
        },
    }
}

/// What a poll finds in the channel of this bridge.
pub open spec fn found_in(bridge: Bridge) -> Polled {
    match bridge.slot {
        Some(scheme) => Polled::Ready(scheme),
        None => Polled::Pending,
    }
}

/// What the producer answers to a notification on this bridge.
pub open spec fn noticed(bridge: Bridge, fetched: Option<ColorSample>) -> Notice {
    notice_of(fetched, outcome_in(bridge))
}

/// The bridge after an event.
pub open spec fn step(bridge: Bridge, event: Event) -> Bridge {
    match event {
        Event::Notification(fetched) => match noticed(bridge, fetched) {
            Notice::Delivered(scheme) => Bridge { slot: Some(scheme), phase: bridge.phase },
            _ => bridge,
        },
        Event::Poll => match bridge.phase {
            Phase::Active => Bridge { slot: None, phase: Phase::Active },
            Phase::TornDown => bridge,
        },
        Event::Teardown => Bridge { slot: bridge.slot, phase: Phase::TornDown },
    }
}

/// The value that an event hands to the consumer, if it hands one.
pub open spec fn yielded(bridge: Bridge, event: Event) -> Option<ColorScheme> {
    match event {
        Event::Poll => match resolved(bridge.phase, found_in(bridge)) {
            Polled::Ready(scheme) => Some(scheme),
            _ => None,
        },
        _ => None,
    }
}

/// The bridge after a run of events on a newly opened one.
pub open spec fn run(events: Seq<Event>) -> Bridge
    decreases events.len(),
{
    if events.len() == 0 {
        opened()
    } else {
        step(run(events.drop_last()), events.last())
    }
}

/// What the consumer has seen in a run of events, in order.
pub open spec fn yields(events: Seq<Event>) -> Seq<ColorScheme>
    decreases events.len(),
{
    if events.len() == 0 {
        Seq::empty()
    } else {
        let earlier = yields(events.drop_last());
        match yielded(run(events.drop_last()), events.last()) {
            Some(scheme) => earlier.push(scheme),
            None => earlier,
        }
    }
}

/// The schemes that the channel has taken in a run of events, in order.
pub open spec fn deliveries(events: Seq<Event>) -> Seq<ColorScheme>
    decreases events.len(),
{
    if events.len() == 0 {
        Seq::empty()
    } else {
        let earlier = deliveries(events.drop_last());
        match events.last() {
            Event::Notification(fetched) => match noticed(run(events.drop_last()), fetched) {
                Notice::Delivered(scheme) => earlier.push(scheme),
                _ => earlier,
            },
            _ => earlier,
        }
    }
}

/// What waits in the slot, as a sequence of one scheme at most.
pub open spec fn waiting(bridge: Bridge) -> Seq<ColorScheme> {
    match bridge.slot {
        Some(scheme) => seq![scheme],
        None => Seq::empty(),
    }
}

/// Whether an event is a notification that carries a sample.
pub open spec fn carries_sample(event: Event) -> bool {
    event matches Event::Notification(Some(_))
}

impl Bridge {
    /// A bridge as it is opened.
    pub fn new() -> (bridge: Bridge)
        ensures
            bridge == opened(),
    {
        Bridge { slot: None, phase: Phase::Active }
    }

    /// How a send would end on this bridge.
    pub fn outcome(&self) -> (outcome: SendOutcome)
        ensures
            outcome == outcome_in(*self),
    {
        match self.phase {
            Phase::TornDown => SendOutcome::Disconnected,
            Phase::Active => match self.slot {
                Some(_) => SendOutcome::Full,
                None => SendOutcome::Delivered,
            },
        }
    }

    /// What the producer would answer to a notification on this bridge.
    pub fn notice(&self, fetched: Option<ColorSample>) -> (notice: Notice)
        ensures
            notice == noticed(*self, fetched),
    {
        match fetched {
            None => Notice::Ignored,
            Some(sample) => settle(classify(sample), self.outcome()),
        }
    }

    /// Takes the bridge one event on and returns what the event hands to the
    /// consumer.
    pub fn advance(&mut self, event: Event) -> (seen: Option<ColorScheme>)
        ensures
            *final(self) == step(*old(self), event),
            seen == yielded(*old(self), event),
    {
        match event {
            Event::Notification(fetched) => {
                match self.notice(fetched) {
                    Notice::Delivered(scheme) => {
                        self.slot = Some(scheme);
                    },
                    _ => {},
                }
                None
            },
            Event::Poll => {
                let found = match self.slot {
                    Some(scheme) => Polled::Ready(scheme),
                    None => Polled::Pending,
                };
                let polled = resolve(self.phase, found);
                match self.phase {
                    Phase::Active => {
                        self.slot = None;
                    },
                    Phase::TornDown => {},
                }
                match polled {
                    Polled::Ready(scheme) => Some(scheme),
                    _ => None,
                }
            },
            Event::Teardown => {
                self.phase = Phase::TornDown;
                None
            },
        }
    }
}

/// What the consumer sees in a run of events on a newly opened bridge, in
/// order.
pub fn replay(events: &Vec<Event>) -> (seen: Vec<ColorScheme>)
    ensures
        seen@ == yields(events@),
{
    let mut bridge = Bridge::new();
    let mut seen: Vec<ColorScheme> = Vec::new();
    let mut done: usize = 0;
    while done < events.len()
        invariant
            done <= events.len(),
            bridge == run(events@.take(done as int)),
            seen@ == yields(events@.take(done as int)),
        decreases events.len() - done,
    {
        proof {
            run_push(events@.take(done as int), events@[done as int]);
            assert(events@.take(done as int).push(events@[done as int]) =~= events@.take(
                done + 1,
            ));
        }
        match bridge.advance(events[done]) {
            Some(scheme) => {
                seen.push(scheme);
            },
            None => {},
        }
        done = done + 1;
    }
    proof {
        assert(events@.take(done as int) =~= events@);
    }
    seen
}

/// One more event takes the bridge one step on and adds what it yields.
pub proof fn run_push(events: Seq<Event>, event: Event)
    ensures
        run(events.push(event)) == step(run(events), event),
        yields(events.push(event)) == match yielded(run(events), event) {
            Some(scheme) => yields(events).push(scheme),
            None => yields(events),
        },
{
    assert(events.push(event).drop_last() =~= events);
    assert(events.push(event).last() == event);
}

/// Nothing is lost, invented or reordered. While the receiver is active, what
/// the channel has taken is what the consumer has seen followed by what waits
/// in the slot. Whatever the phase, the consumer has seen the schemes that the
/// channel took, in their order, but for the last one at most.
pub proof fn yields_follow_deliveries(events: Seq<Event>)
    ensures
        run(events).phase == Phase::Active ==> deliveries(events) == yields(events) + waiting(
            run(events),
        ),
        yields(events).is_prefix_of(deliveries(events)),
        deliveries(events).len() <= yields(events).len() + 1,
    decreases events.len(),
{
    if events.len() > 0 {
        let earlier = events.drop_last();
        let before = run(earlier);
        yields_follow_deliveries(earlier);
        if before.phase == Phase::Active {
            assert(deliveries(events) =~= yields(events) + waiting(run(events)));
        } else {
            assert(deliveries(events) =~= deliveries(earlier));
            assert(yields(events) =~= yields(earlier));
        }
    }
}

/// Before the first notification that carries a sample, the stream yields
/// nothing and nothing waits in the slot.
pub proof fn quiet_before_first_sample(events: Seq<Event>)
    requires
        forall|i: int| 0 <= i < events.len() ==> !carries_sample(#[trigger] events[i]),
    ensures
        yields(events) == Seq::<ColorScheme>::empty(),
        run(events).slot is None,
    decreases events.len(),
{
    if events.len() > 0 {
        let earlier = events.drop_last();
        assert forall|i: int| 0 <= i < earlier.len() implies !carries_sample(
            #[trigger] earlier[i],
        ) by {
            assert(earlier[i] == events[i]);
        }
        quiet_before_first_sample(earlier);
        assert(!carries_sample(events[events.len() - 1]));
    }
}

/// A notification that finds the slot free and the receiver active puts the
/// scheme of its sample there; the next poll yields exactly that scheme, and
/// the poll after it yields nothing.
pub proof fn one_notification_one_value(events: Seq<Event>, sample: ColorSample)
    requires
        run(events).phase == Phase::Active,
        run(events).slot is None,
    ensures
        noticed(run(events), Some(sample)) == Notice::Delivered(scheme_of(sample)),
        yields(events.push(Event::Notification(Some(sample))).push(Event::Poll)) == yields(
            events,
        ).push(scheme_of(sample)),
        yields(
            events.push(Event::Notification(Some(sample))).push(Event::Poll).push(Event::Poll),
        ) == yields(events).push(scheme_of(sample)),
{
    let notified = events.push(Event::Notification(Some(sample)));
    run_push(events, Event::Notification(Some(sample)));
    run_push(notified, Event::Poll);
    run_push(notified.push(Event::Poll), Event::Poll);
}

/// Two notifications before a poll: the first scheme is kept and the second
/// is dropped. The poll yields the first, and the poll after it nothing.
pub proof fn two_notifications_keep_first(
    events: Seq<Event>,
    first: ColorSample,
    second: ColorSample,
)
    requires
        run(events).phase == Phase::Active,
        run(events).slot is None,
    ensures
        noticed(run(events), Some(first)) == Notice::Delivered(scheme_of(first)),
        noticed(run(events.push(Event::Notification(Some(first)))), Some(second))
            == Notice::Dropped(scheme_of(second)),
        yields(
            events.push(Event::Notification(Some(first))).push(
                Event::Notification(Some(second)),
            ).push(Event::Poll),
        ) == yields(events).push(scheme_of(first)),
        yields(
            events.push(Event::Notification(Some(first))).push(
                Event::Notification(Some(second)),
            ).push(Event::Poll).push(Event::Poll),
        ) == yields(events).push(scheme_of(first)),
{
    let one = events.push(Event::Notification(Some(first)));
    let two = one.push(Event::Notification(Some(second)));
    run_push(events, Event::Notification(Some(first)));
    run_push(one, Event::Notification(Some(second)));
    run_push(two, Event::Poll);
    run_push(two.push(Event::Poll), Event::Poll);
}

/// Once the receiver is torn down, whatever happens afterwards yields nothing
/// more, no notification reaches the channel, and the receiver stays torn
/// down.
pub proof fn nothing_after_teardown(before: Seq<Event>, after: Seq<Event>)
    ensures
        run(before.push(Event::Teardown) + after).phase == Phase::TornDown,
        yields(before.push(Event::Teardown) + after) == yields(before),
        forall|fetched: Option<ColorSample>| #[trigger]
            noticed(run(before.push(Event::Teardown) + after), fetched).delivered_scheme() is None,
    decreases after.len(),
{
    let torn = before.push(Event::Teardown);
    if after.len() == 0 {
        assert(torn + after =~= torn);
        run_push(before, Event::Teardown);
    } else {
        nothing_after_teardown(before, after.drop_last());
        assert(torn + after =~= (torn + after.drop_last()).push(after.last()));
        run_push(torn + after.drop_last(), after.last());
    }
}

} // verus!
