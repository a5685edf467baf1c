use std::sync::Arc;
use std::task::{Context, Wake, Waker};

use scheme_stream::bridge::{open, Notice, Polled, SendOutcome};
use scheme_stream::protocol::{replay, Bridge, Event};
use scheme_stream::receiver::{Phase, SchemeReceiver};
use scheme_stream::scheme::{ColorSample, ColorScheme};

struct Idle;

impl Wake for Idle {
    fn wake(self: Arc<Self>) {}
}

fn alphabet() -> [Event; 5] {
    [
        Event::Notification(None),
        Event::Notification(Some(ColorSample::new(30, 30, 30))),
        Event::Notification(Some(ColorSample::new(240, 240, 240))),
        Event::Poll,
        Event::Teardown,
    ]
}

/// What the real bridge does in a run of events: what the consumer saw, and
/// what the producer answered to each notification.
fn on_the_channel(events: &[Event]) -> (Vec<ColorScheme>, Vec<Notice>) {
    let (mut producer, pending) = open();
    let mut receiver = SchemeReceiver::try_new(pending, Ok(1)).expect("registration succeeded");
    let waker = Waker::from(Arc::new(Idle));
    let mut cx = Context::from_waker(&waker);
    let mut seen = Vec::new();
    let mut notices = Vec::new();
    for event in events {
        match event {
            Event::Notification(fetched) => notices.push(producer.notify(*fetched)),
            Event::Poll => {
                if let Polled::Ready(scheme) = receiver.poll_next(&mut cx) {
                    seen.push(scheme);
                }
            }
            Event::Teardown => {
                receiver.teardown();
            }
        }
    }
    (seen, notices)
}

/// What the account of the bridge predicts for the same run.
fn by_the_account(events: &[Event]) -> (Vec<ColorScheme>, Vec<Notice>) {
    let mut bridge = Bridge::new();
    let mut seen = Vec::new();
    let mut notices = Vec::new();
    for event in events {
        if let Event::Notification(fetched) = event {
            notices.push(bridge.notice(*fetched));
        }
        if let Some(scheme) = bridge.advance(*event) {
            seen.push(scheme);
        }
    }
    (seen, notices)
}

fn runs_of(length: usize) -> Vec<Vec<Event>> {
    let mut runs: Vec<Vec<Event>> = vec![Vec::new()];
    for _ in 0..length {
        let mut longer = Vec::new();
        for run in &runs {
            for event in alphabet() {
                let mut next = run.clone();
                next.push(event);
                longer.push(next);
            }
        }
        runs = longer;
    }
    runs
}

#[test]
fn the_channel_does_what_the_account_says_on_every_short_run() {
    for length in 0..=6 {
        for run in runs_of(length) {
            let (seen, notices) = on_the_channel(&run);
            let (expected_seen, expected_notices) = by_the_account(&run);
            assert_eq!(seen, expected_seen, "run {:?}", run);
            assert_eq!(notices, expected_notices, "run {:?}", run);
            assert_eq!(replay(&run), expected_seen, "run {:?}", run);
        }
    }
}

#[test]
fn replay_of_no_events_sees_nothing() {
    assert_eq!(replay(&Vec::new()), Vec::<ColorScheme>::new());
    assert_eq!(replay(&vec![Event::Poll, Event::Poll]), Vec::<ColorScheme>::new());
    assert_eq!(
        replay(&vec![Event::Notification(None), Event::Poll, Event::Teardown, Event::Poll]),
        Vec::<ColorScheme>::new()
    );
}

#[test]
fn replay_of_one_notification_sees_one_value() {
    let dark = Event::Notification(Some(ColorSample::new(30, 30, 30)));
    assert_eq!(replay(&vec![dark, Event::Poll]), vec![ColorScheme::Dark]);
    assert_eq!(replay(&vec![dark, Event::Poll, Event::Poll, Event::Poll]), vec![ColorScheme::Dark]);
}

#[test]
fn replay_keeps_the_first_of_two_notifications() {
    let dark = Event::Notification(Some(ColorSample::new(30, 30, 30)));
    let light = Event::Notification(Some(ColorSample::new(240, 240, 240)));
    assert_eq!(replay(&vec![dark, light, Event::Poll, Event::Poll]), vec![ColorScheme::Dark]);
    assert_eq!(
        replay(&vec![dark, light, Event::Poll, light, Event::Poll]),
        vec![ColorScheme::Dark, ColorScheme::Light]
    );
}

#[test]
fn replay_sees_nothing_after_teardown() {
    let dark = Event::Notification(Some(ColorSample::new(30, 30, 30)));
    let light = Event::Notification(Some(ColorSample::new(240, 240, 240)));
    assert_eq!(
        replay(&vec![dark, Event::Poll, light, Event::Teardown, Event::Poll, dark, Event::Poll]),
        vec![ColorScheme::Dark]
    );
}

#[test]
fn the_account_steps_as_the_bridge_does() {
    let mut bridge = Bridge::new();
    assert_eq!(bridge.slot, None);
    assert_eq!(bridge.phase, Phase::Active);
    assert_eq!(bridge.outcome(), SendOutcome::Delivered);
    assert_eq!(bridge.notice(None), Notice::Ignored);

    let dark = ColorSample::new(30, 30, 30);
    assert_eq!(bridge.notice(Some(dark)), Notice::Delivered(ColorScheme::Dark));
    assert_eq!(bridge.advance(Event::Notification(Some(dark))), None);
    assert_eq!(bridge.slot, Some(ColorScheme::Dark));
    assert_eq!(bridge.outcome(), SendOutcome::Full);
    assert_eq!(bridge.notice(Some(dark)), Notice::Dropped(ColorScheme::Dark));

    assert_eq!(bridge.advance(Event::Poll), Some(ColorScheme::Dark));
    assert_eq!(bridge.slot, None);
    assert_eq!(bridge.advance(Event::Poll), None);

    assert_eq!(bridge.advance(Event::Teardown), None);
    assert_eq!(bridge.phase, Phase::TornDown);
    assert_eq!(bridge.outcome(), SendOutcome::Disconnected);
    assert_eq!(bridge.notice(Some(dark)), Notice::Orphaned(ColorScheme::Dark));
    assert_eq!(bridge.advance(Event::Notification(Some(dark))), None);
    assert_eq!(bridge.advance(Event::Poll), None);
}
