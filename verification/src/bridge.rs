//! The producer's side of the bridge: what the notification callback does with
//! one notification.

use vstd::prelude::*;
use crate::scheme::{classify, scheme_of, ColorSample, ColorScheme};
use crate::channel::{buffer_of, offer, open_channel, terminated};
use crate::receiver::Registering;

verus! {

/// How a send into the channel ended.
#[derive(Clone, Copy, Debug, PartialEq, Eq, Structural)]
pub enum SendOutcome {
    /// The channel took the value.
    Delivered,
    /// The slot still holds a value that the consumer has not read.
    Full,
    /// The consumer's end is closed or gone.
    Disconnected,
}

/// What a poll of the consumer's end found.
#[derive(Clone, Copy, Debug, PartialEq, Eq, Structural)]
pub enum Polled {
    /// A value was waiting.
    Ready(ColorScheme),
    /// No value yet: the consumer is woken when one arrives.
    Pending,
    /// No value will come any more.
    Ended,
}

/// What became of one notification.
#[derive(Clone, Copy, Debug, PartialEq, Eq, Structural)]
pub enum Notice {
    /// The colour could not be fetched: the notification counts as no event.
    Ignored,
    /// The scheme went into the channel.
    Delivered(ColorScheme),
    /// The slot was taken: the scheme was dropped and the pending one kept.
    Dropped(ColorScheme),
    /// The consumer is gone: the scheme was discarded.
    Orphaned(ColorScheme),
}

/// The buffer that the channel is made with. The channel adds one slot for its
/// single sender, so that exactly one value can wait.
pub const BUFFER: usize = 0;

/// What becomes of a scheme for which the send ended with `outcome`.
pub open spec fn settled(scheme: ColorScheme, outcome: SendOutcome) -> Notice {
    match outcome {
        SendOutcome::Delivered => Notice::Delivered(scheme),
        SendOutcome::Full => Notice::Dropped(scheme),
        SendOutcome::Disconnected => Notice::Orphaned(scheme),
    }
}

/// What becomes of a notification for which fetching the colour gave `fetched`
/// and for which the send, if one is made, ends with `outcome`.
pub open spec fn notice_of(fetched: Option<ColorSample>, outcome: SendOutcome) -> Notice {
    match fetched {
        None => Notice::Ignored,
        Some(sample) => settled(scheme_of(sample), outcome),
    }
}

/// Names what became of `scheme` once the send has ended with `outcome`.
pub fn settle(scheme: ColorScheme, outcome: SendOutcome) -> (notice: Notice)
    ensures
        notice == settled(scheme, outcome),
{
    match outcome {
        SendOutcome::Delivered => Notice::Delivered(scheme),
        SendOutcome::Full => Notice::Dropped(scheme),
        SendOutcome::Disconnected => Notice::Orphaned(scheme),
    }
}

impl Notice {
    /// The scheme that reached the channel, if one did.
    pub open spec fn delivered_scheme(self) -> Option<ColorScheme> {
        match self {
            Notice::Delivered(scheme) => Some(scheme),
            _ => None,
        }
    }

    /// The scheme that reached the channel, if one did.
    pub fn delivered(&self) -> (scheme: Option<ColorScheme>)
        ensures
            scheme == self.delivered_scheme(),
    {
        match self {
            Notice::Delivered(s) => Some(*s),
            _ => None,
        }
    }
}

/// The sending end of the bridge. The notification callback owns it.
pub struct Producer {
    tx: futures::channel::mpsc::Sender<ColorScheme>,
}

impl Producer {
    /// Handles one notification. `fetched` is the background colour as the
    /// provider gave it when asked, or `None` where it failed to.
    ///
    /// Without a sample nothing is sent. With one, its scheme is offered to
    /// the channel once, without waiting, and the notice carries that scheme
    /// together with the way the send ended.
    pub fn notify(&mut self, fetched: Option<ColorSample>) -> (notice: Notice)
        ensures
            fetched is None ==> notice == Notice::Ignored,
            fetched is Some ==> exists|outcome: SendOutcome| notice == notice_of(fetched, outcome),
    {
        match fetched {
            None => Notice::Ignored,
            Some(sample) => {
                let scheme = classify(sample);
                let outcome = offer(&mut self.tx, scheme);
                assert(settled(scheme, outcome) == notice_of(fetched, outcome));
                settle(scheme, outcome)
            },
        }
    }
}

/// Opens the bridge: a one-slot channel, its sending end for the callback and
/// its receiving end for the receiver that is being set up. The channel is
/// made with no buffer beyond the slot that it keeps for its one sender, and
/// its stream has not ended.
pub fn open() -> (ends: (Producer, Registering))
    ensures
        buffer_of(ends.1.channel_end()) == BUFFER,
        !terminated(ends.1.channel_end()),
{
    let (tx, rx) = open_channel(BUFFER);
    (Producer { tx }, Registering::holding(rx))
}

} // verus!
