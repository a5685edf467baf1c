//! The consumer's side of the bridge and the lifetime of the subscription.

use vstd::prelude::*;
use crate::scheme::ColorScheme;
use crate::bridge::Polled;
use crate::channel::{close_channel, poll_channel, terminated};

verus! {

/// What the provider reported when it refused a request.
#[derive(Debug, PartialEq, Eq)]
pub struct ProviderError {
    pub code: i32,
    pub message: String,
}

/// Why no receiver could be made.
#[derive(Debug)]
pub enum Error {
    /// The provider could not be reached or refused the registration.
    WinError(ProviderError),
}

/// Where a receiver stands in its life.
#[derive(Clone, Copy, Debug, PartialEq, Eq, Structural)]
pub enum Phase {
    /// The subscription is live and the token is owed to the provider.
    Active,
    /// The token has been handed out for unregistration. There is no way back.
    TornDown,
}

/// A receiver in the making: the channel is open and the callback is being
/// registered with the provider.
pub struct Registering {
    rx: futures::channel::mpsc::Receiver<ColorScheme>,
}

/// The receiving end of the bridge, with the token of its subscription.
pub struct SchemeReceiver {
    token: i64,
    phase: Phase,
    rx: futures::channel::mpsc::Receiver<ColorScheme>,
}

/// What a poll answers: what the channel was found to hold while the receiver
/// is active, the end of the stream once it is torn down.
pub open spec fn resolved(phase: Phase, found: Polled) -> Polled {
    match phase {
        Phase::Active => found,
        Phase::TornDown => Polled::Ended,
    }
}

/// What a teardown hands out: the token where the receiver is active, nothing
/// where it was torn down before.
pub open spec fn released(phase: Phase, token: i64) -> Option<i64> {
    match phase {
        Phase::Active => Some(token),
        Phase::TornDown => None,
    }
}

/// Answers a poll in `phase` for which the channel was found to hold `found`.
pub fn resolve(phase: Phase, found: Polled) -> (polled: Polled)
    ensures
        polled == resolved(phase, found),
{
    match phase {
        Phase::Active => found,
        Phase::TornDown => Polled::Ended,
    }
}

impl Registering {
    /// The receiving end of the channel that was opened.
    pub closed spec fn channel_end(&self) -> futures::channel::mpsc::Receiver<ColorScheme> {
        self.rx
    }

    pub(crate) fn holding(rx: futures::channel::mpsc::Receiver<ColorScheme>) -> (pending:
        Registering)
        ensures
            pending.channel_end() == rx,
    {
        Registering { rx }
    }
}

impl SchemeReceiver {
    /// The token that the provider gave for the subscription.
    pub closed spec fn registered_token(&self) -> i64 {
        self.token
    }

    /// Where the receiver stands in its life.
    pub closed spec fn phase(&self) -> Phase {
        self.phase
    }

    /// The receiving end of the channel that the receiver polls.
    pub closed spec fn channel_end(&self) -> futures::channel::mpsc::Receiver<ColorScheme> {
        self.rx
    }

    /// Completes the making of a receiver with the provider's answer to the
    /// registration: an active receiver that owns the token, or the provider's
    /// failure and no receiver.
    pub fn try_new(pending: Registering, registered: Result<i64, ProviderError>) -> (made: Result<
        SchemeReceiver,
        Error,
    >)
        ensures
            match registered {
                Ok(token) => made is Ok && made->Ok_0.registered_token() == token
                    && made->Ok_0.phase() == Phase::Active
                    && made->Ok_0.channel_end() == pending.channel_end(),
                Err(failure) => made is Err && made->Err_0 == Error::WinError(failure),
            },
    {
        match registered {
            Ok(token) => Ok(SchemeReceiver { token, phase: Phase::Active, rx: pending.rx }),
            Err(failure) => Err(Error::WinError(failure)),
        }
    }

    /// The token of the subscription.
    pub fn token(&self) -> (token: i64)
        ensures
            token == self.registered_token(),
    {
        self.token
    }

    /// Whether the subscription is still live.
    pub fn is_active(&self) -> (active: bool)
        ensures
            active == (self.phase() == Phase::Active),
    {
        match self.phase {
            Phase::Active => true,
            Phase::TornDown => false,
        }
    }

    /// Polls the stream. An active receiver consults only the channel and
    /// answers what it found there; where that is `Pending`, the context's
    /// waker is called when a value arrives. It answers `Ended` exactly when
    /// its end of the channel has ended for good, and goes on answering so. A
    /// receiver that is torn down answers `Ended` and does not consult the
    /// channel. The token and the phase stay as they are.
    pub fn poll_next(&mut self, cx: &mut std::task::Context<'_>) -> (polled: Polled)
        ensures
            final(self).phase() == old(self).phase(),
            final(self).registered_token() == old(self).registered_token(),
            old(self).phase() == Phase::Active ==> (polled == Polled::Ended <==> terminated(
                final(self).channel_end(),
            )),
            old(self).phase() == Phase::Active && terminated(old(self).channel_end())
                ==> polled == Polled::Ended,
            old(self).phase() == Phase::TornDown ==> polled == Polled::Ended,
            old(self).phase() == Phase::TornDown ==> final(self).channel_end() == old(
                self,
            ).channel_end(),
    {
        match self.phase {
            Phase::TornDown => Polled::Ended,
            Phase::Active => {
                let found = poll_channel(&mut self.rx, cx);
                resolve(Phase::Active, found)
            },
        }
    }

    /// Tears the receiver down. An active receiver closes its channel, so that
    /// a notification still on its way is discarded, and hands out its token:
    /// the caller owes the provider the unregistration, once. A receiver that
    /// was torn down before hands out nothing, so that no token is used twice.
    pub fn teardown(&mut self) -> (token: Option<i64>)
        ensures
            final(self).phase() == Phase::TornDown,
            final(self).registered_token() == old(self).registered_token(),
            token == released(old(self).phase(), old(self).registered_token()),
            old(self).phase() == Phase::TornDown ==> final(self).channel_end() == old(
                self,
            ).channel_end(),
    {
        match self.phase {
            Phase::TornDown => None,
            Phase::Active => {
                close_channel(&mut self.rx);
                self.phase = Phase::TornDown;
                Some(self.token)
            },
        }
    }
}

} // verus!
