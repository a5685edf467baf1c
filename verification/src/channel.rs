//! The channel of the `futures` crate that carries the schemes. Verus does not
//! see inside it: what this file states of it is believed, not proved.

use vstd::prelude::*;
use crate::scheme::ColorScheme;
use crate::bridge::{Polled, SendOutcome};

verus! {

#[verifier::external_type_specification]
#[verifier::external_body]
#[verifier::reject_recursive_types(T)]
pub struct ExSender<T>(futures::channel::mpsc::Sender<T>);

#[verifier::external_type_specification]
#[verifier::external_body]
#[verifier::reject_recursive_types(T)]
pub struct ExReceiver<T>(futures::channel::mpsc::Receiver<T>);

#[verifier::external_type_specification]
#[verifier::external_body]
pub struct ExContext<'a>(std::task::Context<'a>);

/// The buffer that the channel of this receiving end was made with. The
/// channel holds that many values and one more for its sender.
pub uninterp spec fn buffer_of(rx: futures::channel::mpsc::Receiver<ColorScheme>) -> nat;

/// Whether this receiving end has ended for good: it has let go of its channel,
/// as `FusedStream::is_terminated` reports it.
pub uninterp spec fn terminated(rx: futures::channel::mpsc::Receiver<ColorScheme>) -> bool;

/// Calls `futures::channel::mpsc::channel`, which makes a channel with the
/// given buffer and hands out its two ends; the receiving end holds its
/// channel, so it has not ended. Nothing is claimed of the sending end. The
/// call panics on a buffer of a quarter of the address space or more, which
/// the precondition leaves out.
#[verifier::external_body]
pub(crate) fn open_channel(buffer: usize) -> (ends: (
    futures::channel::mpsc::Sender<ColorScheme>,
    futures::channel::mpsc::Receiver<ColorScheme>,
))
    requires
        buffer < usize::MAX / 4,
    ensures
        buffer_of(ends.1) == buffer,
        !terminated(ends.1),
{
    futures::channel::mpsc::channel(buffer)
}

/// Calls `Sender::try_send`, which never waits. Whether the channel takes the
/// value depends on what the other end has done, so nothing is claimed of the
/// outcome: it is `Full` where the error says so, `Disconnected` for the other
/// error.
#[verifier::external_body]
pub(crate) fn offer(
    tx: &mut futures::channel::mpsc::Sender<ColorScheme>,
    scheme: ColorScheme,
) -> (outcome: SendOutcome) {
    match tx.try_send(scheme) {
        Ok(()) => SendOutcome::Delivered,
        Err(refused) => if refused.is_full() {
            SendOutcome::Full
        } else {
            SendOutcome::Disconnected
        },
    }
}

/// Calls `poll_next` of the receiving end, which registers the context's waker
/// where it finds no value. Whether it finds a value depends on what the other
/// end has done, and nothing is claimed of that. What is claimed: the poll
/// answers that the stream has ended exactly when the receiving end lets go of
/// its channel or has done so before, and an end that has let go answers
/// nothing else.
#[verifier::external_body]
pub(crate) fn poll_channel(
    rx: &mut futures::channel::mpsc::Receiver<ColorScheme>,
    cx: &mut std::task::Context<'_>,
) -> (polled: Polled)
    ensures
        polled == Polled::Ended <==> terminated(*final(rx)),
        terminated(*old(rx)) ==> polled == Polled::Ended,
{
    match futures::StreamExt::poll_next_unpin(rx, cx) {
        std::task::Poll::Ready(Some(scheme)) => Polled::Ready(scheme),
        std::task::Poll::Ready(None) => Polled::Ended,
        std::task::Poll::Pending => Polled::Pending,
    }
}

/// Calls `Receiver::close`: from then on the channel refuses every send.
/// Nothing is claimed of the receiving end afterwards.
#[verifier::external_body]
pub(crate) fn close_channel(rx: &mut futures::channel::mpsc::Receiver<ColorScheme>) {
    rx.close()
}

} // verus!
