//! The tokio channels that carry event frames to subscribed clients.
//!
//! Verus sees the channel halves and the byte buffers as opaque values: which
//! frames a receiver will read depends on the receiving task and on the
//! channel's fill level at the moment of sending, so nothing below names the
//! contents of a channel. What is named is which channel a half belongs to,
//! and the bound a channel was made with; and every offer of a frame is
//! recorded, in order, in an `OfferLog` that only the functions below extend.

use vstd::prelude::*;
use bytes::Bytes;
use tokio::sync::mpsc::{Receiver, Sender};

verus! {

#[verifier::external_type_specification]
#[verifier::external_body]
pub struct ExBytes(bytes::Bytes);

#[verifier::external_type_specification]
#[verifier::external_body]
#[verifier::reject_recursive_types(T)]
pub struct ExSender<T>(tokio::sync::mpsc::Sender<T>);

#[verifier::external_type_specification]
#[verifier::external_body]
#[verifier::reject_recursive_types(T)]
pub struct ExReceiver<T>(tokio::sync::mpsc::Receiver<T>);

/// The channel a sending half feeds. Two halves with the same value belong to
/// one channel; a half stays with the channel it was made for.
pub uninterp spec fn frame_sender_channel(tx: Sender<Bytes>) -> int;

/// The channel a receiving half drains.
pub uninterp spec fn frame_receiver_channel(rx: Receiver<Bytes>) -> int;

/// The bound a sending half's channel was made with, as
/// `tokio::sync::mpsc::Sender::max_capacity` reports it.
pub uninterp spec fn frame_channel_bound(tx: Sender<Bytes>) -> nat;

/// The largest bound tokio accepts: `tokio::sync::Semaphore::MAX_PERMITS`,
/// which is `usize::MAX >> 3`, that is `usize::MAX / 8`.
pub open spec fn max_frame_channel_bound() -> nat {
    (usize::MAX / 8) as nat
}

/// One offer of a frame: the channel it was offered to, the frame's text,
/// and whether the channel took it.
pub type Offer = (int, Seq<char>, bool);

/// The offers made so far, oldest first. Only the functions of this module
/// add to it, one entry per offer they make.
pub struct OfferLog {
    entries: Ghost<Seq<Offer>>,
}

impl OfferLog {
    /// The offers recorded, oldest first.
    pub closed spec fn entries(&self) -> Seq<Offer> {
        self.entries@
    }

    /// A log with no offers.
    pub fn new() -> (log: Self)
        ensures
            log.entries() == Seq::<Offer>::empty(),
    {
        OfferLog { entries: Ghost(Seq::empty()) }
    }
}

/// Opens a bounded channel with `tokio::sync::mpsc::channel` and offers it
/// `greeting` with `Sender::try_send`, unwrapping the outcome.
///
/// tokio panics on a bound of 0 or above `Semaphore::MAX_PERMITS`, hence the
/// `requires`. The two halves belong to one channel whose bound is
/// `capacity`. The greeting is taken: the channel is fresh, so it has room
/// (`capacity > 0`), and its receiver is alive, being returned here; `try_send`
/// refuses only a full or closed channel. The offer is recorded.
#[verifier::external_body]
pub(crate) fn open_greeted_channel(capacity: usize, greeting: String, log: &mut OfferLog) -> (halves: (
    Sender<Bytes>,
    Receiver<Bytes>,
))
    requires
        0 < capacity <= max_frame_channel_bound(),
    ensures
        frame_sender_channel(halves.0) == frame_receiver_channel(halves.1),
        frame_channel_bound(halves.0) == capacity,
        final(log).entries() == old(log).entries().push((frame_sender_channel(halves.0), greeting@, true)),
{
    let (tx, rx) = tokio::sync::mpsc::channel(capacity);
    tx.try_send(Bytes::from(greeting)).unwrap();
    (tx, rx)
}

/// Offers one frame to a client with `tokio::sync::mpsc::Sender::try_send`,
/// after turning the text into `Bytes` with `Bytes::from`.
///
/// Returns whether the channel took the frame, and records the offer and its
/// outcome. tokio refuses a frame when the channel is full or its receiver is
/// gone; both depend on the receiving task, so which outcome comes back is
/// left free, and what the receiver goes on to read is not claimed.
#[verifier::external_body]
pub(crate) fn try_send_frame(client: &Sender<Bytes>, frame: String, log: &mut OfferLog) -> (accepted: bool)
    ensures
        final(log).entries() == old(log).entries().push((frame_sender_channel(*client), frame@, accepted)),
{
    client.try_send(Bytes::from(frame)).is_ok()
}

} // verus!
