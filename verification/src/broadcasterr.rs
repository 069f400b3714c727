//! A second broadcaster behind the `TBroadcaster` interface, so that servers
//! can be built against the interface rather than the concrete type.

use vstd::prelude::*;
use bytes::Bytes;
use tokio::sync::mpsc::{Receiver, Sender};

use crate::broadcaster::{offer_to_all, offers_to_all, register_client, CLIENT_QUEUE_CAPACITY};
use crate::sse::{connected_frame_spec, message_frame, message_frame_spec};
use crate::transport::{frame_channel_bound, frame_receiver_channel, frame_sender_channel, Offer, OfferLog};

verus! {

/// What a server needs from a broadcaster: subscribing clients and fanning a
/// message out to them. Both take the broadcaster mutably, because both
/// record the offers they make.
pub trait TBroadcaster: Send {
    fn new_client(&mut self) -> Client;

    fn send(&mut self, msg: &str);
}

/// A broadcaster that keeps the sending halves of its clients' channels.
pub struct Broadcasterr {
    clients: Vec<Sender<Bytes>>,
    offers: OfferLog,
}

/// The receiving end of one client's event stream.
pub struct Client(pub Receiver<Bytes>);

impl View for Broadcasterr {
    type V = Seq<Sender<Bytes>>;

    /// The subscribed clients, oldest first.
    closed spec fn view(&self) -> Seq<Sender<Bytes>> {
        self.clients@
    }
}

impl Broadcasterr {
    /// Every offer of a frame this broadcaster has made, oldest first.
    pub closed spec fn offers(&self) -> Seq<Offer> {
        self.offers.entries()
    }

    /// A broadcaster with no clients, that has offered nothing yet.
    pub fn new() -> (b: Self)
        ensures
            b@ == Seq::<Sender<Bytes>>::empty(),
            b.offers() == Seq::<Offer>::empty(),
    {
        Broadcasterr { clients: Vec::new(), offers: OfferLog::new() }
    }
}

impl TBroadcaster for Broadcasterr {
    /// Subscribes a new client: it is appended after the existing clients,
    /// and the appended sender feeds the returned client's channel, which
    /// holds `CLIENT_QUEUE_CAPACITY` frames. The only offer made is the
    /// `connected` frame to the new client, which takes it.
    fn new_client(&mut self) -> (client: Client)
        ensures
            final(self)@.len() == old(self)@.len() + 1,
            final(self)@.drop_last() == old(self)@,
            frame_sender_channel(final(self)@.last()) == frame_receiver_channel(client.0),
            frame_channel_bound(final(self)@.last()) == CLIENT_QUEUE_CAPACITY,
            final(self).offers() == old(self).offers().push(
                (frame_sender_channel(final(self)@.last()), connected_frame_spec(), true),
            ),
    {
        let rx = register_client(&mut self.clients, &mut self.offers);
        Client(rx)
    }

    /// Offers the `message` frame carrying `msg` to every client once, in
    /// their order, and nothing else; a client whose channel refuses it simply
    /// misses it, and stays subscribed.
    fn send(&mut self, msg: &str)
        ensures
            final(self)@ == old(self)@,
            exists|accepted: Seq<bool>|
                accepted.len() == old(self)@.len() && final(self).offers() == old(self).offers()
                    + offers_to_all(old(self)@, message_frame_spec(msg@), accepted),
    {
        let frame = message_frame(msg);
        let accepted = offer_to_all(&self.clients, &frame, &mut self.offers);
        assert(accepted@.len() == old(self)@.len() && self.offers() == old(self).offers()
            + offers_to_all(old(self)@, message_frame_spec(msg@), accepted@));
    }
}

} // verus!
