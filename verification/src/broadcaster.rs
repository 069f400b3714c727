//! The broadcaster: the set of subscribed event-stream clients, and the
//! fan-out of messages to them.

use vstd::prelude::*;
use bytes::Bytes;
use tokio::sync::mpsc::{Receiver, Sender};

use crate::sse::{
    connected_frame, connected_frame_spec, message_frame, message_frame_spec, ping_frame,
    ping_frame_spec,
};
use crate::transport::{
    frame_channel_bound, frame_receiver_channel, frame_sender_channel, open_greeted_channel,
    try_send_frame, Offer, OfferLog,
};

verus! {

/// How many frames a client's channel buffers before further frames are
/// refused.
pub const CLIENT_QUEUE_CAPACITY: usize = 100;

/// Seconds between two liveness probes of all clients.
pub const PING_INTERVAL_SECS: u64 = 10;

/// The items of `items` whose flag in `keep` (same position) is set, in their
/// original order.
pub open spec fn select<T>(items: Seq<T>, keep: Seq<bool>) -> Seq<T>
    recommends
        keep.len() == items.len(),
    decreases items.len(),
{
    if items.len() == 0 {
        Seq::empty()
    } else {
        let before = select(items.drop_last(), keep.drop_last());
        if keep.last() {
            before.push(items.last())
        } else {
            before
        }
    }
}

/// Keeps the items whose flag is set, dropping the others, order preserved.
pub fn retain_flagged<T>(items: Vec<T>, keep: &Vec<bool>) -> (kept: Vec<T>)
    requires
        keep@.len() == items@.len(),
    ensures
        kept@ == select(items@, keep@),
{
    let ghost all = items@;
    let mut kept: Vec<T> = Vec::new();
    let n = keep.len();
    let mut i: usize = 0;
    for item in it: items.into_iter()
        invariant
            n == keep@.len(),
            i == it.index(),
            it.seq() == all,
            keep@.len() == all.len(),
            kept@ == select(all.take(i as int), keep@.take(i as int)),
    {
        proof {
            assert(all.take(i + 1).drop_last() =~= all.take(i as int));
            assert(keep@.take(i + 1).drop_last() =~= keep@.take(i as int));
            assert(all.take(i + 1).last() == all[i as int]);
        }
        if keep[i] {
            kept.push(item);
        }
        i = i + 1;
    }
    proof {
        assert(all.take(all.len() as int) =~= all);
        assert(keep@.take(keep@.len() as int) =~= keep@);
    }
    kept
}

/// Opens a channel of `CLIENT_QUEUE_CAPACITY` frames for a new client,
/// greets it, and appends its sending half to `clients`; the receiving half
/// of the same channel is handed back. The greeting is the only offer made,
/// and the fresh channel takes it.
pub(crate) fn register_client(clients: &mut Vec<Sender<Bytes>>, log: &mut OfferLog) -> (rx: Receiver<Bytes>)
    ensures
        final(clients)@.len() == old(clients)@.len() + 1,
        final(clients)@.drop_last() == old(clients)@,
        frame_sender_channel(final(clients)@.last()) == frame_receiver_channel(rx),
        frame_channel_bound(final(clients)@.last()) == CLIENT_QUEUE_CAPACITY,
        final(log).entries() == old(log).entries().push(
            (frame_sender_channel(final(clients)@.last()), connected_frame_spec(), true),
        ),
{
    let (tx, rx) = open_greeted_channel(CLIENT_QUEUE_CAPACITY, connected_frame(), log);
    clients.push(tx);
    proof {
        assert(clients@.drop_last() =~= old(clients)@);
    }
    rx
}

/// The offers of `frame` to each client of `clients` in turn, the outcome for
/// each client at the same position of `accepted`.
pub open spec fn offers_to_all(clients: Seq<Sender<Bytes>>, frame: Seq<char>, accepted: Seq<bool>) -> Seq<Offer> {
    Seq::new(clients.len(), |j: int| (frame_sender_channel(clients[j]), frame, accepted[j]))
}

/// Offers `frame` to every client once, in turn, and reports, per client,
/// whether its channel took the frame.
pub(crate) fn offer_to_all(clients: &Vec<Sender<Bytes>>, frame: &String, log: &mut OfferLog) -> (accepted: Vec<bool>)
    ensures
        accepted@.len() == clients@.len(),
        final(log).entries() == old(log).entries() + offers_to_all(clients@, frame@, accepted@),
{
    let mut accepted: Vec<bool> = Vec::new();
    let mut i: usize = 0;
    while i < clients.len()
        invariant
            i <= clients@.len(),
            accepted@.len() == i,
            log.entries() == old(log).entries() + offers_to_all(clients@.take(i as int), frame@, accepted@),
        decreases clients@.len() - i,
    {
        let ghost prev = accepted@;
        let ok = try_send_frame(&clients[i], frame.clone(), log);
        accepted.push(ok);
        proof {
            assert(accepted@.drop_last() =~= prev);
            assert(offers_to_all(clients@.take(i + 1), frame@, accepted@) =~= offers_to_all(
                clients@.take(i as int),
                frame@,
                prev,
            ).push((frame_sender_channel(clients@[i as int]), frame@, ok)));
        }
        i = i + 1;
    }
    proof {
        assert(clients@.take(clients@.len() as int) =~= clients@);
    }
    accepted
}

/// Fans messages out to every subscribed event-stream client.
pub struct Broadcaster {
    clients: Vec<Sender<Bytes>>,
    offers: OfferLog,
}

/// The receiving end of one client's event stream.
pub struct Client(pub Receiver<Bytes>);

impl View for Broadcaster {
    type V = Seq<Sender<Bytes>>;

    /// The subscribed clients, oldest first.
    closed spec fn view(&self) -> Seq<Sender<Bytes>> {
        self.clients@
    }
}

impl Broadcaster {
    /// Every offer of a frame this broadcaster has made, oldest first.
    pub closed spec fn offers(&self) -> Seq<Offer> {
        self.offers.entries()
    }

    /// A broadcaster with no clients, that has offered nothing yet.
    pub fn new() -> (b: Self)
        ensures
            b@ == Seq::<Sender<Bytes>>::empty(),
            b.offers() == Seq::<Offer>::empty(),
    {
        Broadcaster { clients: Vec::new(), offers: OfferLog::new() }
    }

    /// Subscribes a new client: it is appended after the existing clients,
    /// and the appended sender feeds the returned client's channel, which
    /// holds `CLIENT_QUEUE_CAPACITY` frames. The only offer made is the
    /// `connected` frame to the new client, which takes it.
    pub fn new_client(&mut self) -> (client: Client)
        ensures
            final(self)@.len() == old(self)@.len() + 1,
            final(self)@.drop_last() == old(self)@,
            frame_sender_channel(final(self)@.last()) == frame_receiver_channel(client.0),
            frame_channel_bound(final(self)@.last()) == CLIENT_QUEUE_CAPACITY,
            final(self).offers() == old(self).offers().push(
                (frame_sender_channel(final(self)@.last()), connected_frame_spec(), true),
            ),
    {
        let rx = register_client(&mut self.clients, &mut self.offers);
        Client(rx)
    }

    /// Offers the `message` frame carrying `msg` to every client once, in
    /// their order, and nothing else; a client whose channel refuses it simply
    /// misses it, and stays subscribed.
    pub fn send(&mut self, msg: &str)
        ensures
            final(self)@ == old(self)@,
            exists|accepted: Seq<bool>|
                accepted.len() == old(self)@.len() && final(self).offers() == old(self).offers()
                    + offers_to_all(old(self)@, message_frame_spec(msg@), accepted),
    {
        let frame = message_frame(msg);
        let accepted = offer_to_all(&self.clients, &frame, &mut self.offers);
        assert(accepted@.len() == old(self)@.len() && self.offers() == old(self).offers()
            + offers_to_all(old(self)@, message_frame_spec(msg@), accepted@));
    }

    /// Probes every client once with the `ping` frame, offering nothing else,
    /// and keeps exactly those whose channel took it, in their order.
    pub fn remove_stale_clients(&mut self)
        ensures
            exists|answered: Seq<bool>|
                {
                    &&& answered.len() == old(self)@.len()
                    &&& final(self).offers() == old(self).offers() + offers_to_all(
                        old(self)@,
                        ping_frame_spec(),
                        answered,
                    )
                    &&& final(self)@ == select(old(self)@, answered)
                },
    {
        let frame = ping_frame();
        let answered = offer_to_all(&self.clients, &frame, &mut self.offers);
        let mut clients: Vec<Sender<Bytes>> = Vec::new();
        std::mem::swap(&mut clients, &mut self.clients);
        self.clients = retain_flagged(clients, &answered);
        assert(answered@.len() == old(self)@.len() && self.offers() == old(self).offers()
            + offers_to_all(old(self)@, ping_frame_spec(), answered@) && self@ == select(
            old(self)@,
            answered@,
        ));
    }
}

} // verus!

verus! {

/// Pruning never adds: the kept items are at most as many as the items.
pub proof fn lemma_select_shrinks<T>(items: Seq<T>, keep: Seq<bool>)
    requires
        keep.len() == items.len(),
    ensures
        select(items, keep).len() <= items.len(),
    decreases items.len(),
{
    if items.len() > 0 {
        lemma_select_shrinks(items.drop_last(), keep.drop_last());
    }
}

/// When every item is flagged, pruning keeps everything as it was.
pub proof fn lemma_select_all<T>(items: Seq<T>, keep: Seq<bool>)
    requires
        keep.len() == items.len(),
        forall|i: int| 0 <= i < keep.len() ==> keep[i],
    ensures
        select(items, keep) == items,
    decreases items.len(),
{
    if items.len() > 0 {
        lemma_select_all(items.drop_last(), keep.drop_last());
        assert(keep.last());
        assert(items.drop_last().push(items.last()) =~= items);
    }
}

/// When no item is flagged, pruning keeps nothing.
pub proof fn lemma_select_none<T>(items: Seq<T>, keep: Seq<bool>)
    requires
        keep.len() == items.len(),
        forall|i: int| 0 <= i < keep.len() ==> !keep[i],
    ensures
        select(items, keep) == Seq::<T>::empty(),
    decreases items.len(),
{
    if items.len() > 0 {
        lemma_select_none(items.drop_last(), keep.drop_last());
        assert(!keep.last());
    }
}

/// Pruning keeps order: the kept items sit at strictly increasing positions
/// of the original items, each at a flagged position.
pub proof fn lemma_select_is_ordered_sublist<T>(items: Seq<T>, keep: Seq<bool>)
    requires
        keep.len() == items.len(),
    ensures
        exists|pos: Seq<int>|
            #![trigger pos.len()]
            {
                &&& pos.len() == select(items, keep).len()
                &&& forall|j: int|
                    0 <= j < pos.len() ==> 0 <= #[trigger] pos[j] < items.len() && keep[pos[j]]
                        && select(items, keep)[j] == items[pos[j]]
                &&& forall|j1: int, j2: int| 0 <= j1 < j2 < pos.len() ==> pos[j1] < pos[j2]
            },
    decreases items.len(),
{
    let sel = select(items, keep);
    if items.len() == 0 {
        let pos = Seq::<int>::empty();
        assert(pos.len() == sel.len());
    } else {
        let init = items.drop_last();
        let kinit = keep.drop_last();
        lemma_select_is_ordered_sublist(init, kinit);
        let before = select(init, kinit);
        let pos0: Seq<int> = choose|pos: Seq<int>|
            #![trigger pos.len()]
            {
                &&& pos.len() == before.len()
                &&& forall|j: int|
                    0 <= j < pos.len() ==> 0 <= #[trigger] pos[j] < init.len() && kinit[pos[j]]
                        && before[j] == init[pos[j]]
                &&& forall|j1: int, j2: int| 0 <= j1 < j2 < pos.len() ==> pos[j1] < pos[j2]
            };
        if keep.last() {
            let last = items.len() - 1;
            let pos = pos0.push(last);
            assert(sel == before.push(items.last()));
            assert forall|j: int| 0 <= j < pos.len() implies 0 <= #[trigger] pos[j] < items.len()
                && keep[pos[j]] && sel[j] == items[pos[j]] by {
                if j < pos0.len() {
                    assert(pos[j] == pos0[j]);
                }
            }
            assert(pos.len() == sel.len());
        } else {
            let pos = pos0;
            assert(sel == before);
            assert forall|j: int| 0 <= j < pos.len() implies 0 <= #[trigger] pos[j] < items.len()
                && keep[pos[j]] && sel[j] == items[pos[j]] by {}
            assert(pos.len() == sel.len());
        }
    }
}

} // verus!

verus! {

/// After pruning on the outcomes of an offer, every client that is kept took
/// the frame it was offered: the offers hold an accepted offer to its channel.
pub proof fn lemma_kept_clients_took_the_offer(
    clients: Seq<Sender<Bytes>>,
    frame: Seq<char>,
    answered: Seq<bool>,
)
    requires
        answered.len() == clients.len(),
    ensures
        forall|j: int|
            0 <= j < select(clients, answered).len() ==> offers_to_all(clients, frame, answered).contains(
                (frame_sender_channel(#[trigger] select(clients, answered)[j]), frame, true),
            ),
{
    lemma_select_is_ordered_sublist(clients, answered);
    let sel = select(clients, answered);
    let offers = offers_to_all(clients, frame, answered);
    let pos: Seq<int> = choose|pos: Seq<int>|
        #![trigger pos.len()]
        {
            &&& pos.len() == sel.len()
            &&& forall|j: int|
                0 <= j < pos.len() ==> 0 <= #[trigger] pos[j] < clients.len() && answered[pos[j]]
                    && sel[j] == clients[pos[j]]
            &&& forall|j1: int, j2: int| 0 <= j1 < j2 < pos.len() ==> pos[j1] < pos[j2]
        };
    assert forall|j: int| 0 <= j < sel.len() implies offers.contains(
        (frame_sender_channel(#[trigger] sel[j]), frame, true),
    ) by {
        let i = pos[j];
        assert(0 <= i < clients.len() && answered[i] && sel[j] == clients[i]);
        assert(offers[i] == (frame_sender_channel(clients[i]), frame, answered[i]));
    }
}

} // verus!
