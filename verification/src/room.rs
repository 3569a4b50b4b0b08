//! A room: the peers in it, and what is to be done on each thing that happens.

use std::collections::HashMap;

use crate::media::{
    AudioLevel, ConsumerId, ConsumerLayers, ConsumerOptions, DtlsParameters, IceParameters,
    MediaKind, NewConsumer, NewTransport, ProducerId, ProducerOptions, RtpCapabilities,
    RtpCapabilitiesFinalized, RtpParameters, TransportId, TransportOptions,
};
use crate::listing::{keys_of, lists, members_of};
use crate::peer::{Peer, PeerEvent, PeerProducer, PeerTransport, PeerTx, PeerView};
use crate::rules::{
    closing, consume_requests, consumed, consumer_closed, consumes, grouped, handled,
    ice_restarted, join_plan, joined, knocked, leave_plan, left, produce_plan, produce_requests,
    produced, producer_closed, released, transport_created, transport_requests, RoomView,
};
use crate::uid::Uid;
use vstd::prelude::*;

verus! {

/// What a room's channel carries.
#[allow(inconsistent_fields)]
#[derive(Debug, PartialEq, Eq)]
pub enum Event {
    KnockKnock { user_id: Uid, tx: PeerTx },
    Join { user_id: Uid, rtp_caps: Option<RtpCapabilities> },
    Produce {
        user_id: Uid,
        transport_id: TransportId,
        kind: MediaKind,
        rtp_params: RtpParameters,
        is_share: bool,
    },
    CreateRtcTransport {
        tag: Option<String>,
        user_id: Uid,
        force_tcp: Option<bool>,
        produce: bool,
        consume: bool,
    },
    ConnectRtcTransport { user_id: Uid, transport_id: TransportId, dtls_params: DtlsParameters },
    RestartIce { user_id: Uid, transport_id: TransportId },
    OnConsumerTransportClose { user_id: Uid, consumer_id: ConsumerId },
    OnProducerClose { consumer_peer_id: Uid, consumer_id: ConsumerId },
    CloseProducer { producer_peer_id: Uid, id: ProducerId },
    PauseProducer { producer_peer_id: Uid, id: ProducerId },
    ResumeProducer { producer_peer_id: Uid, id: ProducerId },
    PauseConsumer { consumer_peer_id: Uid, id: ConsumerId },
    ResumeConsumer { consumer_peer_id: Uid, id: ConsumerId },
    SetConsumerLayers { user_id: Uid, consumer_id: ConsumerId, spatial: u8, temporal: u8 },
    SetConsumerPriority { user_id: Uid, consumer_id: ConsumerId, priority: u8 },
    OnAudioLevelsChange { producer: Option<AudioLevel> },
    Leave { user_id: Uid },
    /// Closes the room, whoever is in it.
    KillAll,
}

/// One peer's media source, held out to another peer.
#[derive(Debug, Copy, Clone, PartialEq, Eq, Structural)]
pub struct Offer {
    pub consumer_peer_id: Uid,
    pub producer_peer_id: Uid,
    pub producer_id: ProducerId,
    pub is_share: bool,
}

/// What a room wants done. Some actions bring an answer, which goes to the method named here
/// before the next action is taken up; the actions that the method gives back come first.
#[allow(inconsistent_fields)]
#[derive(Debug, PartialEq, Eq)]
pub enum Action {
    /// Send to a peer.
    Send { tx: PeerTx, event: PeerEvent },
    /// Let go of a peer's channel.
    Forget { tx: PeerTx },
    /// Ask the router whether an endpoint with these capabilities can consume the offered
    /// producer; answered with `Room::can_consume`.
    CanConsume { offer: Offer, rtp_caps: RtpCapabilities },
    /// Create a consumer on a transport; answered with `Room::consumed`.
    Consume { offer: Offer, transport_id: TransportId, options: ConsumerOptions },
    /// Pass a consumer's signals on to its owner.
    WatchConsumer { consumer_id: ConsumerId, tx: PeerTx, producer_peer_id: Uid },
    /// Create a producer on a transport; answered with `Room::produced`.
    Produce {
        user_id: Uid,
        transport_id: TransportId,
        options: ProducerOptions,
        is_share: bool,
    },
    /// Create a transport; answered with `Room::transport_created`.
    CreateTransport {
        user_id: Uid,
        tag: Option<String>,
        options: TransportOptions,
        produce: bool,
        consume: bool,
    },
    /// Connect a transport to its client's side.
    ConnectTransport { transport_id: TransportId, dtls_params: DtlsParameters },
    /// Restart a transport's ICE; answered with `Room::ice_restarted`.
    RestartIce { user_id: Uid, transport_id: TransportId },
    CloseTransport { id: TransportId },
    CloseProducer { id: ProducerId },
    CloseConsumer { id: ConsumerId },
    PauseProducer { id: ProducerId },
    ResumeProducer { id: ProducerId },
    PauseConsumer { id: ConsumerId },
    ResumeConsumer { id: ConsumerId },
    SetPreferredLayers { id: ConsumerId, layers: ConsumerLayers },
    SetPriority { id: ConsumerId, priority: u8 },
}

/// A room's response to one event: what is to be done, in order, and whether that was the
/// room's last event. After its last event the room handles no other, and what it still holds
/// goes with it.
#[derive(Debug, PartialEq, Eq)]
pub struct Step {
    pub actions: Vec<Action>,
    pub done: bool,
}

/// A room.
pub struct Room {
    id: Uid,
    rtp_caps: RtpCapabilitiesFinalized,
    peers: HashMap<u64, Peer>,
}

/// The contents of several peers.
spec fn views(peers: Map<u64, Peer>) -> Map<u64, PeerView> {
    peers.map_values(|p: Peer| p@)
}

impl View for Room {
    type V = RoomView;

    closed spec fn view(&self) -> RoomView {
        RoomView { id: self.id, rtp_caps: self.rtp_caps, peers: views(self.peers@) }
    }
}

/// What one peer has to offer to another.
spec fn wares(consumer: Uid, producer: Uid, peer: PeerView) -> Set<Offer> {
    Set::new(
        |o: Offer|
            {
                &&& o.consumer_peer_id == consumer
                &&& o.producer_peer_id == producer
                &&& peer.producers.contains_key(o.producer_id.0)
                &&& o.is_share == peer.producers[o.producer_id.0].is_share
            },
    )
}

/// Lists what one peer has to offer to another.
fn offers_between(consumer: Uid, producer: Uid, peer: &Peer) -> (r: Vec<Offer>)
    ensures
        lists(r@, wares(consumer, producer, peer@)),
{
    let ids = keys_of(&peer.producers);
    let mut r: Vec<Offer> = Vec::new();
    for i in 0..ids.len()
        invariant
            r.len() == i,
            lists(ids@, peer.producers@.dom()),
            forall|j: int|
                0 <= j < i ==> #[trigger] r[j] == (Offer {
                    consumer_peer_id: consumer,
                    producer_peer_id: producer,
                    producer_id: ProducerId(ids[j]),
                    is_share: peer.producers@[ids[j]].is_share,
                }),
    {
        assert(ids@.contains(ids[i as int]));
        match peer.producers.get(&ids[i]) {
            Some(p) => {
                r.push(
                    Offer {
                        consumer_peer_id: consumer,
                        producer_peer_id: producer,
                        producer_id: ProducerId(ids[i]),
                        is_share: p.is_share,
                    },
                );
            },
            None => {
                assert(false);
            },
        }
    }
    proof {
        assert forall|o: Offer| #[trigger] r@.contains(o) <==> wares(
            consumer,
            producer,
            peer@,
        ).contains(o) by {
            if r@.contains(o) {
                let j = choose|j: int| 0 <= j < r.len() && r[j] == o;
                assert(ids@.contains(ids[j]));
            }
            if wares(consumer, producer, peer@).contains(o) {
                assert(ids@.contains(o.producer_id.0));
                let j = choose|j: int| 0 <= j < ids.len() && ids[j] == o.producer_id.0;
                assert(r[j] == o);
            }
        }
        assert forall|i: int, j: int| 0 <= i < j < r.len() implies r[i] != r[j] by {
            assert(ids[i] != ids[j]);
        }
    }
    r
}

/// The users of several peers.
spec fn users(peers: Map<u64, PeerView>) -> Set<Uid> {
    Set::new(|u: Uid| peers.contains_key(u.0))
}

/// Lists the users of several peers.
fn users_of(peers: &HashMap<u64, Peer>) -> (r: Vec<Uid>)
    ensures
        lists(r@, users(views(peers@))),
{
    let ids = keys_of(peers);
    let mut r: Vec<Uid> = Vec::new();
    for i in 0..ids.len()
        invariant
            r.len() == i,
            forall|j: int| 0 <= j < i ==> #[trigger] r[j] == Uid(ids[j]),
    {
        r.push(Uid(ids[i]));
    }
    proof {
        assert forall|u: Uid| #[trigger] r@.contains(u) <==> users(views(peers@)).contains(u) by {
            if r@.contains(u) {
                let j = choose|j: int| 0 <= j < r.len() && r[j] == u;
                assert(ids@.contains(ids[j]));
            }
            if users(views(peers@)).contains(u) {
                assert(ids@.contains(u.0));
                let j = choose|j: int| 0 <= j < ids.len() && ids[j] == u.0;
                assert(r[j] == u);
            }
        }
        assert forall|i: int, j: int| 0 <= i < j < r.len() implies r[i] != r[j] by {
            assert(ids[i] != ids[j]);
        }
    }
    r
}

/// What several peers have to offer to another.
spec fn all_wares(consumer: Uid, peers: Map<u64, PeerView>) -> Set<Offer> {
    Set::new(
        |o: Offer|
            {
                &&& peers.contains_key(o.producer_peer_id.0)
                &&& wares(consumer, o.producer_peer_id, peers[o.producer_peer_id.0]).contains(o)
            },
    )
}

/// Lists what several peers have to offer to another, peer by peer.
fn offers_to(consumer: Uid, peers: &HashMap<u64, Peer>) -> (r: Vec<Offer>)
    ensures
        lists(r@, all_wares(consumer, views(peers@))),
        grouped(r@),
{
    let who = users_of(peers);
    let mut r: Vec<Offer> = Vec::new();
    let ghost m = views(peers@);
    for i in 0..who.len()
        invariant
            m == views(peers@),
            lists(who@, users(m)),
            r@.no_duplicates(),
            forall|o: Offer| #[trigger]
                r@.contains(o) <==> all_wares(consumer, m).contains(o) && who@.take(
                    i as int,
                ).contains(o.producer_peer_id),
            grouped(r@),
    {
        assert(who@.contains(who[i as int]));
        match peers.get(&who[i].0) {
            Some(peer) => {
                let mut part = offers_between(consumer, who[i], peer);
                proof {
                    lemma_next_group(consumer, m, who@, i as int, r@, part@);
                }
                r.append(&mut part);
            },
            None => {
                assert(false);
            },
        }
    }
    proof {
        assert(who@.take(who.len() as int) =~= who@);
        assert forall|o: Offer| #[trigger] r@.contains(o) <==> all_wares(consumer, m).contains(
            o,
        ) by {
            if all_wares(consumer, m).contains(o) {
                assert(users(m).contains(o.producer_peer_id));
            }
        }
    }
    r
}

/// Adding one more peer's offers to those of the peers before it.
proof fn lemma_next_group(
    consumer: Uid,
    peers: Map<u64, PeerView>,
    who: Seq<Uid>,
    i: int,
    r: Seq<Offer>,
    part: Seq<Offer>,
)
    requires
        0 <= i < who.len(),
        lists(who, users(peers)),
        r.no_duplicates(),
        forall|o: Offer| #[trigger]
            r.contains(o) <==> all_wares(consumer, peers).contains(o) && who.take(i).contains(
                o.producer_peer_id,
            ),
        grouped(r),
        lists(part, wares(consumer, who[i], peers[who[i].0])),
    ensures
        (r + part).no_duplicates(),
        forall|o: Offer| #[trigger]
            (r + part).contains(o) <==> all_wares(consumer, peers).contains(o) && who.take(
                i + 1,
            ).contains(o.producer_peer_id),
        grouped(r + part),
{
    let all = r + part;
    assert forall|k: int| 0 <= k < r.len() implies #[trigger] r[k].producer_peer_id != who[i] by {
        assert(r.contains(r[k]));
        let j = choose|j: int|
            0 <= j < who.take(i).len() && who.take(i)[j] == r[k].producer_peer_id;
        assert(who[j] == r[k].producer_peer_id);
    }
    assert forall|k: int| 0 <= k < part.len() implies #[trigger] part[k].producer_peer_id
        == who[i] by {
        assert(part.contains(part[k]));
    }
    assert forall|a: int, b: int| 0 <= a < b < all.len() implies all[a] != all[b] by {
        if b < r.len() {
            assert(r[a] != r[b]);
        } else if a >= r.len() {
            assert(part[a - r.len()] != part[b - r.len()]);
        } else {
            assert(r[a].producer_peer_id != part[b - r.len()].producer_peer_id);
        }
    }
    assert(who.contains(who[i]));
    assert(users(peers).contains(who[i]));
    assert(who.take(i + 1) =~= who.take(i).push(who[i]));
    assert forall|o: Offer| #[trigger] all.contains(o) <==> all_wares(consumer, peers).contains(o)
        && who.take(i + 1).contains(o.producer_peer_id) by {
        lemma_push_contains(who.take(i), who[i], o.producer_peer_id);
        if all.contains(o) {
            let k = choose|k: int| 0 <= k < all.len() && all[k] == o;
            if k < r.len() {
                assert(r.contains(r[k]));
            } else {
                assert(part.contains(part[k - r.len()]));
            }
        }
        if r.contains(o) {
            let k = choose|k: int| 0 <= k < r.len() && r[k] == o;
            assert(all[k] == o);
        }
        if part.contains(o) {
            let k = choose|k: int| 0 <= k < part.len() && part[k] == o;
            assert(all[r.len() + k] == o);
        }
    }
    assert forall|a: int, b: int, c: int|
        #![trigger all[a], all[b], all[c]]
        0 <= a <= b <= c < all.len() && all[a].producer_peer_id
            == all[c].producer_peer_id implies all[b].producer_peer_id
        == all[a].producer_peer_id by {
        if c < r.len() {
            assert(all[a] == r[a] && all[b] == r[b] && all[c] == r[c]);
        } else if a >= r.len() {
            assert(all[a] == part[a - r.len()] && all[b] == part[b - r.len()]);
        } else {
            assert(all[a] == r[a] && all[c] == part[c - r.len()]);
        }
    }
}

/// Those of several peers that can receive, offered one producer.
spec fn bids(
    producer: Uid,
    id: ProducerId,
    is_share: bool,
    peers: Map<u64, PeerView>,
) -> Set<Offer> {
    Set::new(
        |o: Offer|
            {
                &&& peers.contains_key(o.consumer_peer_id.0)
                &&& peers[o.consumer_peer_id.0].rtp_caps is Some
                &&& o.producer_peer_id == producer
                &&& o.producer_id == id
                &&& o.is_share == is_share
            },
    )
}

/// The question to the router with which an offer to one of several peers begins.
spec fn question_from(peers: Map<u64, Peer>) -> spec_fn(Offer) -> Action {
    |o: Offer|
        Action::CanConsume { offer: o, rtp_caps: peers[o.consumer_peer_id.0].rtp_caps->0 }
}

/// Offers a producer to each of several peers that can receive, with the question to the
/// router for each, and gives back the offers.
fn questions_to(
    producer: Uid,
    id: ProducerId,
    is_share: bool,
    peers: &HashMap<u64, Peer>,
    actions: &mut Vec<Action>,
) -> (offers: Vec<Offer>)
    ensures
        lists(offers@, bids(producer, id, is_share, views(peers@))),
        final(actions)@ == old(actions)@ + offers@.map_values(question_from(peers@)),
{
    let who = users_of(peers);
    let ghost m = views(peers@);
    let ghost f = question_from(peers@);
    let mut offers: Vec<Offer> = Vec::new();
    assert(actions@ =~= old(actions)@ + offers@.map_values(f));
    for i in 0..who.len()
        invariant
            m == views(peers@),
            lists(who@, users(m)),
            f == question_from(peers@),
            offers@.no_duplicates(),
            forall|o: Offer| #[trigger]
                offers@.contains(o) <==> bids(producer, id, is_share, m).contains(o) && who@.take(
                    i as int,
                ).contains(o.consumer_peer_id),
            actions@ == old(actions)@ + offers@.map_values(f),
    {
        assert(who@.contains(who[i as int]));
        match peers.get(&who[i].0) {
            Some(peer) => {
                let offer = Offer {
                    consumer_peer_id: who[i],
                    producer_peer_id: producer,
                    producer_id: id,
                    is_share,
                };
                let ghost before = offers@;
                proof {
                    assert(who@.take(i + 1) =~= who@.take(i as int).push(who[i as int]));
                    if before.contains(offer) {
                        let j = choose|j: int|
                            0 <= j < i && who@.take(i as int)[j] == who[i as int];
                        assert(who[j] == who[i as int]);
                    }
                }
                match &peer.rtp_caps {
                    Some(caps) => {
                        actions.push(Action::CanConsume { offer, rtp_caps: caps.clone() });
                        offers.push(offer);
                        assert(offers@.map_values(f) =~= before.map_values(f).push(f(offer)));
                        assert(actions@ =~= old(actions)@ + offers@.map_values(f));
                    },
                    None => {},
                }
                proof {
                    assert forall|o: Offer| #[trigger]
                        offers@.contains(o) <==> bids(producer, id, is_share, m).contains(o)
                            && who@.take(i + 1).contains(o.consumer_peer_id) by {
                        lemma_push_contains(before, offer, o);
                        lemma_push_contains(who@.take(i as int), who[i as int], o.consumer_peer_id);
                    }
                }
            },
            None => {
                assert(false);
            },
        }
    }
    proof {
        assert(who@.take(who.len() as int) =~= who@);
        assert forall|o: Offer| #[trigger] offers@.contains(o) <==> bids(
            producer,
            id,
            is_share,
            m,
        ).contains(o) by {
            if bids(producer, id, is_share, m).contains(o) {
                assert(users(m).contains(o.consumer_peer_id));
            }
        }
    }
    offers
}

proof fn lemma_push_contains<A>(s: Seq<A>, last: A, a: A)
    ensures
        s.push(last).contains(a) <==> s.contains(a) || a == last,
{
    if s.contains(a) {
        let i = choose|i: int| 0 <= i < s.len() && s[i] == a;
        assert(s.push(last)[i] == a);
    }
    assert(s.push(last)[s.len() as int] == last);
    if s.push(last).contains(a) {
        let i = choose|i: int| 0 <= i < s.push(last).len() && s.push(last)[i] == a;
        if i < s.len() {
            assert(s[i] == a);
        }
    }
}

/// What there is to tell of a peer.
#[derive(Copy, Clone)]
enum News {
    Joined,
    Left,
}

/// The message that tells it.
spec fn news_event(news: News, user_id: Uid) -> PeerEvent {
    match news {
        News::Joined => PeerEvent::NewPeerJoined { user_id },
        News::Left => PeerEvent::PeerLeft { id: user_id },
    }
}

/// Tells each of several peers the news of another, and gives back the order in which they are
/// told.
fn announce(
    news: News,
    user_id: Uid,
    peers: &HashMap<u64, Peer>,
    actions: &mut Vec<Action>,
) -> (told: Vec<Uid>)
    ensures
        lists(told@, users(views(peers@))),
        final(actions)@ == old(actions)@ + told@.map_values(
            |u: Uid|
                Action::Send { tx: views(peers@)[u.0].tx, event: news_event(news, user_id) },
        ),
{
    let told = users_of(peers);
    let ghost f = |u: Uid|
        Action::Send { tx: views(peers@)[u.0].tx, event: news_event(news, user_id) };
    assert(actions@ =~= old(actions)@ + told@.take(0).map_values(f));
    for i in 0..told.len()
        invariant
            lists(told@, users(views(peers@))),
            f == (|u: Uid|
                Action::Send { tx: views(peers@)[u.0].tx, event: news_event(news, user_id) }),
            actions@ == old(actions)@ + told@.take(i as int).map_values(f),
    {
        assert(told@.contains(told[i as int]));
        match peers.get(&told[i].0) {
            Some(peer) => {
                let event = match news {
                    News::Joined => PeerEvent::NewPeerJoined { user_id },
                    News::Left => PeerEvent::PeerLeft { id: user_id },
                };
                actions.push(Action::Send { tx: peer.tx, event });
                assert(told@.take(i + 1).map_values(f) =~= told@.take(i as int).map_values(f).push(
                    f(told[i as int]),
                ));
                assert(actions@ =~= old(actions)@ + told@.take(i + 1).map_values(f));
            },
            None => {
                assert(false);
            },
        }
    }
    assert(told@.take(told.len() as int) =~= told@);
    told
}

/// What is left of a room's table once a user was taken out of it.
proof fn lemma_removed(pre: RoomView, user_id: Uid, rest: Map<u64, Peer>)
    requires
        views(rest) == pre.peers.remove(user_id.0),
    ensures
        users(views(rest)) == pre.others(user_id),
        all_wares(user_id, views(rest)) == pre.offers_to(user_id),
        forall|u: Uid| #[trigger]
            users(views(rest)).contains(u) ==> views(rest)[u.0] == pre.peer(u),
{
    assert(users(views(rest)) =~= pre.others(user_id));
    assert forall|o: Offer| all_wares(user_id, views(rest)).contains(o) <==> pre.offers_to(
        user_id,
    ).contains(o) by {
        assert(users(views(rest)).contains(o.producer_peer_id) <==> pre.others(user_id).contains(
            o.producer_peer_id,
        ));
    }
    assert(all_wares(user_id, views(rest)) =~= pre.offers_to(user_id));
}

/// Lets go of everything that a peer holds.
fn release(peer: &Peer) -> (actions: Vec<Action>)
    ensures
        released(peer@, actions@),
{
    let mut actions: Vec<Action> = Vec::new();
    actions.push(Action::Forget { tx: peer.tx });
    let ts = keys_of(&peer.transports);
    let cs = members_of(&peer.consumers);
    let ps = keys_of(&peer.producers);
    let ghost none = Seq::<u128>::empty();
    let ghost opening = seq![Action::Forget { tx: peer.tx }];
    for i in 0..ts.len()
        invariant
            actions@ =~= opening + closing(ts@.take(i as int), none, none),
            none == Seq::<u128>::empty(),
    {
        actions.push(Action::CloseTransport { id: TransportId(ts[i]) });
    }
    assert(ts@.take(ts.len() as int) =~= ts@);
    for i in 0..cs.len()
        invariant
            actions@ =~= opening + closing(ts@, cs@.take(i as int), none),
            none == Seq::<u128>::empty(),
    {
        actions.push(Action::CloseConsumer { id: ConsumerId(cs[i]) });
    }
    assert(cs@.take(cs.len() as int) =~= cs@);
    for i in 0..ps.len()
        invariant
            actions@ =~= opening + closing(ts@, cs@, ps@.take(i as int)),
    {
        actions.push(Action::CloseProducer { id: ProducerId(ps[i]) });
    }
    proof {
        assert(ps@.take(ps.len() as int) =~= ps@);
        assert(lists(ts@, peer@.transports.dom()));
        assert(lists(cs@, peer@.consumers));
        assert(lists(ps@, peer@.producers.dom()));
        assert(actions@ == opening + closing(ts@, cs@, ps@));
    }
    actions
}

/// One of a peer's transports for consuming, where it has any.
fn consuming_transport(peer: &Peer) -> (r: Option<u128>)
    ensures
        match r {
            Some(id) => consumes(peer@, id),
            None => forall|id: u128| !consumes(peer@, id),
        },
{
    let ids = keys_of(&peer.transports);
    for i in 0..ids.len()
        invariant
            lists(ids@, peer.transports@.dom()),
            forall|j: int| 0 <= j < i ==> !consumes(peer@, #[trigger] ids[j]),
    {
        assert(ids@.contains(ids[i as int]));
        if let Some(t) = peer.transports.get(&ids[i]) {
            if t.consume {
                return Some(ids[i]);
            }
        }
    }
    proof {
        assert forall|id: u128| !consumes(peer@, id) by {
            if consumes(peer@, id) {
                assert(ids@.contains(id));
            }
        }
    }
    None
}

/// A list of one action, or of none.
fn only_if(wanted: bool, action: Action) -> (actions: Vec<Action>)
    ensures
        actions@ == if wanted {
            seq![action]
        } else {
            Seq::empty()
        },
{
    let mut actions: Vec<Action> = Vec::new();
    if wanted {
        actions.push(action);
    }
    actions
}

/// A new producer's offers, in a room's terms.
proof fn lemma_bids(
    pre: RoomView,
    user_id: Uid,
    id: ProducerId,
    is_share: bool,
    rest: Map<u64, Peer>,
    offers: Seq<Offer>,
)
    requires
        views(rest) == pre.peers.remove(user_id.0),
        lists(offers, bids(user_id, id, is_share, views(rest))),
    ensures
        lists(offers, pre.offers_of(user_id, id, is_share)),
        offers.map_values(question_from(rest)) == pre.questions(offers),
{
    lemma_removed(pre, user_id, rest);
    assert forall|o: Offer| bids(user_id, id, is_share, views(rest)).contains(o)
        <==> pre.offers_of(user_id, id, is_share).contains(o) by {
        assert(users(views(rest)).contains(o.consumer_peer_id) <==> pre.others(user_id).contains(
            o.consumer_peer_id,
        ));
    }
    assert forall|i: int| 0 <= i < offers.len() implies pre.question(#[trigger] offers[i])
        == question_from(rest)(offers[i]) by {
        assert(offers.contains(offers[i]));
        assert(users(views(rest)).contains(offers[i].consumer_peer_id));
    }
    assert(offers.map_values(question_from(rest)) =~= pre.questions(offers));
}

impl Room {
    /// An empty room.
    pub fn new(id: Uid, rtp_caps: RtpCapabilitiesFinalized) -> (r: Self)
        ensures
            r@ == (RoomView { id, rtp_caps, peers: Map::empty() }),
    {
        let r = Room { id, rtp_caps, peers: HashMap::new() };
        assert(views(r.peers@) =~= Map::empty());
        r
    }

    fn knock_knock(&mut self, user_id: Uid, tx: PeerTx) -> (actions: Vec<Action>)
        ensures
            knocked(old(self)@, user_id, tx, final(self)@, actions@),
    {
        let mut actions: Vec<Action> = Vec::new();
        if self.peers.contains_key(&user_id.0) {
            actions.push(Action::Send { tx, event: PeerEvent::Denied });
            actions.push(Action::Forget { tx });
        } else {
            self.peers.insert(user_id.0, Peer::new(tx));
            actions.push(
                Action::Send {
                    tx,
                    event: PeerEvent::Welcome {
                        room_id: self.id,
                        rtp_caps: self.rtp_caps.clone(),
                    },
                },
            );
            assert(views(self.peers@) =~= old(self)@.peers.insert(
                user_id.0,
                PeerView::fresh(tx),
            ));
        }
        actions
    }

    fn join(&mut self, user_id: Uid, rtp_caps: Option<RtpCapabilities>) -> (actions: Vec<Action>)
        ensures
            joined(old(self)@, user_id, rtp_caps, final(self)@, actions@),
    {
        let mut actions: Vec<Action> = Vec::new();
        let ghost pre = self@;
        match self.peers.remove(&user_id.0) {
            Some(mut peer) => {
                proof {
                    assert(views(self.peers@) =~= pre.peers.remove(user_id.0));
                    lemma_removed(pre, user_id, self.peers@);
                }
                if !peer.joined {
                    peer.joined = true;
                    peer.rtp_caps = rtp_caps;
                    let who = users_of(&self.peers);
                    let ghost listed = who;
                    actions.push(
                        Action::Send { tx: peer.tx, event: PeerEvent::OnJoin { others: who } },
                    );
                    let ghost opening = actions@;
                    let ghost mut offers: Seq<Offer> = Seq::empty();
                    let ghost post = pre.with(user_id, peer@);
                    match &peer.rtp_caps {
                        Some(caps) => {
                            let list = offers_to(user_id, &self.peers);
                            proof {
                                offers = list@;
                                assert(actions@ =~= opening + post.questions(offers.take(0)));
                            }
                            for i in 0..list.len()
                                invariant
                                    list@ == offers,
                                    lists(offers, pre.offers_to(user_id)),
                                    post.peer(user_id).rtp_caps == Some(*caps),
                                    actions@ == opening + post.questions(offers.take(i as int)),
                            {
                                assert(offers.contains(offers[i as int]));
                                actions.push(
                                    Action::CanConsume { offer: list[i], rtp_caps: caps.clone() },
                                );
                                assert(actions@ =~= opening + post.questions(offers.take(i + 1)));
                            }
                            assert(offers.take(offers.len() as int) =~= offers);
                        },
                        None => {
                            assert(actions@ =~= opening + post.questions(offers));
                        },
                    }
                    let told = announce(News::Joined, user_id, &self.peers, &mut actions);
                    proof {
                        assert forall|i: int| 0 <= i < told.len() implies pre.peer(
                            #[trigger] told[i],
                        ) == views(self.peers@)[told[i].0] by {
                            assert(told@.contains(told[i]));
                        }
                        assert(join_plan(
                            pre,
                            user_id,
                            rtp_caps,
                            post,
                            listed,
                            offers,
                            told@,
                            actions@,
                        ));
                    }
                }
                self.peers.insert(user_id.0, peer);
                assert(self@ == pre.with(user_id, peer@));
            },
            None => {
                assert(views(self.peers@) =~= pre.peers);
            },
        }
        actions
    }

    fn leave(&mut self, user_id: Uid) -> (actions: Vec<Action>)
        ensures
            left(old(self)@, user_id, final(self)@, actions@),
    {
        let mut actions: Vec<Action> = Vec::new();
        let ghost pre = self@;
        match self.peers.remove(&user_id.0) {
            Some(peer) => {
                proof {
                    assert(views(self.peers@) =~= pre.peers.remove(user_id.0));
                    lemma_removed(pre, user_id, self.peers@);
                }
                let ghost mut told: Seq<Uid> = Seq::empty();
                let ghost news = PeerEvent::PeerLeft { id: user_id };
                if peer.joined {
                    let list = announce(News::Left, user_id, &self.peers, &mut actions);
                    proof {
                        told = list@;
                        assert forall|i: int| 0 <= i < told.len() implies pre.peer(
                            #[trigger] told[i],
                        ) == views(self.peers@)[told[i].0] by {
                            assert(told.contains(told[i]));
                        }
                    }
                }
                assert(actions@ =~= pre.messages(told, news));
                let mut rest = release(&peer);
                let ghost closed = rest@;
                actions.append(&mut rest);
                assert(leave_plan(pre, user_id, told, closed, actions@));
            },
            None => {
                assert(views(self.peers@) =~= pre.peers);
            },
        }
        actions
    }

    /// Whether `user_id` has the transport.
    fn has_transport(&self, user_id: Uid, id: TransportId) -> (r: bool)
        ensures
            r == (self@.has(user_id) && self@.peer(user_id).transports.contains_key(id.0)),
    {
        match self.peers.get(&user_id.0) {
            Some(peer) => peer.transports.contains_key(&id.0),
            None => false,
        }
    }

    /// Whether `user_id` has joined and has the producer.
    fn has_producer(&self, user_id: Uid, id: ProducerId) -> (r: bool)
        ensures
            r == (self@.joined(user_id) && self@.peer(user_id).producers.contains_key(id.0)),
    {
        match self.peers.get(&user_id.0) {
            Some(peer) => peer.producers.contains_key(&id.0) && peer.joined,
            None => false,
        }
    }

    /// Whether `user_id` has joined and has the consumer.
    fn has_consumer(&self, user_id: Uid, id: ConsumerId) -> (r: bool)
        ensures
            r == (self@.joined(user_id) && self@.peer(user_id).consumers.contains(id.0)),
    {
        match self.peers.get(&user_id.0) {
            Some(peer) => peer.consumers.contains(&id.0) && peer.joined,
            None => false,
        }
    }

    fn produce(
        &self,
        user_id: Uid,
        transport_id: TransportId,
        kind: MediaKind,
        rtp_params: RtpParameters,
        is_share: bool,
    ) -> (actions: Vec<Action>)
        ensures
            actions@ == produce_requests(
                self@,
                user_id,
                transport_id,
                kind,
                rtp_params,
                is_share,
            ),
    {
        let mut actions: Vec<Action> = Vec::new();
        if let Some(peer) = self.peers.get(&user_id.0) {
            if peer.joined && peer.transports.contains_key(&transport_id.0) {
                actions.push(
                    Action::Produce {
                        user_id,
                        transport_id,
                        options: ProducerOptions { kind, rtp_parameters: rtp_params },
                        is_share,
                    },
                );
            }
        }
        actions
    }

    fn create_transport(
        &self,
        tag: Option<String>,
        user_id: Uid,
        force_tcp: Option<bool>,
        produce: bool,
        consume: bool,
    ) -> (actions: Vec<Action>)
        ensures
            actions@ == transport_requests(self@, tag, user_id, force_tcp, produce, consume),
    {
        let mut actions: Vec<Action> = Vec::new();
        if self.peers.contains_key(&user_id.0) {
            let mut options = TransportOptions { enable_udp: None, enable_tcp: None };
            if force_tcp.unwrap_or(false) {
                options.enable_udp = Some(false);
                options.enable_tcp = Some(true);
            }
            actions.push(Action::CreateTransport { user_id, tag, options, produce, consume });
        }
        actions
    }

    fn close_producer(&mut self, user_id: Uid, id: ProducerId) -> (actions: Vec<Action>)
        ensures
            producer_closed(old(self)@, user_id, id, final(self)@, actions@),
    {
        let mut actions: Vec<Action> = Vec::new();
        if let Some(mut peer) = self.peers.remove(&user_id.0) {
            let ghost before = peer@;
            if peer.joined && peer.producers.remove(&id.0).is_some() {
                actions.push(Action::CloseProducer { id });
            }
            assert(!before.producers.contains_key(id.0) ==> peer@ =~= before);
            self.peers.insert(user_id.0, peer);
        }
        actions
    }

    fn close_consumer(&mut self, user_id: Uid, id: ConsumerId) -> (actions: Vec<Action>)
        ensures
            consumer_closed(old(self)@, user_id, id, final(self)@, actions@),
    {
        let mut actions: Vec<Action> = Vec::new();
        if let Some(mut peer) = self.peers.remove(&user_id.0) {
            let ghost before = peer@;
            if peer.consumers.remove(&id.0) {
                actions.push(Action::CloseConsumer { id });
            }
            assert(!before.consumers.contains(id.0) ==> peer@ =~= before);
            self.peers.insert(user_id.0, peer);
        }
        actions
    }

    /// Handles one event. The room is finished when the last peer has left, and at once, whoever
    /// is in it, when it is closed by force.
    pub fn handle(&mut self, event: Event) -> (step: Step)
        ensures
            handled(old(self)@, event, final(self)@, step.actions@),
            step.done == (event is KillAll || (event is Leave && final(self)@.peers.is_empty())),
    {
        let mut done = false;
        let actions = match event {
            Event::KnockKnock { user_id, tx } => self.knock_knock(user_id, tx),
            Event::Join { user_id, rtp_caps } => self.join(user_id, rtp_caps),
            Event::Produce { user_id, transport_id, kind, rtp_params, is_share } => self.produce(
                user_id,
                transport_id,
                kind,
                rtp_params,
                is_share,
            ),
            Event::CreateRtcTransport { tag, user_id, force_tcp, produce, consume } =>
                self.create_transport(tag, user_id, force_tcp, produce, consume),
            Event::ConnectRtcTransport { user_id, transport_id, dtls_params } => only_if(
                self.has_transport(user_id, transport_id),
                Action::ConnectTransport { transport_id, dtls_params },
            ),
            Event::RestartIce { user_id, transport_id } => only_if(
                self.has_transport(user_id, transport_id),
                Action::RestartIce { user_id, transport_id },
            ),
            Event::OnConsumerTransportClose { user_id, consumer_id } => self.close_consumer(
                user_id,
                consumer_id,
            ),
            Event::OnProducerClose { consumer_peer_id, consumer_id } => self.close_consumer(
                consumer_peer_id,
                consumer_id,
            ),
            Event::CloseProducer { producer_peer_id, id } => self.close_producer(
                producer_peer_id,
                id,
            ),
            Event::PauseProducer { producer_peer_id, id } => only_if(
                self.has_producer(producer_peer_id, id),
                Action::PauseProducer { id },
            ),
            Event::ResumeProducer { producer_peer_id, id } => only_if(
                self.has_producer(producer_peer_id, id),
                Action::ResumeProducer { id },
            ),
            Event::PauseConsumer { consumer_peer_id, id } => only_if(
                self.has_consumer(consumer_peer_id, id),
                Action::PauseConsumer { id },
            ),
            Event::ResumeConsumer { consumer_peer_id, id } => only_if(
                self.has_consumer(consumer_peer_id, id),
                Action::ResumeConsumer { id },
            ),
            Event::SetConsumerLayers { user_id, consumer_id, spatial, temporal } => only_if(
                self.has_consumer(user_id, consumer_id),
                Action::SetPreferredLayers {
                    id: consumer_id,
                    layers: ConsumerLayers {
                        spatial_layer: spatial,
                        temporal_layer: Some(temporal),
                    },
                },
            ),
            Event::SetConsumerPriority { user_id, consumer_id, priority } => only_if(
                self.has_consumer(user_id, consumer_id),
                Action::SetPriority { id: consumer_id, priority },
            ),
            Event::OnAudioLevelsChange { producer: _ } => Vec::new(),
            Event::Leave { user_id } => {
                let actions = self.leave(user_id);
                done = self.peers.is_empty();
                assert(views(self.peers@).dom() =~= self.peers@.dom());
                actions
            },
            Event::KillAll => {
                done = true;
                Vec::new()
            },
        };
        Step { actions, done }
    }

    /// Answers `Action::CanConsume`.
    pub fn can_consume(&self, offer: Offer, can_consume: bool) -> (actions: Vec<Action>)
        ensures
            consume_requests(self@, offer, can_consume, actions@),
    {
        let mut actions: Vec<Action> = Vec::new();
        if !can_consume {
            return actions;
        }
        if let Some(peer) = self.peers.get(&offer.consumer_peer_id.0) {
            if let Some(caps) = &peer.rtp_caps {
                if let Some(id) = consuming_transport(peer) {
                    actions.push(
                        Action::Consume {
                            offer,
                            transport_id: TransportId(id),
                            options: ConsumerOptions {
                                producer_id: offer.producer_id,
                                rtp_capabilities: caps.clone(),
                                paused: true,
                                enable_rtx: Some(true),
                            },
                        },
                    );
                    assert(consumes(self@.peer(offer.consumer_peer_id), id));
                }
            }
        }
        actions
    }

    /// Answers `Action::Consume`: with the consumer, or with `None` where there is none.
    pub fn consumed(&mut self, offer: Offer, consumer: Option<NewConsumer>) -> (actions: Vec<
        Action,
    >)
        ensures
            consumed(old(self)@, offer, consumer, final(self)@, actions@),
    {
        let mut actions: Vec<Action> = Vec::new();
        if let Some(c) = consumer {
            let user_id = offer.consumer_peer_id;
            let mut taken = false;
            if let Some(mut peer) = self.peers.remove(&user_id.0) {
                if peer.rtp_caps.is_some() {
                    taken = true;
                    actions.push(
                        Action::WatchConsumer {
                            consumer_id: c.id,
                            tx: peer.tx,
                            producer_peer_id: offer.producer_peer_id,
                        },
                    );
                    actions.push(
                        Action::Send {
                            tx: peer.tx,
                            event: PeerEvent::OnNewConsumer {
                                producer_peer_id: offer.producer_peer_id,
                                producer_id: offer.producer_id,
                                consumer_id: c.id,
                                kind: c.kind,
                                rtp_params: c.rtp_params,
                                consumer_type: c.consumer_type,
                                producer_paused: c.producer_paused,
                                is_share: offer.is_share,
                            },
                        },
                    );
                    peer.consumers.insert(c.id.0);
                }
                self.peers.insert(user_id.0, peer);
            }
            if !taken {
                actions.push(Action::CloseConsumer { id: c.id });
            }
        }
        actions
    }

    /// Answers `Action::Produce`: with the producer, or with `None` where there is none.
    pub fn produced(
        &mut self,
        user_id: Uid,
        is_share: bool,
        producer: Option<ProducerId>,
    ) -> (actions: Vec<Action>)
        ensures
            produced(old(self)@, user_id, is_share, producer, final(self)@, actions@),
    {
        let mut actions: Vec<Action> = Vec::new();
        let ghost pre = self@;
        if let Some(id) = producer {
            let mut taken = false;
            if let Some(mut peer) = self.peers.remove(&user_id.0) {
                proof {
                    assert(views(self.peers@) =~= pre.peers.remove(user_id.0));
                    lemma_removed(pre, user_id, self.peers@);
                }
                if peer.joined {
                    taken = true;
                    peer.producers.insert(id.0, PeerProducer { is_share });
                    actions.push(
                        Action::Send { tx: peer.tx, event: PeerEvent::OnNewProducer { id } },
                    );
                    let offers = questions_to(user_id, id, is_share, &self.peers, &mut actions);
                    proof {
                        lemma_bids(pre, user_id, id, is_share, self.peers@, offers@);
                        assert(produce_plan(pre, user_id, id, is_share, offers@, actions@));
                    }
                }
                self.peers.insert(user_id.0, peer);
            }
            if !taken {
                actions.push(Action::CloseProducer { id });
            }
        }
        actions
    }

    /// Answers `Action::CreateTransport`.
    pub fn transport_created(
        &mut self,
        user_id: Uid,
        tag: Option<String>,
        produce: bool,
        consume: bool,
        transport: NewTransport,
    ) -> (actions: Vec<Action>)
        ensures
            transport_created(
                old(self)@,
                user_id,
                tag,
                produce,
                consume,
                transport,
                final(self)@,
                actions@,
            ),
    {
        let mut actions: Vec<Action> = Vec::new();
        match self.peers.remove(&user_id.0) {
            Some(mut peer) => {
                peer.transports.insert(transport.id.0, PeerTransport { produce, consume });
                actions.push(
                    Action::Send {
                        tx: peer.tx,
                        event: PeerEvent::OnNewTransport {
                            tag,
                            id: transport.id,
                            ice_candidates: transport.ice_candidates,
                            ice_params: transport.ice_params,
                            dtls_params: transport.dtls_params,
                        },
                    },
                );
                self.peers.insert(user_id.0, peer);
            },
            None => {
                actions.push(Action::CloseTransport { id: transport.id });
            },
        }
        actions
    }

    /// Answers `Action::RestartIce`: with the new parameters, or with `None` where there are
    /// none.
    pub fn ice_restarted(&self, user_id: Uid, ice_params: Option<IceParameters>) -> (actions: Vec<
        Action,
    >)
        ensures
            actions@ == ice_restarted(self@, user_id, ice_params),
    {
        let mut actions: Vec<Action> = Vec::new();
        if let Some(ice_params) = ice_params {
            if let Some(peer) = self.peers.get(&user_id.0) {
                actions.push(
                    Action::Send { tx: peer.tx, event: PeerEvent::IceRestarted { ice_params } },
                );
            }
        }
        actions
    }
}

} // verus!
