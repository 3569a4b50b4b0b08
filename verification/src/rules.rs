//! The rules of a room: what becomes of it, and what is to be done, on each thing that happens.

use crate::listing::lists;
use crate::media::{
    ConsumerId, ConsumerLayers, ConsumerOptions, IceParameters, MediaKind,
    NewConsumer, NewTransport, ProducerId, ProducerOptions, RtpCapabilities,
    RtpCapabilitiesFinalized, RtpParameters, TransportId, TransportOptions,
};
use crate::peer::{PeerEvent, PeerProducer, PeerTransport, PeerTx, PeerView};
use crate::room::{Action, Event, Offer};
use crate::uid::Uid;
use vstd::prelude::*;

verus! {

/// A room's contents: its identifier, what its router can route, and its peers by user.
#[verifier::ext_equal]
pub struct RoomView {
    pub id: Uid,
    pub rtp_caps: RtpCapabilitiesFinalized,
    pub peers: Map<u64, PeerView>,
}

impl RoomView {
    /// `user_id` is in the room.
    pub open spec fn has(self, user_id: Uid) -> bool {
        self.peers.contains_key(user_id.0)
    }

    /// `user_id`'s peer.
    pub open spec fn peer(self, user_id: Uid) -> PeerView {
        self.peers[user_id.0]
    }

    /// `user_id` is in the room and has joined the conversation.
    pub open spec fn joined(self, user_id: Uid) -> bool {
        self.has(user_id) && self.peer(user_id).joined
    }

    /// The room with `peer` in `user_id`'s place.
    pub open spec fn with(self, user_id: Uid, peer: PeerView) -> RoomView {
        RoomView { peers: self.peers.insert(user_id.0, peer), ..self }
    }

    /// The room without `user_id`.
    pub open spec fn without(self, user_id: Uid) -> RoomView {
        RoomView { peers: self.peers.remove(user_id.0), ..self }
    }

    /// Everyone in the room but `user_id`.
    pub open spec fn others(self, user_id: Uid) -> Set<Uid> {
        Set::new(|other: Uid| self.has(other) && other != user_id)
    }

    /// The offers that `newcomer` is owed: every producer of every other peer.
    pub open spec fn offers_to(self, newcomer: Uid) -> Set<Offer> {
        Set::new(
            |o: Offer|
                {
                    &&& o.consumer_peer_id == newcomer
                    &&& self.others(newcomer).contains(o.producer_peer_id)
                    &&& self.peer(o.producer_peer_id).producers.contains_key(o.producer_id.0)
                    &&& self.peer(o.producer_peer_id).producers[o.producer_id.0].is_share
                        == o.is_share
                },
        )
    }

    /// The offers that `newcomer` gets as it joins: none, if it cannot receive at all.
    pub open spec fn offers_on_join(
        self,
        newcomer: Uid,
        rtp_caps: Option<RtpCapabilities>,
    ) -> Set<Offer> {
        if rtp_caps is Some {
            self.offers_to(newcomer)
        } else {
            Set::empty()
        }
    }

    /// Those who are told when `user_id` leaves: everyone else, if it had joined.
    pub open spec fn told_of_leave(self, user_id: Uid) -> Set<Uid> {
        if self.peer(user_id).joined {
            self.others(user_id)
        } else {
            Set::empty()
        }
    }

    /// The offers of a new producer: one to every other peer that can receive at all.
    pub open spec fn offers_of(self, user_id: Uid, id: ProducerId, is_share: bool) -> Set<Offer> {
        Set::new(
            |o: Offer|
                {
                    &&& self.others(user_id).contains(o.consumer_peer_id)
                    &&& self.peer(o.consumer_peer_id).rtp_caps is Some
                    &&& o.producer_peer_id == user_id
                    &&& o.producer_id == id
                    &&& o.is_share == is_share
                },
        )
    }

    /// The question to the router with which an offer begins.
    pub open spec fn question(self, offer: Offer) -> Action {
        Action::CanConsume { offer, rtp_caps: self.peer(offer.consumer_peer_id).rtp_caps->0 }
    }

    /// The questions of several offers.
    pub open spec fn questions(self, offers: Seq<Offer>) -> Seq<Action> {
        offers.map_values(|o: Offer| self.question(o))
    }

    /// One message to each of several peers.
    pub open spec fn messages(self, to: Seq<Uid>, event: PeerEvent) -> Seq<Action> {
        to.map_values(|u: Uid| Action::Send { tx: self.peer(u).tx, event })
    }
}

/// Offers of one peer's producers stand side by side.
pub open spec fn grouped(offers: Seq<Offer>) -> bool {
    forall|i: int, j: int, k: int|
        #![trigger offers[i], offers[j], offers[k]]
        0 <= i <= j <= k < offers.len() && offers[i].producer_peer_id == offers[k].producer_peer_id
            ==> offers[j].producer_peer_id == offers[i].producer_peer_id
}

/// Everything that a peer holds, let go: its channel, its transports, its consumers and its
/// producers.
pub open spec fn released(peer: PeerView, actions: Seq<Action>) -> bool {
    exists|ts: Seq<u128>, cs: Seq<u128>, ps: Seq<u128>|
        {
            &&& #[trigger] lists(ts, peer.transports.dom())
            &&& #[trigger] lists(cs, peer.consumers)
            &&& #[trigger] lists(ps, peer.producers.dom())
            &&& actions =~= seq![Action::Forget { tx: peer.tx }] + closing(ts, cs, ps)
        }
}

/// The closing of transports, then consumers, then producers.
pub open spec fn closing(ts: Seq<u128>, cs: Seq<u128>, ps: Seq<u128>) -> Seq<Action> {
    ts.map_values(|id: u128| Action::CloseTransport { id: TransportId(id) }) + cs.map_values(
        |id: u128| Action::CloseConsumer { id: ConsumerId(id) },
    ) + ps.map_values(|id: u128| Action::CloseProducer { id: ProducerId(id) })
}

/// A user asks to be let in. Someone of that name in the room already: the newcomer is turned
/// away. Otherwise it becomes a peer and is welcomed.
pub open spec fn knocked(
    pre: RoomView,
    user_id: Uid,
    tx: PeerTx,
    post: RoomView,
    actions: Seq<Action>,
) -> bool {
    if pre.has(user_id) {
        &&& post =~= pre
        &&& actions =~= seq![
            Action::Send { tx, event: PeerEvent::Denied },
            Action::Forget { tx },
        ]
    } else {
        &&& post =~= pre.with(user_id, PeerView::fresh(tx))
        &&& actions =~= seq![
            Action::Send {
                tx,
                event: PeerEvent::Welcome { room_id: pre.id, rtp_caps: pre.rtp_caps },
            },
        ]
    }
}

/// What is to be done as a peer joins: `who` tells it who else is there, `offers` are made to
/// it, and `told` are told of it.
pub open spec fn join_plan(
    pre: RoomView,
    user_id: Uid,
    rtp_caps: Option<RtpCapabilities>,
    post: RoomView,
    who: Vec<Uid>,
    offers: Seq<Offer>,
    told: Seq<Uid>,
    actions: Seq<Action>,
) -> bool {
    &&& lists(who@, pre.others(user_id))
    &&& lists(offers, pre.offers_on_join(user_id, rtp_caps))
    &&& grouped(offers)
    &&& lists(told, pre.others(user_id))
    &&& actions =~= roll_call(pre, user_id, who) + post.questions(offers) + pre.messages(
        told,
        PeerEvent::NewPeerJoined { user_id },
    )
}

/// A peer is told who else is in the room.
pub open spec fn roll_call(pre: RoomView, user_id: Uid, who: Vec<Uid>) -> Seq<Action> {
    seq![Action::Send { tx: pre.peer(user_id).tx, event: PeerEvent::OnJoin { others: who } }]
}

/// A peer joins the conversation, once. It is told who else is in the room, it is offered what
/// the others produce, where it can receive at all, and then the others are told of it.
pub open spec fn joined(
    pre: RoomView,
    user_id: Uid,
    rtp_caps: Option<RtpCapabilities>,
    post: RoomView,
    actions: Seq<Action>,
) -> bool {
    if pre.has(user_id) && !pre.peer(user_id).joined {
        &&& post =~= pre.with(
            user_id,
            PeerView { joined: true, rtp_caps, ..pre.peer(user_id) },
        )
        &&& exists|who: Vec<Uid>, offers: Seq<Offer>, told: Seq<Uid>|
            join_plan(pre, user_id, rtp_caps, post, who, offers, told, actions)
    } else {
        post =~= pre && actions =~= Seq::<Action>::empty()
    }
}

/// A peer that has joined wants to send media on one of its transports.
pub open spec fn produce_requests(
    pre: RoomView,
    user_id: Uid,
    transport_id: TransportId,
    kind: MediaKind,
    rtp_parameters: RtpParameters,
    is_share: bool,
) -> Seq<Action> {
    if pre.joined(user_id) && pre.peer(user_id).transports.contains_key(transport_id.0) {
        seq![
            Action::Produce {
                user_id,
                transport_id,
                options: ProducerOptions { kind, rtp_parameters },
                is_share,
            },
        ]
    } else {
        Seq::empty()
    }
}

/// What is to be done on a new producer: its owner is told, and `offers` are made of it.
pub open spec fn produce_plan(
    pre: RoomView,
    user_id: Uid,
    id: ProducerId,
    is_share: bool,
    offers: Seq<Offer>,
    actions: Seq<Action>,
) -> bool {
    &&& lists(offers, pre.offers_of(user_id, id, is_share))
    &&& actions =~= receipt(pre, user_id, id) + pre.questions(offers)
}

/// A peer is told of its new producer.
pub open spec fn receipt(pre: RoomView, user_id: Uid, id: ProducerId) -> Seq<Action> {
    seq![Action::Send { tx: pre.peer(user_id).tx, event: PeerEvent::OnNewProducer { id } }]
}

/// A peer's producer was created, or was not. It is entered, its owner is told, and everyone
/// else who can receive is offered it. A producer whose owner is no longer in the conversation
/// is closed again.
pub open spec fn produced(
    pre: RoomView,
    user_id: Uid,
    is_share: bool,
    producer: Option<ProducerId>,
    post: RoomView,
    actions: Seq<Action>,
) -> bool {
    match producer {
        Some(id) => if pre.joined(user_id) {
            let peer = pre.peer(user_id);
            &&& post =~= pre.with(
                user_id,
                PeerView {
                    producers: peer.producers.insert(id.0, PeerProducer { is_share }),
                    ..peer
                },
            )
            &&& exists|offers: Seq<Offer>|
                produce_plan(pre, user_id, id, is_share, offers, actions)
        } else {
            post =~= pre && actions =~= seq![Action::CloseProducer { id }]
        },
        None => post =~= pre && actions =~= Seq::<Action>::empty(),
    }
}

/// The router has said whether an offer can be taken up. If so, and the peer has a transport
/// to consume on, a consumer is created there: paused, and with retransmissions.
pub open spec fn consume_requests(
    pre: RoomView,
    offer: Offer,
    can_consume: bool,
    actions: Seq<Action>,
) -> bool {
    let peer = pre.peer(offer.consumer_peer_id);
    if can_consume && pre.has(offer.consumer_peer_id) && peer.rtp_caps is Some && exists|t: u128|
        consumes(peer, t) {
        exists|t: u128|
            {
                &&& #[trigger] consumes(peer, t)
                &&& actions =~= seq![
                    Action::Consume {
                        offer,
                        transport_id: TransportId(t),
                        options: ConsumerOptions {
                            producer_id: offer.producer_id,
                            rtp_capabilities: peer.rtp_caps->0,
                            paused: true,
                            enable_rtx: Some(true),
                        },
                    },
                ]
            }
    } else {
        actions =~= Seq::<Action>::empty()
    }
}

/// `id` is a transport of `peer` for consuming.
pub open spec fn consumes(peer: PeerView, id: u128) -> bool {
    peer.transports.contains_key(id) && peer.transports[id].consume
}

/// A consumer was created for an offer, or was not. Its owner will hear its signals and is
/// told of it. A consumer whose owner can no longer receive is closed again.
pub open spec fn consumed(
    pre: RoomView,
    offer: Offer,
    consumer: Option<NewConsumer>,
    post: RoomView,
    actions: Seq<Action>,
) -> bool {
    let user_id = offer.consumer_peer_id;
    match consumer {
        Some(c) => if pre.has(user_id) && pre.peer(user_id).rtp_caps is Some {
            let peer = pre.peer(user_id);
            &&& post =~= pre.with(
                user_id,
                PeerView { consumers: peer.consumers.insert(c.id.0), ..peer },
            )
            &&& actions =~= seq![
                Action::WatchConsumer {
                    consumer_id: c.id,
                    tx: peer.tx,
                    producer_peer_id: offer.producer_peer_id,
                },
                Action::Send {
                    tx: peer.tx,
                    event: PeerEvent::OnNewConsumer {
                        producer_peer_id: offer.producer_peer_id,
                        producer_id: offer.producer_id,
                        consumer_id: c.id,
                        kind: c.kind,
                        rtp_params: c.rtp_params,
                        consumer_type: c.consumer_type,
                        producer_paused: c.producer_paused,
                        is_share: offer.is_share,
                    },
                },
            ]
        } else {
            post =~= pre && actions =~= seq![Action::CloseConsumer { id: c.id }]
        },
        None => post =~= pre && actions =~= Seq::<Action>::empty(),
    }
}

/// A peer wants a transport. If it insists on TCP, UDP is switched off.
pub open spec fn transport_requests(
    pre: RoomView,
    tag: Option<String>,
    user_id: Uid,
    force_tcp: Option<bool>,
    produce: bool,
    consume: bool,
) -> Seq<Action> {
    if pre.has(user_id) {
        seq![
            Action::CreateTransport {
                user_id,
                tag,
                options: if force_tcp == Some(true) {
                    TransportOptions { enable_udp: Some(false), enable_tcp: Some(true) }
                } else {
                    TransportOptions { enable_udp: None, enable_tcp: None }
                },
                produce,
                consume,
            },
        ]
    } else {
        Seq::empty()
    }
}

/// A peer's transport was created. It is entered and its owner is told. A transport whose
/// owner is no longer in the room is closed again.
pub open spec fn transport_created(
    pre: RoomView,
    user_id: Uid,
    tag: Option<String>,
    produce: bool,
    consume: bool,
    transport: NewTransport,
    post: RoomView,
    actions: Seq<Action>,
) -> bool {
    if pre.has(user_id) {
        let peer = pre.peer(user_id);
        &&& post =~= pre.with(
            user_id,
            PeerView {
                transports: peer.transports.insert(
                    transport.id.0,
                    PeerTransport { produce, consume },
                ),
                ..peer
            },
        )
        &&& actions =~= seq![
            Action::Send {
                tx: peer.tx,
                event: PeerEvent::OnNewTransport {
                    tag,
                    id: transport.id,
                    ice_candidates: transport.ice_candidates,
                    ice_params: transport.ice_params,
                    dtls_params: transport.dtls_params,
                },
            },
        ]
    } else {
        post =~= pre && actions =~= seq![Action::CloseTransport { id: transport.id }]
    }
}

/// A transport's ICE was restarted, or was not: its owner is told the new parameters.
pub open spec fn ice_restarted(
    pre: RoomView,
    user_id: Uid,
    ice_params: Option<IceParameters>,
) -> Seq<Action> {
    match ice_params {
        Some(ice_params) if pre.has(user_id) => seq![
            Action::Send {
                tx: pre.peer(user_id).tx,
                event: PeerEvent::IceRestarted { ice_params },
            },
        ],
        _ => Seq::empty(),
    }
}

/// `action` where `user_id` has the transport.
pub open spec fn on_transport(
    pre: RoomView,
    user_id: Uid,
    id: TransportId,
    action: Action,
) -> Seq<Action> {
    if pre.has(user_id) && pre.peer(user_id).transports.contains_key(id.0) {
        seq![action]
    } else {
        Seq::empty()
    }
}

/// `action` where `user_id` has joined and has the producer.
pub open spec fn on_producer(
    pre: RoomView,
    user_id: Uid,
    id: ProducerId,
    action: Action,
) -> Seq<Action> {
    if pre.joined(user_id) && pre.peer(user_id).producers.contains_key(id.0) {
        seq![action]
    } else {
        Seq::empty()
    }
}

/// `action` where `user_id` has joined and has the consumer.
pub open spec fn on_consumer(
    pre: RoomView,
    user_id: Uid,
    id: ConsumerId,
    action: Action,
) -> Seq<Action> {
    if pre.joined(user_id) && pre.peer(user_id).consumers.contains(id.0) {
        seq![action]
    } else {
        Seq::empty()
    }
}

/// A peer that has joined closes one of its producers.
pub open spec fn producer_closed(
    pre: RoomView,
    user_id: Uid,
    id: ProducerId,
    post: RoomView,
    actions: Seq<Action>,
) -> bool {
    let peer = pre.peer(user_id);
    if pre.joined(user_id) && peer.producers.contains_key(id.0) {
        &&& post =~= pre.with(user_id, PeerView { producers: peer.producers.remove(id.0), ..peer })
        &&& actions =~= seq![Action::CloseProducer { id }]
    } else {
        post =~= pre && actions =~= Seq::<Action>::empty()
    }
}

/// One of a peer's consumers has lost its transport or its producer, and is closed.
pub open spec fn consumer_closed(
    pre: RoomView,
    user_id: Uid,
    id: ConsumerId,
    post: RoomView,
    actions: Seq<Action>,
) -> bool {
    let peer = pre.peer(user_id);
    if pre.has(user_id) && peer.consumers.contains(id.0) {
        &&& post =~= pre.with(user_id, PeerView { consumers: peer.consumers.remove(id.0), ..peer })
        &&& actions =~= seq![Action::CloseConsumer { id }]
    } else {
        post =~= pre && actions =~= Seq::<Action>::empty()
    }
}

/// What is to be done as a peer leaves: `told` are told, and by `rest` what it held is let go.
pub open spec fn leave_plan(
    pre: RoomView,
    user_id: Uid,
    told: Seq<Uid>,
    rest: Seq<Action>,
    actions: Seq<Action>,
) -> bool {
    &&& lists(told, pre.told_of_leave(user_id))
    &&& released(pre.peer(user_id), rest)
    &&& actions =~= pre.messages(told, PeerEvent::PeerLeft { id: user_id }) + rest
}

/// A peer leaves. If it had joined the conversation, the others are told. What it held is let
/// go.
pub open spec fn left(
    pre: RoomView,
    user_id: Uid,
    post: RoomView,
    actions: Seq<Action>,
) -> bool {
    if pre.has(user_id) {
        &&& post =~= pre.without(user_id)
        &&& exists|told: Seq<Uid>, rest: Seq<Action>|
            leave_plan(pre, user_id, told, rest, actions)
    } else {
        post =~= pre && actions =~= Seq::<Action>::empty()
    }
}

/// What becomes of a room, and what is to be done, on an event. A room that is closed by force
/// takes leave of nobody: it ends as it is.
pub open spec fn handled(
    pre: RoomView,
    event: Event,
    post: RoomView,
    actions: Seq<Action>,
) -> bool {
    match event {
        Event::KnockKnock { user_id, tx } => knocked(pre, user_id, tx, post, actions),
        Event::Join { user_id, rtp_caps } => joined(pre, user_id, rtp_caps, post, actions),
        Event::Produce { user_id, transport_id, kind, rtp_params, is_share } => post =~= pre
            && actions =~= produce_requests(
            pre,
            user_id,
            transport_id,
            kind,
            rtp_params,
            is_share,
        ),
        Event::CreateRtcTransport { tag, user_id, force_tcp, produce, consume } => post =~= pre
            && actions =~= transport_requests(pre, tag, user_id, force_tcp, produce, consume),
        Event::ConnectRtcTransport { user_id, transport_id, dtls_params } => post =~= pre
            && actions =~= on_transport(
            pre,
            user_id,
            transport_id,
            Action::ConnectTransport { transport_id, dtls_params },
        ),
        Event::RestartIce { user_id, transport_id } => post =~= pre && actions =~= on_transport(
            pre,
            user_id,
            transport_id,
            Action::RestartIce { user_id, transport_id },
        ),
        Event::OnConsumerTransportClose { user_id, consumer_id } => consumer_closed(
            pre,
            user_id,
            consumer_id,
            post,
            actions,
        ),
        Event::OnProducerClose { consumer_peer_id, consumer_id } => consumer_closed(
            pre,
            consumer_peer_id,
            consumer_id,
            post,
            actions,
        ),
        Event::CloseProducer { producer_peer_id, id } => producer_closed(
            pre,
            producer_peer_id,
            id,
            post,
            actions,
        ),
        Event::PauseProducer { producer_peer_id, id } => post =~= pre && actions =~= on_producer(
            pre,
            producer_peer_id,
            id,
            Action::PauseProducer { id },
        ),
        Event::ResumeProducer { producer_peer_id, id } => post =~= pre && actions =~= on_producer(
            pre,
            producer_peer_id,
            id,
            Action::ResumeProducer { id },
        ),
        Event::PauseConsumer { consumer_peer_id, id } => post =~= pre && actions =~= on_consumer(
            pre,
            consumer_peer_id,
            id,
            Action::PauseConsumer { id },
        ),
        Event::ResumeConsumer { consumer_peer_id, id } => post =~= pre && actions =~= on_consumer(
            pre,
            consumer_peer_id,
            id,
            Action::ResumeConsumer { id },
        ),
        Event::SetConsumerLayers { user_id, consumer_id, spatial, temporal } => post =~= pre
            && actions =~= on_consumer(
            pre,
            user_id,
            consumer_id,
            Action::SetPreferredLayers {
                id: consumer_id,
                layers: ConsumerLayers { spatial_layer: spatial, temporal_layer: Some(temporal) },
            },
        ),
        Event::SetConsumerPriority { user_id, consumer_id, priority } => post =~= pre
            && actions =~= on_consumer(
            pre,
            user_id,
            consumer_id,
            Action::SetPriority { id: consumer_id, priority },
        ),
        Event::OnAudioLevelsChange { .. } => post =~= pre && actions =~= Seq::<Action>::empty(),
        Event::Leave { user_id } => left(pre, user_id, post, actions),
        Event::KillAll => post =~= pre && actions =~= Seq::<Action>::empty(),
    }
}

/// Everything that can move a room: an event, or the answer to an action.
#[allow(inconsistent_fields)]
pub enum Input {
    Event(Event),
    CanConsume { offer: Offer, can_consume: bool },
    Consumed { offer: Offer, consumer: Option<NewConsumer> },
    Produced { user_id: Uid, is_share: bool, producer: Option<ProducerId> },
    TransportCreated {
        user_id: Uid,
        tag: Option<String>,
        produce: bool,
        consume: bool,
        transport: NewTransport,
    },
    IceRestarted { user_id: Uid, ice_params: Option<IceParameters> },
}

/// What becomes of a room, and what is to be done, on an input.
pub open spec fn moved(
    pre: RoomView,
    input: Input,
    post: RoomView,
    actions: Seq<Action>,
) -> bool {
    match input {
        Input::Event(event) => handled(pre, event, post, actions),
        Input::CanConsume { offer, can_consume } => post =~= pre && consume_requests(
            pre,
            offer,
            can_consume,
            actions,
        ),
        Input::Consumed { offer, consumer } => consumed(pre, offer, consumer, post, actions),
        Input::Produced { user_id, is_share, producer } => produced(
            pre,
            user_id,
            is_share,
            producer,
            post,
            actions,
        ),
        Input::TransportCreated { user_id, tag, produce, consume, transport } =>
            transport_created(
                pre,
                user_id,
                tag,
                produce,
                consume,
                transport,
                post,
                actions,
            ),
        Input::IceRestarted { user_id, ice_params } => post =~= pre && actions =~= ice_restarted(
            pre,
            user_id,
            ice_params,
        ),
    }
}

/// The user in whose name an event is sent.
pub open spec fn sender(event: Event) -> Option<Uid> {
    match event {
        Event::KnockKnock { user_id, .. } => Some(user_id),
        Event::Join { user_id, .. } => Some(user_id),
        Event::Produce { user_id, .. } => Some(user_id),
        Event::CreateRtcTransport { user_id, .. } => Some(user_id),
        Event::ConnectRtcTransport { user_id, .. } => Some(user_id),
        Event::RestartIce { user_id, .. } => Some(user_id),
        Event::OnConsumerTransportClose { user_id, .. } => Some(user_id),
        Event::OnProducerClose { consumer_peer_id, .. } => Some(consumer_peer_id),
        Event::CloseProducer { producer_peer_id, .. } => Some(producer_peer_id),
        Event::PauseProducer { producer_peer_id, .. } => Some(producer_peer_id),
        Event::ResumeProducer { producer_peer_id, .. } => Some(producer_peer_id),
        Event::PauseConsumer { consumer_peer_id, .. } => Some(consumer_peer_id),
        Event::ResumeConsumer { consumer_peer_id, .. } => Some(consumer_peer_id),
        Event::SetConsumerLayers { user_id, .. } => Some(user_id),
        Event::SetConsumerPriority { user_id, .. } => Some(user_id),
        Event::OnAudioLevelsChange { .. } => None,
        Event::Leave { user_id } => Some(user_id),
        Event::KillAll => None,
    }
}

/// The user whose affair an input is.
pub open spec fn subject(input: Input) -> Option<Uid> {
    match input {
        Input::Event(event) => sender(event),
        Input::CanConsume { offer, .. } => Some(offer.consumer_peer_id),
        Input::Consumed { offer, .. } => Some(offer.consumer_peer_id),
        Input::Produced { user_id, .. } => Some(user_id),
        Input::TransportCreated { user_id, .. } => Some(user_id),
        Input::IceRestarted { user_id, .. } => Some(user_id),
    }
}

} // verus!
