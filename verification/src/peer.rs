//! A participant: what its client may ask, what it is told, and how its two conversations,
//! with the client and with the room, are joined.

use std::collections::{HashMap, HashSet};

use crate::media::{
    ConsumerId, ConsumerType, DtlsParameters, IceCandidate, IceParameters, MediaKind, ProducerId,
    RtpCapabilities, RtpCapabilitiesFinalized, RtpParameters, TransportId,
};
use crate::room::Event;
use crate::uid::Uid;
use vstd::prelude::*;

verus! {

/// The channel on which a peer hears from its room.
#[derive(Debug, Copy, Clone, PartialEq, Eq, Hash, Structural)]
pub struct PeerTx(pub u64);

/// Sent by clients.
#[allow(inconsistent_fields)]
#[derive(Debug, PartialEq, Eq)]
pub enum Client2Server {
    CreateRtcTransport {
        tag: Option<String>,
        force_tcp: Option<bool>,
        produce: bool,
        consume: bool,
    },
    ConnectRtcTransport { id: TransportId, dtls_params: DtlsParameters },
    RestartIce { transport_id: TransportId },
    Join { rtp_caps: Option<RtpCapabilities> },
    Produce {
        transport_id: TransportId,
        kind: MediaKind,
        rtp_params: RtpParameters,
        is_share: bool,
    },
    CloseProducer { id: ProducerId },
    PauseProducer { id: ProducerId },
    ResumeProducer { id: ProducerId },
}

/// Sent or relayed to clients.
#[allow(inconsistent_fields)]
#[derive(Debug, PartialEq, Eq)]
pub enum Server2Client {
    Welcome { room_id: Uid, rtp_caps: RtpCapabilitiesFinalized },
    OnJoin { others: Vec<Uid> },
    NewPeerJoined { user_id: Uid },
    PeerLeft { id: Uid },
    OnNewTransport {
        tag: Option<String>,
        id: TransportId,
        ice_candidates: Vec<IceCandidate>,
        ice_params: IceParameters,
        dtls_params: DtlsParameters,
    },
    OnNewConsumer {
        producer_peer_id: Uid,
        producer_id: ProducerId,
        consumer_id: ConsumerId,
        kind: MediaKind,
        rtp_params: RtpParameters,
        consumer_type: ConsumerType,
        producer_paused: bool,
        is_share: bool,
    },
    OnNewProducer { id: ProducerId },
    ConsumerClosed { consumer_id: ConsumerId, producer_peer_id: Uid },
    ConsumerPaused { consumer_id: ConsumerId },
    ConsumerResumed { consumer_id: ConsumerId },
    IceRestarted { ice_params: IceParameters },
}

/// What a peer's channel carries: news from the room and the media layer, and what came in
/// from the client.
#[allow(inconsistent_fields)]
#[derive(Debug, PartialEq, Eq)]
pub enum PeerEvent {
    Welcome { room_id: Uid, rtp_caps: RtpCapabilitiesFinalized },
    Denied,
    OnJoin { others: Vec<Uid> },
    NewPeerJoined { user_id: Uid },
    PeerLeft { id: Uid },
    OnNewConsumer {
        producer_peer_id: Uid,
        producer_id: ProducerId,
        consumer_id: ConsumerId,
        kind: MediaKind,
        rtp_params: RtpParameters,
        consumer_type: ConsumerType,
        producer_paused: bool,
        is_share: bool,
    },
    OnNewProducer { id: ProducerId },
    OnConsumerTransportClose { consumer_id: ConsumerId },
    OnProducerClose { consumer_id: ConsumerId, producer_peer_id: Uid },
    OnProducerPause { consumer_id: ConsumerId },
    OnProducerResume { consumer_id: ConsumerId },
    Rcvd(Client2Server),
    OnNewTransport {
        tag: Option<String>,
        id: TransportId,
        ice_candidates: Vec<IceCandidate>,
        ice_params: IceParameters,
        dtls_params: DtlsParameters,
    },
    IceRestarted { ice_params: IceParameters },
    Close,
}

/// Why a message did not reach a client.
#[derive(Debug, Copy, Clone, PartialEq, Eq, Structural)]
pub enum Error {
    Socket,
    ConnectionClosed,
}

/// What a room keeps of a peer's transport.
#[derive(Debug, Copy, Clone, PartialEq, Eq, Structural)]
pub struct PeerTransport {
    pub produce: bool,
    pub consume: bool,
}

/// What a room keeps of a peer's producer.
#[derive(Debug, Copy, Clone, PartialEq, Eq, Structural)]
pub struct PeerProducer {
    pub is_share: bool,
}

/// A peer as its room keeps it.
pub struct Peer {
    pub tx: PeerTx,
    pub joined: bool,
    pub transports: HashMap<u128, PeerTransport>,
    pub consumers: HashSet<u128>,
    pub producers: HashMap<u128, PeerProducer>,
    pub rtp_caps: Option<RtpCapabilities>,
}

/// A peer's contents.
#[verifier::ext_equal]
pub struct PeerView {
    pub tx: PeerTx,
    pub joined: bool,
    pub transports: Map<u128, PeerTransport>,
    pub consumers: Set<u128>,
    pub producers: Map<u128, PeerProducer>,
    pub rtp_caps: Option<RtpCapabilities>,
}

impl View for Peer {
    type V = PeerView;

    open spec fn view(&self) -> PeerView {
        PeerView {
            tx: self.tx,
            joined: self.joined,
            transports: self.transports@,
            consumers: self.consumers@,
            producers: self.producers@,
            rtp_caps: self.rtp_caps,
        }
    }
}

impl PeerView {
    /// A peer that has been let in and has done nothing yet.
    pub open spec fn fresh(tx: PeerTx) -> PeerView {
        PeerView {
            tx,
            joined: false,
            transports: Map::empty(),
            consumers: Set::empty(),
            producers: Map::empty(),
            rtp_caps: None,
        }
    }
}

impl Peer {
    pub fn new(tx: PeerTx) -> (r: Self)
        ensures
            r@ == PeerView::fresh(tx),
    {
        Peer {
            tx,
            joined: false,
            transports: HashMap::new(),
            consumers: HashSet::new(),
            producers: HashMap::new(),
            rtp_caps: None,
        }
    }
}

/// What a peer does: speak to its client, speak to its room, or hang up on its client.
#[allow(inconsistent_fields)]
#[derive(Debug, PartialEq, Eq)]
pub enum Relay {
    ToClient(Server2Client),
    ToRoom(Event),
    HangUp,
}

/// A peer's reaction to one event: what it does, in order, and whether that was its last event.
#[derive(Debug, PartialEq, Eq)]
pub struct Reaction {
    pub relays: Vec<Relay>,
    pub done: bool,
}

/// What the room is asked when `user_id`'s client has sent `msg`.
pub open spec fn request_of(user_id: Uid, msg: Client2Server) -> Event {
    match msg {
        Client2Server::CreateRtcTransport { tag, force_tcp, produce, consume } =>
            Event::CreateRtcTransport { tag, user_id, force_tcp, produce, consume },
        Client2Server::ConnectRtcTransport { id, dtls_params } =>
            Event::ConnectRtcTransport { user_id, transport_id: id, dtls_params },
        Client2Server::RestartIce { transport_id } => Event::RestartIce { user_id, transport_id },
        Client2Server::Join { rtp_caps } => Event::Join { user_id, rtp_caps },
        Client2Server::Produce { transport_id, kind, rtp_params, is_share } =>
            Event::Produce { user_id, transport_id, kind, rtp_params, is_share },
        Client2Server::CloseProducer { id } =>
            Event::CloseProducer { producer_peer_id: user_id, id },
        Client2Server::PauseProducer { id } =>
            Event::PauseProducer { producer_peer_id: user_id, id },
        Client2Server::ResumeProducer { id } =>
            Event::ResumeProducer { producer_peer_id: user_id, id },
    }
}

/// What `user_id`'s peer does on `event`.
pub open spec fn relays_of(user_id: Uid, event: PeerEvent) -> Seq<Relay> {
    match event {
        PeerEvent::Welcome { room_id, rtp_caps } =>
            seq![Relay::ToClient(Server2Client::Welcome { room_id, rtp_caps })],
        PeerEvent::Denied => seq![Relay::HangUp],
        PeerEvent::OnJoin { others } =>
            seq![Relay::ToClient(Server2Client::OnJoin { others })],
        PeerEvent::NewPeerJoined { user_id: newcomer } =>
            seq![Relay::ToClient(Server2Client::NewPeerJoined { user_id: newcomer })],
        PeerEvent::PeerLeft { id } => seq![Relay::ToClient(Server2Client::PeerLeft { id })],
        PeerEvent::OnNewConsumer {
            producer_peer_id,
            producer_id,
            consumer_id,
            kind,
            rtp_params,
            consumer_type,
            producer_paused,
            is_share,
        } => seq![
            Relay::ToClient(
                Server2Client::OnNewConsumer {
                    producer_peer_id,
                    producer_id,
                    consumer_id,
                    kind,
                    rtp_params,
                    consumer_type,
                    producer_paused,
                    is_share,
                },
            ),
        ],
        PeerEvent::OnNewProducer { id } =>
            seq![Relay::ToClient(Server2Client::OnNewProducer { id })],
        PeerEvent::OnConsumerTransportClose { consumer_id } =>
            seq![Relay::ToRoom(Event::OnConsumerTransportClose { user_id, consumer_id })],
        PeerEvent::OnProducerClose { consumer_id, producer_peer_id } => seq![
            Relay::ToRoom(Event::OnProducerClose { consumer_peer_id: user_id, consumer_id }),
            Relay::ToClient(Server2Client::ConsumerClosed { consumer_id, producer_peer_id }),
        ],
        PeerEvent::OnProducerPause { consumer_id } =>
            seq![Relay::ToClient(Server2Client::ConsumerPaused { consumer_id })],
        PeerEvent::OnProducerResume { consumer_id } =>
            seq![Relay::ToClient(Server2Client::ConsumerResumed { consumer_id })],
        PeerEvent::Rcvd(msg) => seq![Relay::ToRoom(request_of(user_id, msg))],
        PeerEvent::OnNewTransport { tag, id, ice_candidates, ice_params, dtls_params } => seq![
            Relay::ToClient(
                Server2Client::OnNewTransport { tag, id, ice_candidates, ice_params, dtls_params },
            ),
        ],
        PeerEvent::IceRestarted { ice_params } =>
            seq![Relay::ToClient(Server2Client::IceRestarted { ice_params })],
        PeerEvent::Close => seq![Relay::HangUp, Relay::ToRoom(Event::Leave { user_id })],
    }
}

/// Turns a client's message into a request to the room, made in the client's own name.
pub fn request(user_id: Uid, msg: Client2Server) -> (r: Event)
    ensures
        r == request_of(user_id, msg),
{
    match msg {
        Client2Server::CreateRtcTransport { tag, force_tcp, produce, consume } =>
            Event::CreateRtcTransport { tag, user_id, force_tcp, produce, consume },
        Client2Server::ConnectRtcTransport { id, dtls_params } =>
            Event::ConnectRtcTransport { user_id, transport_id: id, dtls_params },
        Client2Server::RestartIce { transport_id } => Event::RestartIce { user_id, transport_id },
        Client2Server::Join { rtp_caps } => Event::Join { user_id, rtp_caps },
        Client2Server::Produce { transport_id, kind, rtp_params, is_share } =>
            Event::Produce { user_id, transport_id, kind, rtp_params, is_share },
        Client2Server::CloseProducer { id } =>
            Event::CloseProducer { producer_peer_id: user_id, id },
        Client2Server::PauseProducer { id } =>
            Event::PauseProducer { producer_peer_id: user_id, id },
        Client2Server::ResumeProducer { id } =>
            Event::ResumeProducer { producer_peer_id: user_id, id },
    }
}

/// Handles one event on a peer's channel. The peer stops listening after it was denied entry
/// and after its client has closed the connection; only in the second case does it tell the
/// room that it leaves.
pub fn react(user_id: Uid, event: PeerEvent) -> (r: Reaction)
    ensures
        r.relays@ == relays_of(user_id, event),
        r.done == (event is Denied || event is Close),
{
    let mut relays: Vec<Relay> = Vec::new();
    let mut done = false;
    match event {
        PeerEvent::Welcome { room_id, rtp_caps } => {
            relays.push(Relay::ToClient(Server2Client::Welcome { room_id, rtp_caps }));
        },
        PeerEvent::Denied => {
            relays.push(Relay::HangUp);
            done = true;
        },
        PeerEvent::OnJoin { others } => {
            relays.push(Relay::ToClient(Server2Client::OnJoin { others }));
        },
        PeerEvent::NewPeerJoined { user_id: newcomer } => {
            relays.push(Relay::ToClient(Server2Client::NewPeerJoined { user_id: newcomer }));
        },
        PeerEvent::PeerLeft { id } => {
            relays.push(Relay::ToClient(Server2Client::PeerLeft { id }));
        },
        PeerEvent::OnNewConsumer {
            producer_peer_id,
            producer_id,
            consumer_id,
            kind,
            rtp_params,
            consumer_type,
            producer_paused,
            is_share,
        } => {
            relays.push(
                Relay::ToClient(
                    Server2Client::OnNewConsumer {
                        producer_peer_id,
                        producer_id,
                        consumer_id,
                        kind,
                        rtp_params,
                        consumer_type,
                        producer_paused,
                        is_share,
                    },
                ),
            );
        },
        PeerEvent::OnNewProducer { id } => {
            relays.push(Relay::ToClient(Server2Client::OnNewProducer { id }));
        },
        PeerEvent::OnConsumerTransportClose { consumer_id } => {
            relays.push(Relay::ToRoom(Event::OnConsumerTransportClose { user_id, consumer_id }));
        },
        PeerEvent::OnProducerClose { consumer_id, producer_peer_id } => {
            relays.push(
                Relay::ToRoom(Event::OnProducerClose { consumer_peer_id: user_id, consumer_id }),
            );
            relays.push(
                Relay::ToClient(Server2Client::ConsumerClosed { consumer_id, producer_peer_id }),
            );
        },
        PeerEvent::OnProducerPause { consumer_id } => {
            relays.push(Relay::ToClient(Server2Client::ConsumerPaused { consumer_id }));
        },
        PeerEvent::OnProducerResume { consumer_id } => {
            relays.push(Relay::ToClient(Server2Client::ConsumerResumed { consumer_id }));
        },
        PeerEvent::Rcvd(msg) => {
            relays.push(Relay::ToRoom(request(user_id, msg)));
        },
        PeerEvent::OnNewTransport { tag, id, ice_candidates, ice_params, dtls_params } => {
            relays.push(
                Relay::ToClient(
                    Server2Client::OnNewTransport {
                        tag,
                        id,
                        ice_candidates,
                        ice_params,
                        dtls_params,
                    },
                ),
            );
        },
        PeerEvent::IceRestarted { ice_params } => {
            relays.push(Relay::ToClient(Server2Client::IceRestarted { ice_params }));
        },
        PeerEvent::Close => {
            relays.push(Relay::HangUp);
            relays.push(Relay::ToRoom(Event::Leave { user_id }));
            done = true;
        },
    }
    Reaction { relays, done }
}

/// What came in on a client's socket: a text with the message that it spells, where it spells
/// one; a close; or anything else.
#[allow(inconsistent_fields)]
#[derive(Debug, PartialEq, Eq)]
pub enum Frame {
    Text(Option<Client2Server>),
    Close,
    Other,
}

/// What to make of a frame: an event for the peer's channel, and whether to stop reading.
#[derive(Debug, PartialEq, Eq)]
pub struct Received {
    pub event: Option<PeerEvent>,
    pub done: bool,
}

/// Handles one frame from a client's socket. Texts that spell no message and frames of other
/// types are passed over.
pub fn receive(frame: Frame) -> (r: Received)
    ensures
        r.event == match frame {
            Frame::Text(Some(msg)) => Some(PeerEvent::Rcvd(msg)),
            Frame::Text(None) => None,
            Frame::Close => Some(PeerEvent::Close),
            Frame::Other => None,
        },
        r.done == (frame is Close),
{
    match frame {
        Frame::Text(Some(msg)) => Received { event: Some(PeerEvent::Rcvd(msg)), done: false },
        Frame::Text(None) => Received { event: None, done: false },
        Frame::Close => Received { event: Some(PeerEvent::Close), done: true },
        Frame::Other => Received { event: None, done: false },
    }
}

/// The first thing that a peer does: ask its room to be let in.
pub fn knock(user_id: Uid, tx: PeerTx) -> (r: Event)
    ensures
        r == (Event::KnockKnock { user_id, tx }),
{
    Event::KnockKnock { user_id, tx }
}

/// What the media layer reports of a consumer. `Producer` stands for the producer that the
/// consumer is attached to, which is another peer's.
#[derive(Debug, Copy, Clone, PartialEq, Eq, Structural)]
pub enum ConsumerSignal {
    TransportClose,
    ProducerClose,
    ProducerPause,
    ProducerResume,
}

/// The event by which a consumer's owner hears of a signal.
pub open spec fn event_of(
    signal: ConsumerSignal,
    consumer_id: ConsumerId,
    producer_peer_id: Uid,
) -> PeerEvent {
    match signal {
        ConsumerSignal::TransportClose => PeerEvent::OnConsumerTransportClose { consumer_id },
        ConsumerSignal::ProducerClose =>
            PeerEvent::OnProducerClose { consumer_id, producer_peer_id },
        ConsumerSignal::ProducerPause => PeerEvent::OnProducerPause { consumer_id },
        ConsumerSignal::ProducerResume => PeerEvent::OnProducerResume { consumer_id },
    }
}

/// Turns a signal of the media layer into an event for the consumer's owner.
pub fn signalled(
    signal: ConsumerSignal,
    consumer_id: ConsumerId,
    producer_peer_id: Uid,
) -> (r: PeerEvent)
    ensures
        r == event_of(signal, consumer_id, producer_peer_id),
{
    match signal {
        ConsumerSignal::TransportClose => PeerEvent::OnConsumerTransportClose { consumer_id },
        ConsumerSignal::ProducerClose =>
            PeerEvent::OnProducerClose { consumer_id, producer_peer_id },
        ConsumerSignal::ProducerPause => PeerEvent::OnProducerPause { consumer_id },
        ConsumerSignal::ProducerResume => PeerEvent::OnProducerResume { consumer_id },
    }
}

} // verus!
