use huddle::media::{
    ConsumerId, ConsumerType, DtlsParameters, IceCandidate, IceParameters, MediaKind, ProducerId,
    RtpCapabilities, RtpCapabilitiesFinalized, RtpParameters, TransportId,
};
use huddle::peer::{
    knock, react, receive, request, signalled, Client2Server, ConsumerSignal, Error, Frame, Peer,
    PeerEvent, PeerTx, Reaction, Received, Relay, Server2Client,
};
use huddle::room::Event;
use huddle::uid::Uid;

const ME: Uid = Uid(7);

fn to_client(event: PeerEvent) -> Server2Client {
    let Reaction { mut relays, done } = react(ME, event);
    assert!(!done);
    assert_eq!(relays.len(), 1);
    match relays.remove(0) {
        Relay::ToClient(msg) => msg,
        other => panic!("not for the client: {other:?}"),
    }
}

#[test]
fn a_new_peer_has_nothing() {
    let peer = Peer::new(PeerTx(3));
    assert_eq!(peer.tx, PeerTx(3));
    assert!(!peer.joined);
    assert!(peer.transports.is_empty());
    assert!(peer.consumers.is_empty());
    assert!(peer.producers.is_empty());
    assert_eq!(peer.rtp_caps, None);
}

#[test]
fn a_peer_starts_by_knocking() {
    assert_eq!(knock(ME, PeerTx(4)), Event::KnockKnock { user_id: ME, tx: PeerTx(4) });
}

#[test]
fn news_is_relayed_to_the_client() {
    assert_eq!(
        to_client(PeerEvent::Welcome {
            room_id: Uid(1),
            rtp_caps: RtpCapabilitiesFinalized("caps".to_string()),
        }),
        Server2Client::Welcome {
            room_id: Uid(1),
            rtp_caps: RtpCapabilitiesFinalized("caps".to_string()),
        }
    );
    assert_eq!(
        to_client(PeerEvent::OnJoin { others: vec![Uid(2), Uid(3)] }),
        Server2Client::OnJoin { others: vec![Uid(2), Uid(3)] }
    );
    assert_eq!(
        to_client(PeerEvent::NewPeerJoined { user_id: Uid(9) }),
        Server2Client::NewPeerJoined { user_id: Uid(9) }
    );
    assert_eq!(
        to_client(PeerEvent::PeerLeft { id: Uid(9) }),
        Server2Client::PeerLeft { id: Uid(9) }
    );
    assert_eq!(
        to_client(PeerEvent::OnNewProducer { id: ProducerId(5) }),
        Server2Client::OnNewProducer { id: ProducerId(5) }
    );
    assert_eq!(
        to_client(PeerEvent::OnProducerPause { consumer_id: ConsumerId(6) }),
        Server2Client::ConsumerPaused { consumer_id: ConsumerId(6) }
    );
    assert_eq!(
        to_client(PeerEvent::OnProducerResume { consumer_id: ConsumerId(6) }),
        Server2Client::ConsumerResumed { consumer_id: ConsumerId(6) }
    );
    assert_eq!(
        to_client(PeerEvent::IceRestarted { ice_params: IceParameters("ice".to_string()) }),
        Server2Client::IceRestarted { ice_params: IceParameters("ice".to_string()) }
    );
    assert_eq!(
        to_client(PeerEvent::OnNewTransport {
            tag: Some("snd".to_string()),
            id: TransportId(8),
            ice_candidates: vec![IceCandidate("c".to_string())],
            ice_params: IceParameters("i".to_string()),
            dtls_params: DtlsParameters("d".to_string()),
        }),
        Server2Client::OnNewTransport {
            tag: Some("snd".to_string()),
            id: TransportId(8),
            ice_candidates: vec![IceCandidate("c".to_string())],
            ice_params: IceParameters("i".to_string()),
            dtls_params: DtlsParameters("d".to_string()),
        }
    );
    assert_eq!(
        to_client(PeerEvent::OnNewConsumer {
            producer_peer_id: Uid(2),
            producer_id: ProducerId(5),
            consumer_id: ConsumerId(6),
            kind: MediaKind::Video,
            rtp_params: RtpParameters("p".to_string()),
            consumer_type: ConsumerType::Svc,
            producer_paused: true,
            is_share: false,
        }),
        Server2Client::OnNewConsumer {
            producer_peer_id: Uid(2),
            producer_id: ProducerId(5),
            consumer_id: ConsumerId(6),
            kind: MediaKind::Video,
            rtp_params: RtpParameters("p".to_string()),
            consumer_type: ConsumerType::Svc,
            producer_paused: true,
            is_share: false,
        }
    );
}

#[test]
fn a_denied_peer_hangs_up_without_leaving() {
    assert_eq!(
        react(ME, PeerEvent::Denied),
        Reaction { relays: vec![Relay::HangUp], done: true }
    );
}

#[test]
fn a_closed_connection_is_a_leave() {
    assert_eq!(
        react(ME, PeerEvent::Close),
        Reaction {
            relays: vec![Relay::HangUp, Relay::ToRoom(Event::Leave { user_id: ME })],
            done: true,
        }
    );
}

#[test]
fn a_closed_producer_is_told_to_room_and_client() {
    assert_eq!(
        react(
            ME,
            PeerEvent::OnProducerClose {
                consumer_id: ConsumerId(6),
                producer_peer_id: Uid(2),
            }
        ),
        Reaction {
            relays: vec![
                Relay::ToRoom(Event::OnProducerClose {
                    consumer_peer_id: ME,
                    consumer_id: ConsumerId(6),
                }),
                Relay::ToClient(Server2Client::ConsumerClosed {
                    consumer_id: ConsumerId(6),
                    producer_peer_id: Uid(2),
                }),
            ],
            done: false,
        }
    );
    assert_eq!(
        react(ME, PeerEvent::OnConsumerTransportClose { consumer_id: ConsumerId(6) }),
        Reaction {
            relays: vec![Relay::ToRoom(Event::OnConsumerTransportClose {
                user_id: ME,
                consumer_id: ConsumerId(6),
            })],
            done: false,
        }
    );
}

#[test]
fn client_messages_go_to_the_room_in_the_clients_name() {
    assert_eq!(
        react(ME, PeerEvent::Rcvd(Client2Server::Join { rtp_caps: None })),
        Reaction {
            relays: vec![Relay::ToRoom(Event::Join { user_id: ME, rtp_caps: None })],
            done: false,
        }
    );
    assert_eq!(
        request(
            ME,
            Client2Server::CreateRtcTransport {
                tag: Some("rcv".to_string()),
                force_tcp: Some(true),
                produce: false,
                consume: true,
            }
        ),
        Event::CreateRtcTransport {
            tag: Some("rcv".to_string()),
            user_id: ME,
            force_tcp: Some(true),
            produce: false,
            consume: true,
        }
    );
    assert_eq!(
        request(
            ME,
            Client2Server::ConnectRtcTransport {
                id: TransportId(8),
                dtls_params: DtlsParameters("d".to_string()),
            }
        ),
        Event::ConnectRtcTransport {
            user_id: ME,
            transport_id: TransportId(8),
            dtls_params: DtlsParameters("d".to_string()),
        }
    );
    assert_eq!(
        request(ME, Client2Server::RestartIce { transport_id: TransportId(8) }),
        Event::RestartIce { user_id: ME, transport_id: TransportId(8) }
    );
    assert_eq!(
        request(
            ME,
            Client2Server::Join { rtp_caps: Some(RtpCapabilities("caps".to_string())) }
        ),
        Event::Join { user_id: ME, rtp_caps: Some(RtpCapabilities("caps".to_string())) }
    );
    assert_eq!(
        request(
            ME,
            Client2Server::Produce {
                transport_id: TransportId(8),
                kind: MediaKind::Audio,
                rtp_params: RtpParameters("p".to_string()),
                is_share: true,
            }
        ),
        Event::Produce {
            user_id: ME,
            transport_id: TransportId(8),
            kind: MediaKind::Audio,
            rtp_params: RtpParameters("p".to_string()),
            is_share: true,
        }
    );
    assert_eq!(
        request(ME, Client2Server::CloseProducer { id: ProducerId(5) }),
        Event::CloseProducer { producer_peer_id: ME, id: ProducerId(5) }
    );
    assert_eq!(
        request(ME, Client2Server::PauseProducer { id: ProducerId(5) }),
        Event::PauseProducer { producer_peer_id: ME, id: ProducerId(5) }
    );
    assert_eq!(
        request(ME, Client2Server::ResumeProducer { id: ProducerId(5) }),
        Event::ResumeProducer { producer_peer_id: ME, id: ProducerId(5) }
    );
}

#[test]
fn frames_become_events() {
    assert_eq!(
        receive(Frame::Text(Some(Client2Server::CloseProducer { id: ProducerId(5) }))),
        Received {
            event: Some(PeerEvent::Rcvd(Client2Server::CloseProducer { id: ProducerId(5) })),
            done: false,
        }
    );
    assert_eq!(receive(Frame::Text(None)), Received { event: None, done: false });
    assert_eq!(receive(Frame::Other), Received { event: None, done: false });
    assert_eq!(receive(Frame::Close), Received { event: Some(PeerEvent::Close), done: true });
}

#[test]
fn signals_become_events_of_the_owner() {
    let c = ConsumerId(6);
    assert_eq!(
        signalled(ConsumerSignal::TransportClose, c, Uid(2)),
        PeerEvent::OnConsumerTransportClose { consumer_id: c }
    );
    assert_eq!(
        signalled(ConsumerSignal::ProducerClose, c, Uid(2)),
        PeerEvent::OnProducerClose { consumer_id: c, producer_peer_id: Uid(2) }
    );
    assert_eq!(
        signalled(ConsumerSignal::ProducerPause, c, Uid(2)),
        PeerEvent::OnProducerPause { consumer_id: c }
    );
    assert_eq!(
        signalled(ConsumerSignal::ProducerResume, c, Uid(2)),
        PeerEvent::OnProducerResume { consumer_id: c }
    );
}

#[test]
fn errors_are_told_apart() {
    assert_ne!(Error::Socket, Error::ConnectionClosed);
}
