use huddle::agenda::Agenda;
use huddle::media::{
    AudioLevel, ConsumerId, ConsumerLayers, ConsumerOptions, ConsumerType, DtlsParameters,
    IceCandidate, IceParameters, MediaKind, NewConsumer, NewTransport, ProducerId,
    ProducerOptions, RtpCapabilities, RtpCapabilitiesFinalized, RtpParameters, TransportId,
    TransportOptions,
};
use huddle::peer::{react, signalled, ConsumerSignal, PeerEvent, PeerTx, Relay, Server2Client};
use huddle::room::{Action, Event, Offer, Room, Step};
use huddle::uid::Uid;

const ROOM: Uid = Uid(1000);
const ANN: Uid = Uid(1);
const BOB: Uid = Uid(2);
const CAT: Uid = Uid(3);

fn tx(user_id: Uid) -> PeerTx {
    PeerTx(user_id.0 + 10)
}

fn caps(user_id: Uid) -> RtpCapabilities {
    RtpCapabilities(format!("caps of {}", user_id.0))
}

fn new_room() -> Room {
    Room::new(ROOM, RtpCapabilitiesFinalized("router".to_string()))
}

fn handle(room: &mut Room, event: Event) -> Vec<Action> {
    let Step { actions, done } = room.handle(event);
    assert!(!done);
    actions
}

fn knock(room: &mut Room, user_id: Uid) {
    let actions = handle(room, Event::KnockKnock { user_id, tx: tx(user_id) });
    assert_eq!(
        actions,
        vec![Action::Send {
            tx: tx(user_id),
            event: PeerEvent::Welcome {
                room_id: ROOM,
                rtp_caps: RtpCapabilitiesFinalized("router".to_string()),
            },
        }]
    );
}

fn new_transport(id: u128) -> NewTransport {
    NewTransport {
        id: TransportId(id),
        ice_candidates: vec![IceCandidate("candidate".to_string())],
        ice_params: IceParameters("ice".to_string()),
        dtls_params: DtlsParameters("dtls".to_string()),
    }
}

fn add_transport(room: &mut Room, user_id: Uid, id: u128, produce: bool, consume: bool) {
    let actions = room.transport_created(user_id, None, produce, consume, new_transport(id));
    assert_eq!(
        actions,
        vec![Action::Send {
            tx: tx(user_id),
            event: PeerEvent::OnNewTransport {
                tag: None,
                id: TransportId(id),
                ice_candidates: vec![IceCandidate("candidate".to_string())],
                ice_params: IceParameters("ice".to_string()),
                dtls_params: DtlsParameters("dtls".to_string()),
            },
        }]
    );
}

fn new_consumer(id: u128) -> NewConsumer {
    NewConsumer {
        id: ConsumerId(id),
        kind: MediaKind::Video,
        rtp_params: RtpParameters("params".to_string()),
        consumer_type: ConsumerType::Simulcast,
        producer_paused: false,
    }
}

fn offer(to: Uid, from: Uid, id: u128, is_share: bool) -> Offer {
    Offer {
        consumer_peer_id: to,
        producer_peer_id: from,
        producer_id: ProducerId(id),
        is_share,
    }
}

fn question(o: Offer) -> Action {
    Action::CanConsume { offer: o, rtp_caps: caps(o.consumer_peer_id) }
}

fn joined_event(user_id: Uid) -> Event {
    Event::Join { user_id, rtp_caps: Some(caps(user_id)) }
}

fn send(to: Uid, event: PeerEvent) -> Action {
    Action::Send { tx: tx(to), event }
}

/// Takes `expected` out of `actions`, once.
fn take(actions: &mut Vec<Action>, expected: Action) {
    let at = actions.iter().position(|a| *a == expected);
    assert!(at.is_some(), "no {expected:?} in {actions:?}");
    actions.remove(at.unwrap());
}

/// A room with Ann and Bob in it, both joined, each with a transport for either direction.
fn ann_and_bob() -> Room {
    let mut room = new_room();
    for (user_id, id) in [(ANN, 100), (BOB, 200)] {
        knock(&mut room, user_id);
        add_transport(&mut room, user_id, id, true, false);
        add_transport(&mut room, user_id, id + 1, false, true);
        handle(&mut room, joined_event(user_id));
    }
    room
}

fn produce_event(user_id: Uid, transport_id: u128) -> Event {
    Event::Produce {
        user_id,
        transport_id: TransportId(transport_id),
        kind: MediaKind::Audio,
        rtp_params: RtpParameters("mic".to_string()),
        is_share: false,
    }
}

#[test]
fn a_name_is_taken_once() {
    let mut room = new_room();
    knock(&mut room, ANN);
    let denied = handle(&mut room, Event::KnockKnock { user_id: ANN, tx: PeerTx(77) });
    assert_eq!(
        denied,
        vec![
            Action::Send { tx: PeerTx(77), event: PeerEvent::Denied },
            Action::Forget { tx: PeerTx(77) },
        ]
    );
    // the first one still stands
    assert_eq!(
        handle(&mut room, Event::Join { user_id: ANN, rtp_caps: None }),
        vec![send(ANN, PeerEvent::OnJoin { others: vec![] })]
    );
}

#[test]
fn knocking_and_leaving_leaves_no_trace() {
    let mut room = new_room();
    knock(&mut room, ANN);
    knock(&mut room, BOB);
    let step = room.handle(Event::Leave { user_id: BOB });
    assert_eq!(step.actions, vec![Action::Forget { tx: tx(BOB) }]);
    assert!(!step.done);
    knock(&mut room, BOB);
}

#[test]
fn joining_tells_everyone() {
    let mut room = new_room();
    for user_id in [ANN, BOB, CAT] {
        knock(&mut room, user_id);
    }
    let mut actions = handle(&mut room, joined_event(CAT));
    match actions.remove(0) {
        Action::Send { tx: to, event: PeerEvent::OnJoin { mut others } } => {
            others.sort();
            assert_eq!((to, others), (tx(CAT), vec![ANN, BOB]));
        }
        other => panic!("not a roll call: {other:?}"),
    }
    assert_eq!(actions.len(), 2);
    take(&mut actions, send(ANN, PeerEvent::NewPeerJoined { user_id: CAT }));
    take(&mut actions, send(BOB, PeerEvent::NewPeerJoined { user_id: CAT }));
    // once
    assert_eq!(handle(&mut room, joined_event(CAT)), vec![]);
}

#[test]
fn strangers_do_nothing() {
    let mut room = ann_and_bob();
    for event in [
        joined_event(CAT),
        produce_event(CAT, 100),
        Event::CreateRtcTransport {
            tag: None,
            user_id: CAT,
            force_tcp: None,
            produce: true,
            consume: true,
        },
        Event::ConnectRtcTransport {
            user_id: CAT,
            transport_id: TransportId(100),
            dtls_params: DtlsParameters(String::new()),
        },
        Event::RestartIce { user_id: CAT, transport_id: TransportId(100) },
        Event::OnConsumerTransportClose { user_id: CAT, consumer_id: ConsumerId(1) },
        Event::OnProducerClose { consumer_peer_id: CAT, consumer_id: ConsumerId(1) },
        Event::CloseProducer { producer_peer_id: CAT, id: ProducerId(1) },
        Event::SetConsumerPriority { user_id: CAT, consumer_id: ConsumerId(1), priority: 1 },
        Event::Leave { user_id: CAT },
        Event::OnAudioLevelsChange {
            producer: Some(AudioLevel { producer_id: ProducerId(1), volume: -3 }),
        },
    ] {
        assert_eq!(handle(&mut room, event), vec![]);
    }
}

#[test]
fn transports_are_created_on_request() {
    let mut room = new_room();
    knock(&mut room, ANN);
    let request = |force_tcp| Event::CreateRtcTransport {
        tag: Some("snd".to_string()),
        user_id: ANN,
        force_tcp,
        produce: true,
        consume: false,
    };
    let action = |options| Action::CreateTransport {
        user_id: ANN,
        tag: Some("snd".to_string()),
        options,
        produce: true,
        consume: false,
    };
    let default = TransportOptions { enable_udp: None, enable_tcp: None };
    let tcp = TransportOptions { enable_udp: Some(false), enable_tcp: Some(true) };
    assert_eq!(handle(&mut room, request(None)), vec![action(default)]);
    assert_eq!(handle(&mut room, request(Some(false))), vec![action(default)]);
    assert_eq!(handle(&mut room, request(Some(true))), vec![action(tcp)]);

    // not there before the media layer has made it
    let connect = || Event::ConnectRtcTransport {
        user_id: ANN,
        transport_id: TransportId(100),
        dtls_params: DtlsParameters("hello".to_string()),
    };
    assert_eq!(handle(&mut room, connect()), vec![]);
    assert_eq!(
        room.transport_created(ANN, Some("snd".to_string()), true, false, new_transport(100)),
        vec![send(
            ANN,
            PeerEvent::OnNewTransport {
                tag: Some("snd".to_string()),
                id: TransportId(100),
                ice_candidates: vec![IceCandidate("candidate".to_string())],
                ice_params: IceParameters("ice".to_string()),
                dtls_params: DtlsParameters("dtls".to_string()),
            }
        )]
    );
    assert_eq!(
        handle(&mut room, connect()),
        vec![Action::ConnectTransport {
            transport_id: TransportId(100),
            dtls_params: DtlsParameters("hello".to_string()),
        }]
    );
    assert_eq!(
        room.transport_created(CAT, None, true, true, new_transport(300)),
        vec![Action::CloseTransport { id: TransportId(300) }]
    );
}

#[test]
fn ice_restarts_on_request() {
    let mut room = ann_and_bob();
    let restart = |id| Event::RestartIce { user_id: ANN, transport_id: TransportId(id) };
    assert_eq!(
        handle(&mut room, restart(100)),
        vec![Action::RestartIce { user_id: ANN, transport_id: TransportId(100) }]
    );
    assert_eq!(handle(&mut room, restart(200)), vec![]);
    assert_eq!(
        room.ice_restarted(ANN, Some(IceParameters("new".to_string()))),
        vec![send(
            ANN,
            PeerEvent::IceRestarted { ice_params: IceParameters("new".to_string()) }
        )]
    );
    assert_eq!(room.ice_restarted(ANN, None), vec![]);
    assert_eq!(room.ice_restarted(CAT, Some(IceParameters("new".to_string()))), vec![]);
}

#[test]
fn producing_takes_joining_and_a_transport() {
    let mut room = new_room();
    knock(&mut room, ANN);
    add_transport(&mut room, ANN, 100, true, false);
    assert_eq!(handle(&mut room, produce_event(ANN, 100)), vec![]);
    handle(&mut room, joined_event(ANN));
    assert_eq!(handle(&mut room, produce_event(ANN, 101)), vec![]);
    assert_eq!(
        handle(&mut room, produce_event(ANN, 100)),
        vec![Action::Produce {
            user_id: ANN,
            transport_id: TransportId(100),
            options: ProducerOptions {
                kind: MediaKind::Audio,
                rtp_parameters: RtpParameters("mic".to_string()),
            },
            is_share: false,
        }]
    );
    assert_eq!(room.produced(ANN, false, None), vec![]);
    assert_eq!(
        room.produced(CAT, false, Some(ProducerId(9))),
        vec![Action::CloseProducer { id: ProducerId(9) }]
    );
}

#[test]
fn a_producer_is_offered_to_the_others() {
    let mut room = ann_and_bob();
    // Cat is there but has not joined, so it cannot receive
    knock(&mut room, CAT);
    assert_eq!(
        room.produced(ANN, true, Some(ProducerId(500))),
        vec![
            send(ANN, PeerEvent::OnNewProducer { id: ProducerId(500) }),
            question(offer(BOB, ANN, 500, true)),
        ]
    );
}

#[test]
fn a_newcomer_is_offered_what_there_is() {
    let mut room = ann_and_bob();
    room.produced(ANN, false, Some(ProducerId(500)));
    room.produced(ANN, true, Some(ProducerId(501)));
    room.produced(BOB, false, Some(ProducerId(600)));
    knock(&mut room, CAT);
    let actions = handle(&mut room, joined_event(CAT));
    assert_eq!(actions.len(), 6);
    // the offers stand between the roll call and the news, peer by peer
    let from: Vec<Uid> = actions[1..4]
        .iter()
        .map(|a| match a {
            Action::CanConsume { offer, .. } => offer.producer_peer_id,
            other => panic!("no question: {other:?}"),
        })
        .collect();
    assert!(from == vec![ANN, ANN, BOB] || from == vec![BOB, ANN, ANN]);
    let mut rest = actions;
    take(&mut rest, question(offer(CAT, ANN, 500, false)));
    take(&mut rest, question(offer(CAT, ANN, 501, true)));
    take(&mut rest, question(offer(CAT, BOB, 600, false)));
    take(&mut rest, send(ANN, PeerEvent::NewPeerJoined { user_id: CAT }));
    take(&mut rest, send(BOB, PeerEvent::NewPeerJoined { user_id: CAT }));
    assert_eq!(rest.len(), 1);
}

#[test]
fn who_cannot_receive_is_offered_nothing() {
    let mut room = ann_and_bob();
    room.produced(ANN, false, Some(ProducerId(500)));
    knock(&mut room, CAT);
    let actions = handle(&mut room, Event::Join { user_id: CAT, rtp_caps: None });
    assert_eq!(actions.len(), 3);
    assert_eq!(
        room.produced(BOB, false, Some(ProducerId(600))),
        vec![
            send(BOB, PeerEvent::OnNewProducer { id: ProducerId(600) }),
            question(offer(ANN, BOB, 600, false)),
        ]
    );
}

#[test]
fn an_offer_becomes_a_consumer() {
    let mut room = ann_and_bob();
    let o = offer(BOB, ANN, 500, true);
    room.produced(ANN, true, Some(ProducerId(500)));
    assert_eq!(room.can_consume(o, false), vec![]);
    assert_eq!(
        room.can_consume(o, true),
        vec![Action::Consume {
            offer: o,
            transport_id: TransportId(201),
            options: ConsumerOptions {
                producer_id: ProducerId(500),
                rtp_capabilities: caps(BOB),
                paused: true,
                enable_rtx: Some(true),
            },
        }]
    );
    assert_eq!(room.consumed(o, None), vec![]);
    assert_eq!(
        room.consumed(o, Some(new_consumer(700))),
        vec![
            Action::WatchConsumer {
                consumer_id: ConsumerId(700),
                tx: tx(BOB),
                producer_peer_id: ANN,
            },
            send(
                BOB,
                PeerEvent::OnNewConsumer {
                    producer_peer_id: ANN,
                    producer_id: ProducerId(500),
                    consumer_id: ConsumerId(700),
                    kind: MediaKind::Video,
                    rtp_params: RtpParameters("params".to_string()),
                    consumer_type: ConsumerType::Simulcast,
                    producer_paused: false,
                    is_share: true,
                }
            ),
        ]
    );
    assert_eq!(
        handle(
            &mut room,
            Event::ResumeConsumer { consumer_peer_id: BOB, id: ConsumerId(700) }
        ),
        vec![Action::ResumeConsumer { id: ConsumerId(700) }]
    );
}

#[test]
fn consuming_takes_a_transport_for_it() {
    let mut room = new_room();
    knock(&mut room, ANN);
    add_transport(&mut room, ANN, 100, true, false);
    handle(&mut room, joined_event(ANN));
    let o = offer(ANN, BOB, 500, false);
    assert_eq!(room.can_consume(o, true), vec![]);
    add_transport(&mut room, ANN, 101, false, true);
    assert_eq!(room.can_consume(o, true).len(), 1);
    // nobody there
    let o = offer(CAT, BOB, 500, false);
    assert_eq!(room.can_consume(o, true), vec![]);
    assert_eq!(
        room.consumed(o, Some(new_consumer(700))),
        vec![Action::CloseConsumer { id: ConsumerId(700) }]
    );
}

#[test]
fn producers_are_handled_by_their_owner() {
    let mut room = ann_and_bob();
    let id = ProducerId(500);
    room.produced(ANN, false, Some(id));
    for (user_id, found) in [(ANN, true), (BOB, false)] {
        let expected = |action| if found { vec![action] } else { vec![] };
        let pause = Event::PauseProducer { producer_peer_id: user_id, id };
        assert_eq!(handle(&mut room, pause), expected(Action::PauseProducer { id }));
        let resume = Event::ResumeProducer { producer_peer_id: user_id, id };
        assert_eq!(handle(&mut room, resume), expected(Action::ResumeProducer { id }));
    }
    let close = |user_id| Event::CloseProducer { producer_peer_id: user_id, id };
    assert_eq!(handle(&mut room, close(BOB)), vec![]);
    assert_eq!(handle(&mut room, close(ANN)), vec![Action::CloseProducer { id }]);
    assert_eq!(handle(&mut room, close(ANN)), vec![]);
    let pause = Event::PauseProducer { producer_peer_id: ANN, id };
    assert_eq!(handle(&mut room, pause), vec![]);
}

#[test]
fn consumers_are_handled_by_their_owner() {
    let mut room = ann_and_bob();
    let id = ConsumerId(700);
    room.consumed(offer(BOB, ANN, 500, false), Some(new_consumer(700)));
    for (user_id, found) in [(ANN, false), (BOB, true)] {
        let expected = |action| if found { vec![action] } else { vec![] };
        let pause = Event::PauseConsumer { consumer_peer_id: user_id, id };
        assert_eq!(handle(&mut room, pause), expected(Action::PauseConsumer { id }));
        let resume = Event::ResumeConsumer { consumer_peer_id: user_id, id };
        assert_eq!(handle(&mut room, resume), expected(Action::ResumeConsumer { id }));
        let layers = Event::SetConsumerLayers {
            user_id,
            consumer_id: id,
            spatial: 2,
            temporal: 1,
        };
        assert_eq!(
            handle(&mut room, layers),
            expected(Action::SetPreferredLayers {
                id,
                layers: ConsumerLayers { spatial_layer: 2, temporal_layer: Some(1) },
            })
        );
        let priority = Event::SetConsumerPriority { user_id, consumer_id: id, priority: 9 };
        assert_eq!(
            handle(&mut room, priority),
            expected(Action::SetPriority { id, priority: 9 })
        );
    }
}

#[test]
fn consumers_end_with_their_producer() {
    let mut room = ann_and_bob();
    room.consumed(offer(BOB, ANN, 500, false), Some(new_consumer(700)));
    let event = signalled(ConsumerSignal::ProducerClose, ConsumerId(700), ANN);
    let mut relays = react(BOB, event).relays;
    assert_eq!(
        relays.remove(1),
        Relay::ToClient(Server2Client::ConsumerClosed {
            consumer_id: ConsumerId(700),
            producer_peer_id: ANN,
        })
    );
    match relays.remove(0) {
        Relay::ToRoom(said) => assert_eq!(
            handle(&mut room, said),
            vec![Action::CloseConsumer { id: ConsumerId(700) }]
        ),
        other => panic!("not for the room: {other:?}"),
    }
    let again = Event::OnConsumerTransportClose { user_id: BOB, consumer_id: ConsumerId(700) };
    assert_eq!(handle(&mut room, again), vec![]);
}

#[test]
fn leaving_lets_go_of_everything() {
    let mut room = ann_and_bob();
    knock(&mut room, CAT);
    room.produced(ANN, false, Some(ProducerId(500)));
    room.consumed(offer(ANN, BOB, 600, false), Some(new_consumer(700)));
    let Step { mut actions, done } = room.handle(Event::Leave { user_id: ANN });
    assert!(!done);
    // the others first, then the channel, then what it held
    assert_eq!(actions[2], Action::Forget { tx: tx(ANN) });
    assert_eq!(actions[5], Action::CloseConsumer { id: ConsumerId(700) });
    assert_eq!(actions[6], Action::CloseProducer { id: ProducerId(500) });
    for expected in [
        send(BOB, PeerEvent::PeerLeft { id: ANN }),
        send(CAT, PeerEvent::PeerLeft { id: ANN }),
        Action::Forget { tx: tx(ANN) },
        Action::CloseTransport { id: TransportId(100) },
        Action::CloseTransport { id: TransportId(101) },
        Action::CloseConsumer { id: ConsumerId(700) },
        Action::CloseProducer { id: ProducerId(500) },
    ] {
        take(&mut actions, expected);
    }
    assert_eq!(actions, vec![]);
    // and the name is free again
    knock(&mut room, ANN);
}

#[test]
fn the_last_to_leave_closes_the_room() {
    let mut room = new_room();
    knock(&mut room, ANN);
    knock(&mut room, BOB);
    assert!(!room.handle(Event::Leave { user_id: ANN }).done);
    assert!(room.handle(Event::Leave { user_id: BOB }).done);
    // so does a stranger's leave from an empty room
    let mut empty = new_room();
    let step = empty.handle(Event::Leave { user_id: CAT });
    assert_eq!(step, Step { actions: vec![], done: true });
}

#[test]
fn a_forced_close_ends_the_room_whoever_is_in_it() {
    let closed = || Step { actions: vec![], done: true };
    assert_eq!(new_room().handle(Event::KillAll), closed());
    let mut knocked = new_room();
    knock(&mut knocked, ANN);
    assert_eq!(knocked.handle(Event::KillAll), closed());
    assert_eq!(ann_and_bob().handle(Event::KillAll), closed());
}

#[test]
fn everyone_ends_up_with_everything() {
    let mut room = new_room();
    let mut asked: Vec<Offer> = vec![];
    let mut note = |actions: &Vec<Action>| {
        for action in actions {
            if let Action::CanConsume { offer, .. } = action {
                asked.push(*offer);
            }
        }
    };
    for (user_id, producer) in [(ANN, 500), (BOB, 600), (CAT, 700)] {
        knock(&mut room, user_id);
        note(&handle(&mut room, joined_event(user_id)));
        note(&room.produced(user_id, false, Some(ProducerId(producer))));
    }
    assert_eq!(asked.len(), 6);
    for (to, from, id) in [
        (ANN, BOB, 600),
        (ANN, CAT, 700),
        (BOB, ANN, 500),
        (BOB, CAT, 700),
        (CAT, ANN, 500),
        (CAT, BOB, 600),
    ] {
        assert!(asked.contains(&offer(to, from, id, false)));
    }
}

#[test]
fn answers_come_before_what_waits() {
    let forget = |id| Action::Forget { tx: PeerTx(id) };
    let mut agenda = Agenda::new();
    assert_eq!(agenda.next(), None);
    agenda.put(vec![forget(1), forget(2)]);
    assert_eq!(agenda.next(), Some(forget(1)));
    agenda.put(vec![forget(3), forget(4)]);
    agenda.put(vec![]);
    assert_eq!(agenda.next(), Some(forget(3)));
    assert_eq!(agenda.next(), Some(forget(4)));
    assert_eq!(agenda.next(), Some(forget(2)));
    assert_eq!(agenda.next(), None);
}
