//! What goes through a peer goes through unchanged: news to its client, requests to its room,
//! and signals of the media layer.

use crate::media::{ConsumerId, NewConsumer};
use crate::peer::{
    event_of, knock, react, receive, relays_of, request, request_of, signalled, Client2Server,
    ConsumerSignal, Frame, Peer, PeerEvent, PeerTx, Reaction, Received, Relay, Server2Client,
};
use crate::room::{Action, Event, Offer};
use crate::rules::{moved, Input, RoomView};
use crate::uid::Uid;
use vstd::prelude::*;

verus! {

/// What a peer says to its client on an event, where that is all that it does.
pub open spec fn said_to_client(user_id: Uid, event: PeerEvent) -> Server2Client {
    relays_of(user_id, event)[0]->ToClient_0
}

/// The event is for the client: the peer says one thing to the client, and does nothing else.
pub open spec fn is_for_client(user_id: Uid, event: PeerEvent) -> bool {
    relays_of(user_id, event).len() == 1 && relays_of(user_id, event)[0] is ToClient
}

/// News of a consumer reaches the client with every field as the room sent it.
pub proof fn law_news_of_a_consumer_reaches_the_client(user_id: Uid, event: PeerEvent)
    requires
        event is OnNewConsumer,
    ensures
        is_for_client(user_id, event),
        said_to_client(user_id, event) is OnNewConsumer,
        said_to_client(user_id, event)->OnNewConsumer_producer_peer_id
            == event->OnNewConsumer_producer_peer_id,
        said_to_client(user_id, event)->OnNewConsumer_producer_id
            == event->OnNewConsumer_producer_id,
        said_to_client(user_id, event)->OnNewConsumer_consumer_id
            == event->OnNewConsumer_consumer_id,
        said_to_client(user_id, event)->OnNewConsumer_kind == event->OnNewConsumer_kind,
        said_to_client(user_id, event)->OnNewConsumer_rtp_params
            == event->OnNewConsumer_rtp_params,
        said_to_client(user_id, event)->OnNewConsumer_consumer_type
            == event->OnNewConsumer_consumer_type,
        said_to_client(user_id, event)->OnNewConsumer_producer_paused
            == event->OnNewConsumer_producer_paused,
        said_to_client(user_id, event)->OnNewConsumer_is_share == event->OnNewConsumer_is_share,
{
}

/// News of a transport reaches the client with every field as the room sent it.
pub proof fn law_news_of_a_transport_reaches_the_client(user_id: Uid, event: PeerEvent)
    requires
        event is OnNewTransport,
    ensures
        is_for_client(user_id, event),
        said_to_client(user_id, event) is OnNewTransport,
        said_to_client(user_id, event)->OnNewTransport_tag == event->OnNewTransport_tag,
        said_to_client(user_id, event)->OnNewTransport_id == event->OnNewTransport_id,
        said_to_client(user_id, event)->OnNewTransport_ice_candidates
            == event->OnNewTransport_ice_candidates,
        said_to_client(user_id, event)->OnNewTransport_ice_params
            == event->OnNewTransport_ice_params,
        said_to_client(user_id, event)->OnNewTransport_dtls_params
            == event->OnNewTransport_dtls_params,
{
}

/// News of the room and of the others reaches the client as the room sent it.
pub proof fn law_news_of_the_room_reaches_the_client(user_id: Uid, event: PeerEvent)
    ensures
        event is Welcome ==> {
            &&& is_for_client(user_id, event)
            &&& said_to_client(user_id, event) is Welcome
            &&& said_to_client(user_id, event)->Welcome_room_id == event->Welcome_room_id
            &&& said_to_client(user_id, event)->Welcome_rtp_caps == event->Welcome_rtp_caps
        },
        event is OnJoin ==> {
            &&& is_for_client(user_id, event)
            &&& said_to_client(user_id, event) is OnJoin
            &&& said_to_client(user_id, event)->OnJoin_others == event->OnJoin_others
        },
        event is NewPeerJoined ==> {
            &&& is_for_client(user_id, event)
            &&& said_to_client(user_id, event) is NewPeerJoined
            &&& said_to_client(user_id, event)->NewPeerJoined_user_id
                == event->NewPeerJoined_user_id
        },
        event is PeerLeft ==> {
            &&& is_for_client(user_id, event)
            &&& said_to_client(user_id, event) is PeerLeft
            &&& said_to_client(user_id, event)->PeerLeft_id == event->PeerLeft_id
        },
        event is OnNewProducer ==> {
            &&& is_for_client(user_id, event)
            &&& said_to_client(user_id, event) is OnNewProducer
            &&& said_to_client(user_id, event)->OnNewProducer_id == event->OnNewProducer_id
        },
        event is IceRestarted ==> {
            &&& is_for_client(user_id, event)
            &&& said_to_client(user_id, event) is IceRestarted
            &&& said_to_client(user_id, event)->IceRestarted_ice_params
                == event->IceRestarted_ice_params
        },
{
}

/// The client hears of a pause as a pause and of a resume as a resume, of the very consumer.
pub proof fn law_pauses_and_resumes_reach_the_client(user_id: Uid, event: PeerEvent)
    ensures
        event is OnProducerPause ==> {
            &&& is_for_client(user_id, event)
            &&& said_to_client(user_id, event) is ConsumerPaused
            &&& said_to_client(user_id, event)->ConsumerPaused_consumer_id
                == event->OnProducerPause_consumer_id
        },
        event is OnProducerResume ==> {
            &&& is_for_client(user_id, event)
            &&& said_to_client(user_id, event) is ConsumerResumed
            &&& said_to_client(user_id, event)->ConsumerResumed_consumer_id
                == event->OnProducerResume_consumer_id
        },
{
}

/// Of a closed producer the room hears first and the client then, both of the very consumer,
/// and the client of whose producer it was. Of a closed transport only the room hears.
pub proof fn law_closed_sources_are_reported(user_id: Uid, event: PeerEvent)
    ensures
        event is OnProducerClose ==> {
            let relays = relays_of(user_id, event);
            &&& relays.len() == 2
            &&& relays[0] is ToRoom
            &&& relays[0]->ToRoom_0 is OnProducerClose
            &&& relays[0]->ToRoom_0->OnProducerClose_consumer_peer_id == user_id
            &&& relays[0]->ToRoom_0->OnProducerClose_consumer_id
                == event->OnProducerClose_consumer_id
            &&& relays[1] is ToClient
            &&& relays[1]->ToClient_0 is ConsumerClosed
            &&& relays[1]->ToClient_0->ConsumerClosed_consumer_id
                == event->OnProducerClose_consumer_id
            &&& relays[1]->ToClient_0->ConsumerClosed_producer_peer_id
                == event->OnProducerClose_producer_peer_id
        },
        event is OnConsumerTransportClose ==> {
            let relays = relays_of(user_id, event);
            &&& relays.len() == 1
            &&& relays[0] is ToRoom
            &&& relays[0]->ToRoom_0 is OnConsumerTransportClose
            &&& relays[0]->ToRoom_0->OnConsumerTransportClose_user_id == user_id
            &&& relays[0]->ToRoom_0->OnConsumerTransportClose_consumer_id
                == event->OnConsumerTransportClose_consumer_id
        },
{
}

/// A client is hung up on when it was denied entry, and when it has closed the connection, which
/// alone is told to the room, after the hanging up; and at no other time.
pub proof fn law_when_a_client_is_hung_up_on(user_id: Uid, event: PeerEvent)
    ensures
        relays_of(user_id, event).contains(Relay::HangUp) <==> event is Denied || event is Close,
        event is Denied ==> relays_of(user_id, event).len() == 1,
        event is Close ==> {
            let relays = relays_of(user_id, event);
            &&& relays.len() == 2
            &&& relays[0] is HangUp
            &&& relays[1] is ToRoom
            &&& relays[1]->ToRoom_0 is Leave
            &&& relays[1]->ToRoom_0->Leave_user_id == user_id
        },
{
    let relays = relays_of(user_id, event);
    if event is Denied || event is Close {
        assert(relays.contains(relays[0]));
    }
}

/// What a client sends is asked of the room once, in the client's name, as the request that it
/// is and with every field as it was sent.
pub proof fn law_requests_reach_the_room(user_id: Uid, msg: Client2Server)
    ensures
        relays_of(user_id, PeerEvent::Rcvd(msg)).len() == 1,
        relays_of(user_id, PeerEvent::Rcvd(msg))[0] is ToRoom,
        ({
            let said = relays_of(user_id, PeerEvent::Rcvd(msg))[0]->ToRoom_0;
            &&& said == request_of(user_id, msg)
            &&& msg is CreateRtcTransport ==> {
                &&& said is CreateRtcTransport
                &&& said->CreateRtcTransport_user_id == user_id
                &&& said->CreateRtcTransport_tag == msg->CreateRtcTransport_tag
                &&& said->CreateRtcTransport_force_tcp == msg->CreateRtcTransport_force_tcp
                &&& said->CreateRtcTransport_produce == msg->CreateRtcTransport_produce
                &&& said->CreateRtcTransport_consume == msg->CreateRtcTransport_consume
            }
            &&& msg is ConnectRtcTransport ==> {
                &&& said is ConnectRtcTransport
                &&& said->ConnectRtcTransport_user_id == user_id
                &&& said->ConnectRtcTransport_transport_id == msg->ConnectRtcTransport_id
                &&& said->ConnectRtcTransport_dtls_params == msg->ConnectRtcTransport_dtls_params
            }
            &&& msg is RestartIce ==> {
                &&& said is RestartIce
                &&& said->RestartIce_user_id == user_id
                &&& said->RestartIce_transport_id == msg->RestartIce_transport_id
            }
            &&& msg is Join ==> {
                &&& said is Join
                &&& said->Join_user_id == user_id
                &&& said->Join_rtp_caps == msg->Join_rtp_caps
            }
            &&& msg is Produce ==> {
                &&& said is Produce
                &&& said->Produce_user_id == user_id
                &&& said->Produce_transport_id == msg->Produce_transport_id
                &&& said->Produce_kind == msg->Produce_kind
                &&& said->Produce_rtp_params == msg->Produce_rtp_params
                &&& said->Produce_is_share == msg->Produce_is_share
            }
            &&& msg is CloseProducer ==> {
                &&& said is CloseProducer
                &&& said->CloseProducer_producer_peer_id == user_id
                &&& said->CloseProducer_id == msg->CloseProducer_id
            }
            &&& msg is PauseProducer ==> {
                &&& said is PauseProducer
                &&& said->PauseProducer_producer_peer_id == user_id
                &&& said->PauseProducer_id == msg->PauseProducer_id
            }
            &&& msg is ResumeProducer ==> {
                &&& said is ResumeProducer
                &&& said->ResumeProducer_producer_peer_id == user_id
                &&& said->ResumeProducer_id == msg->ResumeProducer_id
            }
        }),
{
}

/// Nothing is lost on the way through a peer: from what it does one can tell which event it was.
pub proof fn law_relaying_loses_nothing(user_id: Uid, a: PeerEvent, b: PeerEvent)
    requires
        relays_of(user_id, a) == relays_of(user_id, b),
    ensures
        a == b,
{
    let r = relays_of(user_id, a);
    let s = relays_of(user_id, b);
    assert(r.len() == s.len() && r[0] == s[0] && r[r.len() - 1] == s[s.len() - 1]);
}

/// A signal of the media layer comes to the consumer's owner as what it is, of the very
/// consumer, and a closed producer with the name of whose it was.
pub proof fn law_signals_come_as_what_they_are(
    signal: ConsumerSignal,
    consumer_id: ConsumerId,
    producer_peer_id: Uid,
)
    ensures
        signal is TransportClose ==> {
            let event = event_of(signal, consumer_id, producer_peer_id);
            &&& event is OnConsumerTransportClose
            &&& event->OnConsumerTransportClose_consumer_id == consumer_id
        },
        signal is ProducerClose ==> {
            let event = event_of(signal, consumer_id, producer_peer_id);
            &&& event is OnProducerClose
            &&& event->OnProducerClose_consumer_id == consumer_id
            &&& event->OnProducerClose_producer_peer_id == producer_peer_id
        },
        signal is ProducerPause ==> {
            let event = event_of(signal, consumer_id, producer_peer_id);
            &&& event is OnProducerPause
            &&& event->OnProducerPause_consumer_id == consumer_id
        },
        signal is ProducerResume ==> {
            let event = event_of(signal, consumer_id, producer_peer_id);
            &&& event is OnProducerResume
            &&& event->OnProducerResume_consumer_id == consumer_id
        },
{
}

/// `react` does what these laws speak of, and it is a peer's last reaction exactly when the
/// client is hung up on.
pub proof fn law_reactions_are_relays(user_id: Uid, event: PeerEvent, r: Reaction)
    requires
        call_ensures(react, (user_id, event), r),
    ensures
        r.relays@ == relays_of(user_id, event),
        r.done <==> r.relays@.contains(Relay::HangUp),
{
    law_when_a_client_is_hung_up_on(user_id, event);
}

/// `request` asks what these laws speak of.
pub proof fn law_requests_are_what_is_asked(user_id: Uid, msg: Client2Server, r: Event)
    requires
        call_ensures(request, (user_id, msg), r),
    ensures
        relays_of(user_id, PeerEvent::Rcvd(msg)) == seq![Relay::ToRoom(r)],
{
}

/// `signalled` gives the event that these laws speak of.
pub proof fn law_signals_are_passed_on(
    signal: ConsumerSignal,
    consumer_id: ConsumerId,
    producer_peer_id: Uid,
    r: PeerEvent,
)
    requires
        call_ensures(signalled, (signal, consumer_id, producer_peer_id), r),
    ensures
        r == event_of(signal, consumer_id, producer_peer_id),
{
}

/// A text that spells a message comes in as that message, a close as a close, and everything
/// else is passed over. Reading stops after a close and at no other time.
pub proof fn law_frames_come_in_as_what_they_are(frame: Frame, r: Received)
    requires
        call_ensures(receive, (frame,), r),
    ensures
        r.done <==> frame is Close,
        r.event is None <==> frame is Other || frame == Frame::Text(None),
        frame matches Frame::Text(Some(msg)) ==> r.event == Some(PeerEvent::Rcvd(msg)),
        r.event == Some(PeerEvent::Close) <==> frame is Close,
{
}

/// What a client writes is what the room is asked: the way from the socket to the room's channel
/// changes nothing.
pub proof fn law_what_is_written_is_asked(
    user_id: Uid,
    msg: Client2Server,
    received: Received,
    reaction: Reaction,
)
    requires
        call_ensures(receive, (Frame::Text(Some(msg)),), received),
        received.event is Some,
        call_ensures(react, (user_id, received.event->0), reaction),
    ensures
        reaction.relays@.len() == 1,
        reaction.relays@[0] == Relay::ToRoom(request_of(user_id, msg)),
        !reaction.done,
{
}

/// A peer knocks under its own name and brings its own channel.
pub proof fn law_peers_knock_for_themselves(user_id: Uid, tx: PeerTx, r: Event)
    requires
        call_ensures(knock, (user_id, tx), r),
    ensures
        r is KnockKnock,
        r->KnockKnock_user_id == user_id,
        r->KnockKnock_tx == tx,
{
}

/// A new peer has its channel and nothing else.
pub proof fn law_a_new_peer_has_nothing(tx: PeerTx, peer: Peer)
    requires
        call_ensures(Peer::new, (tx,), peer),
    ensures
        peer.tx == tx,
        !peer.joined,
        peer.rtp_caps is None,
        forall|id: u128| !(#[trigger] peer.transports@.contains_key(id)),
        forall|id: u128| !(#[trigger] peer.producers@.contains_key(id)),
        forall|id: u128| !(#[trigger] peer.consumers@.contains(id)),
{
    assert(peer@.tx == peer.tx);
}

/// What the media layer has made is what the client hears of: the consumer's own kind,
/// parameters, type and state, of the very producer that was offered.
pub proof fn law_clients_hear_what_was_made(
    pre: RoomView,
    offer: Offer,
    consumer: NewConsumer,
    post: RoomView,
    actions: Seq<Action>,
)
    requires
        moved(pre, Input::Consumed { offer, consumer: Some(consumer) }, post, actions),
        pre.peers.contains_key(offer.consumer_peer_id.0),
        pre.peers[offer.consumer_peer_id.0].rtp_caps is Some,
    ensures
        actions[1] is Send,
        ({
            let event = actions[1]->Send_event;
            let said = said_to_client(offer.consumer_peer_id, event);
            &&& is_for_client(offer.consumer_peer_id, event)
            &&& said is OnNewConsumer
            &&& said->OnNewConsumer_producer_peer_id == offer.producer_peer_id
            &&& said->OnNewConsumer_producer_id == offer.producer_id
            &&& said->OnNewConsumer_is_share == offer.is_share
            &&& said->OnNewConsumer_consumer_id == consumer.id
            &&& said->OnNewConsumer_kind == consumer.kind
            &&& said->OnNewConsumer_rtp_params == consumer.rtp_params
            &&& said->OnNewConsumer_consumer_type == consumer.consumer_type
            &&& said->OnNewConsumer_producer_paused == consumer.producer_paused
        }),
{
}

} // verus!
