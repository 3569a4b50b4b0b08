//! What a room does on each thing that happens, as those in it see it: who is told what, what
//! is asked of the media layer and with which parameters, and what the room remembers. Each law
//! speaks of the peers' table, the input and the actions alone. The last ones say that the
//! room's code keeps to the rules that these laws are proved of.

use crate::listing::lists;
use crate::media::{
    ConsumerId, DtlsParameters, IceParameters, MediaKind, NewConsumer, NewTransport, ProducerId,
    RtpCapabilities, RtpCapabilitiesFinalized, RtpParameters, TransportId,
};
use crate::peer::{request_of, Client2Server, PeerEvent, PeerTx};
use crate::room::{Action, Event, Offer, Room, Step};
use crate::rules::{
    closing, consumes, handled, join_plan, leave_plan, moved, produce_plan, Input, RoomView,
};
use crate::uid::Uid;
use vstd::prelude::*;

verus! {

/// Nothing changed and nothing is to be done.
pub open spec fn idle(pre: RoomView, post: RoomView, actions: Seq<Action>) -> bool {
    post == pre && actions.len() == 0
}

/// `post` has a peer of `user_id`'s, and is like `pre` everywhere else.
pub open spec fn touched_only(pre: RoomView, user_id: Uid, post: RoomView) -> bool {
    &&& post.id == pre.id
    &&& post.rtp_caps == pre.rtp_caps
    &&& post.peers.contains_key(user_id.0)
    &&& forall|other: u64|
        other != user_id.0 ==> {
            &&& #[trigger] post.peers.contains_key(other) <==> pre.peers.contains_key(other)
            &&& pre.peers.contains_key(other) ==> post.peers[other] == pre.peers[other]
        }
}

/// No two peers hear on one channel.
pub open spec fn channels_differ(room: RoomView) -> bool {
    forall|a: u64, b: u64|
        #![trigger room.peers[a], room.peers[b]]
        room.peers.contains_key(a) && room.peers.contains_key(b) && room.peers[a].tx
            == room.peers[b].tx ==> a == b
}

/// Whoever knocks is answered on the channel that it brings. Under a name that is in the room
/// it is turned away, and that is all. Under a new name it is told the room's own identifier
/// and what the router can route, and enters with nothing to its name but its channel.
pub proof fn law_a_knock_is_answered(
    pre: RoomView,
    user_id: Uid,
    tx: PeerTx,
    post: RoomView,
    actions: Seq<Action>,
)
    requires
        handled(pre, Event::KnockKnock { user_id, tx }, post, actions),
    ensures
        pre.peers.contains_key(user_id.0) ==> {
            &&& post == pre
            &&& actions.len() == 2
            &&& actions[0] == (Action::Send { tx, event: PeerEvent::Denied })
            &&& actions[1] == (Action::Forget { tx })
        },
        !pre.peers.contains_key(user_id.0) ==> {
            let peer = post.peers[user_id.0];
            &&& touched_only(pre, user_id, post)
            &&& peer.tx == tx
            &&& !peer.joined
            &&& peer.rtp_caps is None
            &&& forall|id: u128| !(#[trigger] peer.transports.contains_key(id))
            &&& forall|id: u128| !(#[trigger] peer.producers.contains_key(id))
            &&& forall|id: u128| !(#[trigger] peer.consumers.contains(id))
            &&& actions.len() == 1
            &&& actions[0] matches Action::Send {
                tx: to,
                event: PeerEvent::Welcome { room_id, rtp_caps },
            } && to == tx && room_id == pre.id && rtp_caps == pre.rtp_caps
        },
{
}

/// The three parts of a first join's actions, item by item.
proof fn lemma_join_shape(
    pre: RoomView,
    user_id: Uid,
    rtp_caps: Option<RtpCapabilities>,
    post: RoomView,
    actions: Seq<Action>,
) -> (r: (Vec<Uid>, Seq<Offer>, Seq<Uid>))
    requires
        handled(pre, Event::Join { user_id, rtp_caps }, post, actions),
        pre.peers.contains_key(user_id.0),
        !pre.peers[user_id.0].joined,
    ensures
        join_plan(pre, user_id, rtp_caps, post, r.0, r.1, r.2, actions),
        rtp_caps is None ==> r.1.len() == 0,
        actions.len() == 1 + r.1.len() + r.2.len(),
        actions[0] == (Action::Send {
            tx: pre.peers[user_id.0].tx,
            event: PeerEvent::OnJoin { others: r.0 },
        }),
        forall|i: int|
            1 <= i < 1 + r.1.len() ==> #[trigger] actions[i] == (Action::CanConsume {
                offer: r.1[i - 1],
                rtp_caps: rtp_caps->0,
            }),
        forall|i: int|
            1 + r.1.len() <= i < actions.len() ==> #[trigger] actions[i] == (Action::Send {
                tx: pre.peers[r.2[i - 1 - r.1.len()].0].tx,
                event: PeerEvent::NewPeerJoined { user_id },
            }),
{
    let (who, offers, told) = choose|who: Vec<Uid>, offers: Seq<Offer>, told: Seq<Uid>|
        join_plan(pre, user_id, rtp_caps, post, who, offers, told, actions);
    assert forall|i: int| 0 <= i < offers.len() implies #[trigger] offers[i].consumer_peer_id
        == user_id && rtp_caps is Some by {
        assert(offers.contains(offers[i]));
    }
    if offers.len() > 0 {
        assert(offers[0].consumer_peer_id == user_id);
    }
    (who, offers, told)
}

/// The first thing that a newcomer to the conversation hears, on its own channel, is who else
/// is in the room: everyone, joined or not, each once, and nobody else.
pub proof fn law_a_newcomer_learns_who_is_there(
    pre: RoomView,
    user_id: Uid,
    rtp_caps: Option<RtpCapabilities>,
    post: RoomView,
    actions: Seq<Action>,
)
    requires
        handled(pre, Event::Join { user_id, rtp_caps }, post, actions),
        pre.peers.contains_key(user_id.0),
        !pre.peers[user_id.0].joined,
    ensures
        actions.len() > 0,
        actions[0] matches Action::Send { tx, event: PeerEvent::OnJoin { others } } && {
            &&& tx == pre.peers[user_id.0].tx
            &&& others@.no_duplicates()
            &&& forall|u: Uid| #[trigger]
                others@.contains(u) <==> pre.peers.contains_key(u.0) && u != user_id
        },
{
    let (who, offers, told) = lemma_join_shape(pre, user_id, rtp_caps, post, actions);
    assert forall|u: Uid| #[trigger] who@.contains(u) <==> pre.peers.contains_key(u.0) && u
        != user_id by {
        assert(who@.contains(u) <==> pre.others(user_id).contains(u));
    }
}

/// Joining is remembered with the capabilities that came with it, and changes nothing else.
/// Who has joined, or is not in the room, changes nothing by joining and hears nothing.
pub proof fn law_joining_is_remembered(
    pre: RoomView,
    user_id: Uid,
    rtp_caps: Option<RtpCapabilities>,
    post: RoomView,
    actions: Seq<Action>,
)
    requires
        handled(pre, Event::Join { user_id, rtp_caps }, post, actions),
    ensures
        pre.peers.contains_key(user_id.0) && !pre.peers[user_id.0].joined ==> {
            let was = pre.peers[user_id.0];
            let is = post.peers[user_id.0];
            &&& touched_only(pre, user_id, post)
            &&& is.joined
            &&& is.rtp_caps == rtp_caps
            &&& is.tx == was.tx
            &&& is.transports == was.transports
            &&& is.producers == was.producers
            &&& is.consumers == was.consumers
        },
        !(pre.peers.contains_key(user_id.0) && !pre.peers[user_id.0].joined) ==> idle(
            pre,
            post,
            actions,
        ),
{
}

/// Right after the roll call the router is asked about what is in the room: about every
/// producer of everyone else, once, with the newcomer's own capabilities, one peer's producers
/// side by side; about nothing, where the newcomer has no capabilities.
#[verifier::rlimit(60)]
pub proof fn law_a_newcomer_is_offered_what_there_is(
    pre: RoomView,
    user_id: Uid,
    rtp_caps: Option<RtpCapabilities>,
    post: RoomView,
    actions: Seq<Action>,
)
    requires
        handled(pre, Event::Join { user_id, rtp_caps }, post, actions),
        pre.peers.contains_key(user_id.0),
        !pre.peers[user_id.0].joined,
    ensures
        forall|i: int|
            0 <= i < actions.len() ==> (#[trigger] actions[i] matches Action::CanConsume {
                offer,
                rtp_caps: asked,
            } ==> {
                &&& rtp_caps == Some(asked)
                &&& offer.consumer_peer_id == user_id
                &&& offer.producer_peer_id != user_id
                &&& pre.peers.contains_key(offer.producer_peer_id.0)
                &&& pre.peers[offer.producer_peer_id.0].producers.contains_key(offer.producer_id.0)
                &&& offer.is_share
                    == pre.peers[offer.producer_peer_id.0].producers[offer.producer_id.0].is_share
            }),
        forall|other: Uid, id: ProducerId|
            {
                &&& rtp_caps is Some
                &&& other != user_id
                &&& pre.peers.contains_key(other.0)
                &&& #[trigger] pre.peers[other.0].producers.contains_key(id.0)
            } ==> actions.contains(
                Action::CanConsume {
                    offer: Offer {
                        consumer_peer_id: user_id,
                        producer_peer_id: other,
                        producer_id: id,
                        is_share: pre.peers[other.0].producers[id.0].is_share,
                    },
                    rtp_caps: rtp_caps->0,
                },
            ),
        forall|i: int, j: int|
            0 <= i < j < actions.len() && #[trigger] actions[i] is CanConsume
                && #[trigger] actions[j] is CanConsume ==> actions[i]->CanConsume_offer
                != actions[j]->CanConsume_offer,
        forall|i: int, j: int|
            0 < i < j < actions.len() && #[trigger] actions[j] is CanConsume
                ==> #[trigger] actions[i] is CanConsume,
        forall|i: int, j: int, k: int|
            #![trigger actions[i], actions[j], actions[k]]
            0 < i <= j <= k < actions.len() && actions[k] is CanConsume
                && actions[i]->CanConsume_offer.producer_peer_id
                == actions[k]->CanConsume_offer.producer_peer_id
                ==> actions[j]->CanConsume_offer.producer_peer_id
                == actions[i]->CanConsume_offer.producer_peer_id,
{
    let (who, offers, told) = lemma_join_shape(pre, user_id, rtp_caps, post, actions);
    assert forall|i: int| 1 <= i < 1 + offers.len() implies {
        let o = #[trigger] offers[i - 1];
        &&& pre.offers_to(user_id).contains(o)
        &&& pre.others(user_id).contains(o.producer_peer_id)
    } by {
        assert(offers.contains(offers[i - 1]));
    }
    assert forall|i: int|
        0 <= i < actions.len() && #[trigger] actions[i] is CanConsume implies 1 <= i
        < 1 + offers.len() && pre.offers_to(user_id).contains(actions[i]->CanConsume_offer) by {
        assert(offers.contains(offers[i - 1]));
    }
    assert forall|other: Uid, id: ProducerId|
        {
            &&& rtp_caps is Some
            &&& other != user_id
            &&& pre.peers.contains_key(other.0)
            &&& #[trigger] pre.peers[other.0].producers.contains_key(id.0)
        } implies actions.contains(
        Action::CanConsume {
            offer: Offer {
                consumer_peer_id: user_id,
                producer_peer_id: other,
                producer_id: id,
                is_share: pre.peers[other.0].producers[id.0].is_share,
            },
            rtp_caps: rtp_caps->0,
        },
    ) by {
        let o = Offer {
            consumer_peer_id: user_id,
            producer_peer_id: other,
            producer_id: id,
            is_share: pre.peers[other.0].producers[id.0].is_share,
        };
        assert(pre.others(user_id).contains(other));
        assert(pre.offers_to(user_id).contains(o));
        assert(offers.contains(o));
        let i = choose|i: int| 0 <= i < offers.len() && offers[i] == o;
        assert(actions[i + 1] == (Action::CanConsume { offer: o, rtp_caps: rtp_caps->0 }));
    }
    assert forall|i: int, j: int, k: int|
        #![trigger actions[i], actions[j], actions[k]]
        0 < i <= j <= k < actions.len() && actions[k] is CanConsume
            && actions[i]->CanConsume_offer.producer_peer_id
            == actions[k]->CanConsume_offer.producer_peer_id implies
        actions[j]->CanConsume_offer.producer_peer_id
        == actions[i]->CanConsume_offer.producer_peer_id by {
        assert(offers[i - 1].producer_peer_id == offers[k - 1].producer_peer_id);
        assert(offers[j - 1].producer_peer_id == offers[i - 1].producer_peer_id);
    }
}

/// The last things that a join brings are the news to the others. Everyone else is told who has
/// joined, once where no two hear on one channel, and nothing else is said to anyone.
#[verifier::rlimit(60)]
pub proof fn law_the_others_hear_of_a_join(
    pre: RoomView,
    user_id: Uid,
    rtp_caps: Option<RtpCapabilities>,
    post: RoomView,
    actions: Seq<Action>,
)
    requires
        handled(pre, Event::Join { user_id, rtp_caps }, post, actions),
        pre.peers.contains_key(user_id.0),
        !pre.peers[user_id.0].joined,
    ensures
        forall|i: int|
            0 < i < actions.len() && !(#[trigger] actions[i] is CanConsume) ==> {
                &&& actions[i] is Send
                &&& actions[i]->Send_event == (PeerEvent::NewPeerJoined { user_id })
                &&& exists|other: Uid|
                    other != user_id && #[trigger] pre.peers.contains_key(other.0)
                        && pre.peers[other.0].tx == actions[i]->Send_tx
            },
        forall|other: Uid|
            other != user_id && #[trigger] pre.peers.contains_key(other.0) ==> actions.contains(
                Action::Send {
                    tx: pre.peers[other.0].tx,
                    event: PeerEvent::NewPeerJoined { user_id },
                },
            ),
        channels_differ(pre) ==> actions.no_duplicates(),
{
    let (who, offers, told) = lemma_join_shape(pre, user_id, rtp_caps, post, actions);
    let n = 1 + offers.len();
    assert forall|i: int| n <= i < actions.len() implies pre.others(user_id).contains(
        #[trigger] told[i - n],
    ) by {
        assert(told.contains(told[i - n]));
    }
    assert forall|i: int| 0 < i < actions.len() && !(#[trigger] actions[i] is CanConsume) implies {
        &&& actions[i] is Send
        &&& actions[i]->Send_event == (PeerEvent::NewPeerJoined { user_id })
        &&& exists|other: Uid|
            other != user_id && #[trigger] pre.peers.contains_key(other.0)
                && pre.peers[other.0].tx == actions[i]->Send_tx
    } by {
        let other = told[i - n];
        assert(pre.others(user_id).contains(other));
        assert(pre.peers.contains_key(other.0));
    }
    assert forall|other: Uid|
        other != user_id && #[trigger] pre.peers.contains_key(other.0) implies actions.contains(
        Action::Send {
            tx: pre.peers[other.0].tx,
            event: PeerEvent::NewPeerJoined { user_id },
        },
    ) by {
        assert(pre.others(user_id).contains(other));
        assert(told.contains(other));
        let j = choose|j: int| 0 <= j < told.len() && told[j] == other;
        assert(actions[n + j] == (Action::Send {
            tx: pre.peers[other.0].tx,
            event: PeerEvent::NewPeerJoined { user_id },
        }));
    }
    if channels_differ(pre) {
        assert forall|i: int, j: int| 0 <= i < j < actions.len() implies actions[i]
            != actions[j] by {
            if i >= n {
                assert(told[i - n] != told[j - n]);
                assert(pre.others(user_id).contains(told[i - n]));
                assert(pre.others(user_id).contains(told[j - n]));
            } else if 0 < i && j < n {
                assert(offers[i - 1] != offers[j - 1]);
            }
        }
    }
}

/// A wish to send media is passed on as it was made: on the transport, of the kind, with the
/// parameters and as the share or camera that the peer named. It takes having joined and having
/// the transport; otherwise nothing is asked. The room changes only once there is a producer.
pub proof fn law_a_wish_to_produce_is_passed_on(
    pre: RoomView,
    user_id: Uid,
    transport_id: TransportId,
    kind: MediaKind,
    rtp_params: RtpParameters,
    is_share: bool,
    post: RoomView,
    actions: Seq<Action>,
)
    requires
        handled(
            pre,
            Event::Produce { user_id, transport_id, kind, rtp_params, is_share },
            post,
            actions,
        ),
    ensures
        post == pre,
        actions.len() == 1 <==> pre.peers.contains_key(user_id.0) && pre.peers[user_id.0].joined
            && pre.peers[user_id.0].transports.contains_key(transport_id.0),
        actions.len() <= 1,
        actions.len() == 1 ==> (actions[0] matches Action::Produce {
            user_id: owner,
            transport_id: on,
            options,
            is_share: share,
        } && {
            &&& owner == user_id
            &&& on == transport_id
            &&& options.kind == kind
            &&& options.rtp_parameters == rtp_params
            &&& share == is_share
        }),
{
}

/// A producer that was made for a peer of the conversation is entered under its own identifier,
/// as the share or camera that it is, beside those that the peer had.
pub proof fn law_a_new_producer_is_entered(
    pre: RoomView,
    user_id: Uid,
    is_share: bool,
    id: ProducerId,
    post: RoomView,
    actions: Seq<Action>,
)
    requires
        moved(pre, Input::Produced { user_id, is_share, producer: Some(id) }, post, actions),
        pre.peers.contains_key(user_id.0),
        pre.peers[user_id.0].joined,
    ensures
        touched_only(pre, user_id, post),
        post.peers[user_id.0].producers.contains_key(id.0),
        post.peers[user_id.0].producers[id.0].is_share == is_share,
        forall|other: u128|
            other != id.0 ==> {
                &&& #[trigger] post.peers[user_id.0].producers.contains_key(other)
                    <==> pre.peers[user_id.0].producers.contains_key(other)
                &&& pre.peers[user_id.0].producers.contains_key(other)
                    ==> post.peers[user_id.0].producers[other]
                    == pre.peers[user_id.0].producers[other]
            },
        post.peers[user_id.0].tx == pre.peers[user_id.0].tx,
        post.peers[user_id.0].joined,
        post.peers[user_id.0].rtp_caps == pre.peers[user_id.0].rtp_caps,
        post.peers[user_id.0].transports == pre.peers[user_id.0].transports,
        post.peers[user_id.0].consumers == pre.peers[user_id.0].consumers,
{
}

/// The owner of a new producer is told its identifier first. Then the router is asked, once for
/// each of the others who can receive, whether that one can consume the producer with its own
/// capabilities. Nothing else is done.
pub proof fn law_a_new_producer_is_offered(
    pre: RoomView,
    user_id: Uid,
    is_share: bool,
    id: ProducerId,
    post: RoomView,
    actions: Seq<Action>,
)
    requires
        moved(pre, Input::Produced { user_id, is_share, producer: Some(id) }, post, actions),
        pre.peers.contains_key(user_id.0),
        pre.peers[user_id.0].joined,
    ensures
        actions.len() > 0,
        actions[0] == (Action::Send {
            tx: pre.peers[user_id.0].tx,
            event: PeerEvent::OnNewProducer { id },
        }),
        forall|i: int|
            0 < i < actions.len() ==> (#[trigger] actions[i] matches Action::CanConsume {
                offer,
                rtp_caps,
            } && {
                &&& offer.producer_peer_id == user_id
                &&& offer.producer_id == id
                &&& offer.is_share == is_share
                &&& offer.consumer_peer_id != user_id
                &&& pre.peers.contains_key(offer.consumer_peer_id.0)
                &&& pre.peers[offer.consumer_peer_id.0].rtp_caps == Some(rtp_caps)
            }),
        forall|other: Uid|
            other != user_id && #[trigger] pre.peers.contains_key(other.0)
                && pre.peers[other.0].rtp_caps is Some ==> actions.contains(
                Action::CanConsume {
                    offer: Offer {
                        consumer_peer_id: other,
                        producer_peer_id: user_id,
                        producer_id: id,
                        is_share,
                    },
                    rtp_caps: pre.peers[other.0].rtp_caps->0,
                },
            ),
        actions.no_duplicates(),
{
    let offers = choose|offers: Seq<Offer>|
        produce_plan(pre, user_id, id, is_share, offers, actions);
    assert forall|i: int| 0 < i < actions.len() implies {
        let o = offers[i - 1];
        &&& #[trigger] actions[i] == (Action::CanConsume {
            offer: o,
            rtp_caps: pre.peers[o.consumer_peer_id.0].rtp_caps->0,
        })
        &&& pre.offers_of(user_id, id, is_share).contains(o)
        &&& pre.others(user_id).contains(o.consumer_peer_id)
    } by {
        assert(offers.contains(offers[i - 1]));
    }
    assert forall|other: Uid|
        other != user_id && #[trigger] pre.peers.contains_key(other.0)
            && pre.peers[other.0].rtp_caps is Some implies actions.contains(
        Action::CanConsume {
            offer: Offer {
                consumer_peer_id: other,
                producer_peer_id: user_id,
                producer_id: id,
                is_share,
            },
            rtp_caps: pre.peers[other.0].rtp_caps->0,
        },
    ) by {
        let o = Offer {
            consumer_peer_id: other,
            producer_peer_id: user_id,
            producer_id: id,
            is_share,
        };
        assert(pre.others(user_id).contains(other));
        assert(pre.offers_of(user_id, id, is_share).contains(o));
        assert(offers.contains(o));
        let j = choose|j: int| 0 <= j < offers.len() && offers[j] == o;
        assert(actions[j + 1] is CanConsume);
    }
    assert forall|i: int, j: int| 0 <= i < j < actions.len() implies actions[i] != actions[j] by {
        if i > 0 {
            assert(offers[i - 1] != offers[j - 1]);
        }
    }
}

/// A producer that could not be made changes nothing. One that was made for someone who is not
/// in the conversation is closed, and that is all.
pub proof fn law_a_stray_producer_is_closed(
    pre: RoomView,
    user_id: Uid,
    is_share: bool,
    producer: Option<ProducerId>,
    post: RoomView,
    actions: Seq<Action>,
)
    requires
        moved(pre, Input::Produced { user_id, is_share, producer }, post, actions),
    ensures
        producer is None ==> idle(pre, post, actions),
        producer is Some && !(pre.peers.contains_key(user_id.0) && pre.peers[user_id.0].joined)
            ==> {
            &&& post == pre
            &&& actions.len() == 1
            &&& actions[0] == (Action::CloseProducer { id: producer->0 })
        },
{
}

/// Where the router allows an offer, and the peer has capabilities and a transport to consume
/// on, one consumer is asked for: of the offered producer, on one of those transports, with the
/// peer's own capabilities, paused at first and with retransmissions. Otherwise none is.
pub proof fn law_an_allowed_offer_is_taken_up(
    pre: RoomView,
    offer: Offer,
    can_consume: bool,
    post: RoomView,
    actions: Seq<Action>,
)
    requires
        moved(pre, Input::CanConsume { offer, can_consume }, post, actions),
    ensures
        post == pre,
        actions.len() <= 1,
        actions.len() == 1 <==> {
            &&& can_consume
            &&& pre.peers.contains_key(offer.consumer_peer_id.0)
            &&& pre.peers[offer.consumer_peer_id.0].rtp_caps is Some
            &&& exists|t: u128|
                pre.peers[offer.consumer_peer_id.0].transports.contains_key(t)
                    && #[trigger] pre.peers[offer.consumer_peer_id.0].transports[t].consume
        },
        actions.len() == 1 ==> (actions[0] matches Action::Consume {
            offer: o,
            transport_id,
            options,
        } && {
            let peer = pre.peers[offer.consumer_peer_id.0];
            &&& o == offer
            &&& peer.transports.contains_key(transport_id.0)
            &&& peer.transports[transport_id.0].consume
            &&& options.producer_id == offer.producer_id
            &&& Some(options.rtp_capabilities) == peer.rtp_caps
            &&& options.paused
            &&& options.enable_rtx == Some(true)
        }),
{
    let peer = pre.peers[offer.consumer_peer_id.0];
    assert forall|t: u128| peer.transports.contains_key(t) && #[trigger] peer.transports[t].consume
        implies consumes(peer, t) by {
    }
    if actions.len() == 1 {
        let t = actions[0]->Consume_transport_id.0;
        assert(consumes(peer, t));
        assert(peer.transports[t].consume);
    }
}

/// A consumer that was made for an offer is kept for the peer that it was made for, beside those
/// that the peer had. First its signals are passed on to that peer, on the peer's own channel
/// and in the name of the producing peer, whatever was offered; then the peer is told of it,
/// with what the offer says of the producer and what the media layer says of the consumer.
pub proof fn law_a_new_consumer_is_watched_and_announced(
    pre: RoomView,
    offer: Offer,
    consumer: NewConsumer,
    post: RoomView,
    actions: Seq<Action>,
)
    requires
        moved(pre, Input::Consumed { offer, consumer: Some(consumer) }, post, actions),
        pre.peers.contains_key(offer.consumer_peer_id.0),
        pre.peers[offer.consumer_peer_id.0].rtp_caps is Some,
    ensures
        actions.len() == 2,
        actions[0] matches Action::WatchConsumer { consumer_id, tx, producer_peer_id } && {
            &&& consumer_id == consumer.id
            &&& tx == pre.peers[offer.consumer_peer_id.0].tx
            &&& producer_peer_id == offer.producer_peer_id
        },
        actions[1] is Send,
        actions[1]->Send_tx == pre.peers[offer.consumer_peer_id.0].tx,
        actions[1]->Send_event matches PeerEvent::OnNewConsumer {
            producer_peer_id,
            producer_id,
            consumer_id,
            kind,
            rtp_params,
            consumer_type,
            producer_paused,
            is_share,
        } && {
            &&& producer_peer_id == offer.producer_peer_id
            &&& producer_id == offer.producer_id
            &&& consumer_id == consumer.id
            &&& kind == consumer.kind
            &&& rtp_params == consumer.rtp_params
            &&& consumer_type == consumer.consumer_type
            &&& producer_paused == consumer.producer_paused
            &&& is_share == offer.is_share
        },
        touched_only(pre, offer.consumer_peer_id, post),
        ({
            let was = pre.peers[offer.consumer_peer_id.0];
            let is = post.peers[offer.consumer_peer_id.0];
            &&& forall|id: u128| #[trigger]
                is.consumers.contains(id) <==> was.consumers.contains(id) || id == consumer.id.0
            &&& is.tx == was.tx
            &&& is.joined == was.joined
            &&& is.rtp_caps == was.rtp_caps
            &&& is.transports == was.transports
            &&& is.producers == was.producers
        }),
{
}

/// Whenever a peer comes to hold a consumer, by whatever input, the consumer's signals are
/// passed on to it.
pub proof fn law_every_consumer_is_watched(
    pre: RoomView,
    input: Input,
    post: RoomView,
    actions: Seq<Action>,
    user_id: Uid,
    id: ConsumerId,
)
    requires
        moved(pre, input, post, actions),
        post.peers.contains_key(user_id.0),
        post.peers[user_id.0].consumers.contains(id.0),
        !(pre.peers.contains_key(user_id.0) && pre.peers[user_id.0].consumers.contains(id.0)),
    ensures
        input matches Input::Consumed { offer, .. } && {
            &&& offer.consumer_peer_id == user_id
            &&& actions.contains(
                Action::WatchConsumer {
                    consumer_id: id,
                    tx: pre.peers[user_id.0].tx,
                    producer_peer_id: offer.producer_peer_id,
                },
            )
        },
{
    if actions.len() > 0 {
        assert(actions.contains(actions[0]));
    }
}

/// A consumer that could not be made changes nothing. One that was made for someone who is not
/// in the room, or cannot receive, is closed, and that is all.
pub proof fn law_a_stray_consumer_is_closed(
    pre: RoomView,
    offer: Offer,
    consumer: Option<NewConsumer>,
    post: RoomView,
    actions: Seq<Action>,
)
    requires
        moved(pre, Input::Consumed { offer, consumer }, post, actions),
    ensures
        consumer is None ==> idle(pre, post, actions),
        consumer is Some && !(pre.peers.contains_key(offer.consumer_peer_id.0)
            && pre.peers[offer.consumer_peer_id.0].rtp_caps is Some) ==> {
            &&& post == pre
            &&& actions.len() == 1
            &&& actions[0] == (Action::CloseConsumer { id: consumer->0.id })
        },
{
}

/// A wish for a transport is passed on as it was made: for the same peer, with the same tag, to
/// produce and to consume on as the peer said. Only who insists on TCP has UDP switched off;
/// everyone else gets the media layer's defaults. Whoever is in the room may ask.
pub proof fn law_a_wish_for_a_transport_is_passed_on(
    pre: RoomView,
    tag: Option<String>,
    user_id: Uid,
    force_tcp: Option<bool>,
    produce: bool,
    consume: bool,
    post: RoomView,
    actions: Seq<Action>,
)
    requires
        handled(
            pre,
            Event::CreateRtcTransport { tag, user_id, force_tcp, produce, consume },
            post,
            actions,
        ),
    ensures
        post == pre,
        actions.len() <= 1,
        actions.len() == 1 <==> pre.peers.contains_key(user_id.0),
        actions.len() == 1 ==> (actions[0] matches Action::CreateTransport {
            user_id: owner,
            tag: t,
            options,
            produce: p,
            consume: c,
        } && {
            &&& owner == user_id
            &&& t == tag
            &&& p == produce
            &&& c == consume
            &&& force_tcp == Some(true) ==> options.enable_udp == Some(false) && options.enable_tcp
                == Some(true)
            &&& force_tcp != Some(true) ==> options.enable_udp is None && options.enable_tcp is None
        }),
{
}

/// A transport that was made is kept, for the uses that it was asked for, beside those that the
/// peer had, and the peer is told the media layer's side of it with the tag that it was asked
/// for under. For someone who is not in the room it is closed, and that is all.
pub proof fn law_a_new_transport_is_entered_and_announced(
    pre: RoomView,
    user_id: Uid,
    tag: Option<String>,
    produce: bool,
    consume: bool,
    transport: NewTransport,
    post: RoomView,
    actions: Seq<Action>,
)
    requires
        moved(
            pre,
            Input::TransportCreated { user_id, tag, produce, consume, transport },
            post,
            actions,
        ),
    ensures
        actions.len() == 1,
        pre.peers.contains_key(user_id.0) ==> {
            let was = pre.peers[user_id.0];
            let is = post.peers[user_id.0];
            &&& touched_only(pre, user_id, post)
            &&& is.transports.contains_key(transport.id.0)
            &&& is.transports[transport.id.0].produce == produce
            &&& is.transports[transport.id.0].consume == consume
            &&& forall|other: u128|
                other != transport.id.0 ==> {
                    &&& #[trigger] is.transports.contains_key(other)
                        <==> was.transports.contains_key(other)
                    &&& was.transports.contains_key(other) ==> is.transports[other]
                        == was.transports[other]
                }
            &&& is.tx == was.tx
            &&& is.joined == was.joined
            &&& is.rtp_caps == was.rtp_caps
            &&& is.producers == was.producers
            &&& is.consumers == was.consumers
            &&& actions[0] is Send
            &&& actions[0]->Send_tx == was.tx
            &&& actions[0]->Send_event matches PeerEvent::OnNewTransport {
                tag: t,
                id,
                ice_candidates,
                ice_params,
                dtls_params,
            } && {
                &&& t == tag
                &&& id == transport.id
                &&& ice_candidates == transport.ice_candidates
                &&& ice_params == transport.ice_params
                &&& dtls_params == transport.dtls_params
            }
        },
        !pre.peers.contains_key(user_id.0) ==> {
            &&& post == pre
            &&& actions[0] == (Action::CloseTransport { id: transport.id })
        },
{
}

/// Who asks for a transport to consume on can be offered media as soon as the media layer has
/// made the transport that the room asked for; the same of producing.
pub proof fn law_a_transport_serves_what_it_was_asked_for(
    pre: RoomView,
    tag: Option<String>,
    user_id: Uid,
    force_tcp: Option<bool>,
    produce: bool,
    consume: bool,
    asked: Seq<Action>,
    transport: NewTransport,
    post: RoomView,
    told: Seq<Action>,
)
    requires
        pre.peers.contains_key(user_id.0),
        handled(
            pre,
            Event::CreateRtcTransport { tag, user_id, force_tcp, produce, consume },
            pre,
            asked,
        ),
        moved(
            pre,
            Input::TransportCreated {
                user_id: asked[0]->CreateTransport_user_id,
                tag: asked[0]->CreateTransport_tag,
                produce: asked[0]->CreateTransport_produce,
                consume: asked[0]->CreateTransport_consume,
                transport,
            },
            post,
            told,
        ),
    ensures
        post.peers[user_id.0].transports.contains_key(transport.id.0),
        post.peers[user_id.0].transports[transport.id.0].consume == consume,
        post.peers[user_id.0].transports[transport.id.0].produce == produce,
        told.len() == 1,
        told[0]->Send_event->OnNewTransport_tag == tag,
{
}

/// A transport is connected with the very parameters that its owner sends, and only for its
/// owner.
pub proof fn law_transports_are_connected_for_their_owner(
    pre: RoomView,
    user_id: Uid,
    transport_id: TransportId,
    dtls_params: DtlsParameters,
    post: RoomView,
    actions: Seq<Action>,
)
    requires
        handled(
            pre,
            Event::ConnectRtcTransport { user_id, transport_id, dtls_params },
            post,
            actions,
        ),
    ensures
        post == pre,
        actions.len() <= 1,
        actions.len() == 1 <==> pre.peers.contains_key(user_id.0)
            && pre.peers[user_id.0].transports.contains_key(transport_id.0),
        actions.len() == 1 ==> (actions[0] matches Action::ConnectTransport {
            transport_id: on,
            dtls_params: with,
        } && on == transport_id && with == dtls_params),
{
}

/// A transport's ICE is restarted for its owner only, who is then told the new parameters, on
/// its own channel, where there are any.
pub proof fn law_ice_is_restarted_for_its_owner(
    pre: RoomView,
    user_id: Uid,
    transport_id: TransportId,
    post: RoomView,
    actions: Seq<Action>,
    ice_params: Option<IceParameters>,
    last: RoomView,
    told: Seq<Action>,
)
    requires
        handled(pre, Event::RestartIce { user_id, transport_id }, post, actions),
        moved(post, Input::IceRestarted { user_id, ice_params }, last, told),
    ensures
        post == pre,
        last == pre,
        actions.len() <= 1,
        actions.len() == 1 <==> pre.peers.contains_key(user_id.0)
            && pre.peers[user_id.0].transports.contains_key(transport_id.0),
        actions.len() == 1 ==> (actions[0] matches Action::RestartIce {
            user_id: owner,
            transport_id: on,
        } && owner == user_id && on == transport_id),
        told.len() <= 1,
        told.len() == 1 <==> ice_params is Some && pre.peers.contains_key(user_id.0),
        told.len() == 1 ==> {
            &&& told[0] is Send
            &&& told[0]->Send_tx == pre.peers[user_id.0].tx
            &&& told[0]->Send_event == (PeerEvent::IceRestarted { ice_params: ice_params->0 })
        },
{
}

/// `user_id` has joined and has the producer.
pub open spec fn owns_producer(room: RoomView, user_id: Uid, id: ProducerId) -> bool {
    &&& room.peers.contains_key(user_id.0)
    &&& room.peers[user_id.0].joined
    &&& room.peers[user_id.0].producers.contains_key(id.0)
}

/// `user_id` has joined and has the consumer.
pub open spec fn owns_consumer(room: RoomView, user_id: Uid, id: ConsumerId) -> bool {
    &&& room.peers.contains_key(user_id.0)
    &&& room.peers[user_id.0].joined
    &&& room.peers[user_id.0].consumers.contains(id.0)
}

/// A producer is paused by a pause, resumed by a resume and closed by a close, by its owner in
/// the conversation and nobody else; pausing and resuming leave the room as it is.
pub proof fn law_producers_obey_their_owner(
    pre: RoomView,
    user_id: Uid,
    id: ProducerId,
    event: Event,
    post: RoomView,
    actions: Seq<Action>,
)
    requires
        handled(pre, event, post, actions),
        event == (Event::PauseProducer { producer_peer_id: user_id, id }) || event
            == (Event::ResumeProducer { producer_peer_id: user_id, id }) || event
            == (Event::CloseProducer { producer_peer_id: user_id, id }),
    ensures
        !owns_producer(pre, user_id, id) ==> idle(pre, post, actions),
        owns_producer(pre, user_id, id) ==> {
            &&& actions.len() == 1
            &&& event is PauseProducer ==> post == pre && actions[0] == (Action::PauseProducer {
                id,
            })
            &&& event is ResumeProducer ==> post == pre && actions[0] == (Action::ResumeProducer {
                id,
            })
            &&& event is CloseProducer ==> {
                let was = pre.peers[user_id.0];
                let is = post.peers[user_id.0];
                &&& actions[0] == (Action::CloseProducer { id })
                &&& touched_only(pre, user_id, post)
                &&& forall|other: u128| #[trigger]
                    is.producers.contains_key(other) <==> was.producers.contains_key(other)
                        && other != id.0
                &&& forall|other: u128| #[trigger]
                    is.producers.contains_key(other) ==> is.producers[other]
                        == was.producers[other]
                &&& is.tx == was.tx
                &&& is.joined
                &&& is.rtp_caps == was.rtp_caps
                &&& is.transports == was.transports
                &&& is.consumers == was.consumers
            }
        },
{
}

/// A consumer is paused by a pause and resumed by a resume, and gets the layers and the priority
/// that it is given, by its owner in the conversation and nobody else.
pub proof fn law_consumers_obey_their_owner(
    pre: RoomView,
    user_id: Uid,
    id: ConsumerId,
    spatial: u8,
    temporal: u8,
    priority: u8,
    event: Event,
    post: RoomView,
    actions: Seq<Action>,
)
    requires
        handled(pre, event, post, actions),
        event == (Event::PauseConsumer { consumer_peer_id: user_id, id }) || event
            == (Event::ResumeConsumer { consumer_peer_id: user_id, id }) || event
            == (Event::SetConsumerLayers { user_id, consumer_id: id, spatial, temporal }) || event
            == (Event::SetConsumerPriority { user_id, consumer_id: id, priority }),
    ensures
        post == pre,
        !owns_consumer(pre, user_id, id) ==> actions.len() == 0,
        owns_consumer(pre, user_id, id) ==> {
            &&& actions.len() == 1
            &&& event is PauseConsumer ==> actions[0] == (Action::PauseConsumer { id })
            &&& event is ResumeConsumer ==> actions[0] == (Action::ResumeConsumer { id })
            &&& event is SetConsumerLayers ==> (actions[0] matches Action::SetPreferredLayers {
                id: of,
                layers,
            } && of == id && layers.spatial_layer == spatial && layers.temporal_layer == Some(
                temporal,
            ))
            &&& event is SetConsumerPriority ==> (actions[0] matches Action::SetPriority {
                id: of,
                priority: p,
            } && of == id && p == priority)
        },
{
}

/// A consumer that has lost its transport or its producer is closed and forgotten, joined or
/// not, and nothing else of its owner changes. Who does not have it loses nothing.
pub proof fn law_lost_consumers_are_dropped(
    pre: RoomView,
    user_id: Uid,
    id: ConsumerId,
    event: Event,
    post: RoomView,
    actions: Seq<Action>,
)
    requires
        handled(pre, event, post, actions),
        event == (Event::OnProducerClose { consumer_peer_id: user_id, consumer_id: id }) || event
            == (Event::OnConsumerTransportClose { user_id, consumer_id: id }),
    ensures
        !(pre.peers.contains_key(user_id.0) && pre.peers[user_id.0].consumers.contains(id.0))
            ==> idle(pre, post, actions),
        pre.peers.contains_key(user_id.0) && pre.peers[user_id.0].consumers.contains(id.0) ==> {
            let was = pre.peers[user_id.0];
            let is = post.peers[user_id.0];
            &&& actions.len() == 1
            &&& actions[0] == (Action::CloseConsumer { id })
            &&& touched_only(pre, user_id, post)
            &&& forall|other: u128| #[trigger]
                is.consumers.contains(other) <==> was.consumers.contains(other) && other != id.0
            &&& is.tx == was.tx
            &&& is.joined == was.joined
            &&& is.rtp_caps == was.rtp_caps
            &&& is.transports == was.transports
            &&& is.producers == was.producers
        },
{
}

/// Word of who is loud changes nothing, and neither does a forced close, which ends the room as
/// it is.
pub proof fn law_some_events_leave_a_room_alone(
    pre: RoomView,
    event: Event,
    post: RoomView,
    actions: Seq<Action>,
)
    requires
        handled(pre, event, post, actions),
        event is OnAudioLevelsChange || event is KillAll,
    ensures
        idle(pre, post, actions),
{
}

/// Who leaves is gone, everyone else stays as they were, and who was not there changes nothing by
/// leaving.
pub proof fn law_leavers_are_gone(
    pre: RoomView,
    user_id: Uid,
    post: RoomView,
    actions: Seq<Action>,
)
    requires
        handled(pre, Event::Leave { user_id }, post, actions),
    ensures
        !post.peers.contains_key(user_id.0),
        post.id == pre.id,
        post.rtp_caps == pre.rtp_caps,
        forall|other: u64|
            other != user_id.0 ==> {
                &&& #[trigger] post.peers.contains_key(other) <==> pre.peers.contains_key(other)
                &&& pre.peers.contains_key(other) ==> post.peers[other] == pre.peers[other]
            },
        !pre.peers.contains_key(user_id.0) ==> idle(pre, post, actions),
{
}

/// The kinds of things that are closed, in the order in which they are.
pub open spec fn closing_rank(action: Action) -> int {
    match action {
        Action::CloseTransport { .. } => 0,
        Action::CloseConsumer { .. } => 1,
        Action::CloseProducer { .. } => 2,
        _ => 3,
    }
}

/// The parts of a leave's actions, item by item.
proof fn lemma_leave_shape(
    pre: RoomView,
    user_id: Uid,
    post: RoomView,
    actions: Seq<Action>,
) -> (r: (Seq<Uid>, Seq<u128>, Seq<u128>, Seq<u128>))
    requires
        handled(pre, Event::Leave { user_id }, post, actions),
        pre.peers.contains_key(user_id.0),
    ensures
        lists(r.0, pre.told_of_leave(user_id)),
        lists(r.1, pre.peers[user_id.0].transports.dom()),
        lists(r.2, pre.peers[user_id.0].consumers),
        lists(r.3, pre.peers[user_id.0].producers.dom()),
        actions.len() == r.0.len() + 1 + r.1.len() + r.2.len() + r.3.len(),
        forall|i: int|
            0 <= i < r.0.len() ==> #[trigger] actions[i] == (Action::Send {
                tx: pre.peers[r.0[i].0].tx,
                event: PeerEvent::PeerLeft { id: user_id },
            }),
        actions[r.0.len() as int] == (Action::Forget { tx: pre.peers[user_id.0].tx }),
        ({
            let t = r.0.len() + 1;
            let c = t + r.1.len();
            let p = c + r.2.len();
            &&& forall|i: int|
                t <= i < c ==> #[trigger] actions[i] == (Action::CloseTransport {
                    id: TransportId(r.1[i - t]),
                })
            &&& forall|i: int|
                c <= i < p ==> #[trigger] actions[i] == (Action::CloseConsumer {
                    id: ConsumerId(r.2[i - c]),
                })
            &&& forall|i: int|
                p <= i < actions.len() ==> #[trigger] actions[i] == (Action::CloseProducer {
                    id: ProducerId(r.3[i - p]),
                })
        }),
{
    let peer = pre.peers[user_id.0];
    let (told, rest) = choose|told: Seq<Uid>, rest: Seq<Action>|
        leave_plan(pre, user_id, told, rest, actions);
    let (ts, cs, ps) = choose|ts: Seq<u128>, cs: Seq<u128>, ps: Seq<u128>|
        {
            &&& #[trigger] lists(ts, peer.transports.dom())
            &&& #[trigger] lists(cs, peer.consumers)
            &&& #[trigger] lists(ps, peer.producers.dom())
            &&& rest =~= seq![Action::Forget { tx: peer.tx }] + closing(ts, cs, ps)
        };
    (told, ts, cs, ps)
}

/// A leave goes in two parts, around the point where the leaver's own channel is let go. Before
/// it stand the news to the others, and only those: everyone else is told who has left, if the
/// leaver had joined, and nobody is, if it had not. After it everything that the leaver held is
/// closed, once, transports before consumers before producers, and nothing else is.
#[verifier::rlimit(60)]
pub proof fn law_a_leave_is_told_and_cleared_up(
    pre: RoomView,
    user_id: Uid,
    post: RoomView,
    actions: Seq<Action>,
) -> (k: int)
    requires
        handled(pre, Event::Leave { user_id }, post, actions),
        pre.peers.contains_key(user_id.0),
    ensures
        0 <= k < actions.len(),
        actions[k] == (Action::Forget { tx: pre.peers[user_id.0].tx }),
        !pre.peers[user_id.0].joined ==> k == 0,
        forall|i: int|
            0 <= i < k ==> {
                &&& #[trigger] actions[i] is Send
                &&& actions[i]->Send_event == (PeerEvent::PeerLeft { id: user_id })
                &&& exists|other: Uid|
                    other != user_id && #[trigger] pre.peers.contains_key(other.0)
                        && pre.peers[other.0].tx == actions[i]->Send_tx
            },
        pre.peers[user_id.0].joined ==> forall|other: Uid|
            other != user_id && #[trigger] pre.peers.contains_key(other.0) ==> actions.contains(
                Action::Send {
                    tx: pre.peers[other.0].tx,
                    event: PeerEvent::PeerLeft { id: user_id },
                },
            ),
        forall|i: int|
            k < i < actions.len() ==> match #[trigger] actions[i] {
                Action::CloseTransport { id } => pre.peers[user_id.0].transports.contains_key(id.0),
                Action::CloseConsumer { id } => pre.peers[user_id.0].consumers.contains(id.0),
                Action::CloseProducer { id } => pre.peers[user_id.0].producers.contains_key(id.0),
                _ => false,
            },
        forall|id: u128| #[trigger]
            pre.peers[user_id.0].transports.contains_key(id) ==> actions.contains(
                Action::CloseTransport { id: TransportId(id) },
            ),
        forall|id: u128| #[trigger]
            pre.peers[user_id.0].consumers.contains(id) ==> actions.contains(
                Action::CloseConsumer { id: ConsumerId(id) },
            ),
        forall|id: u128| #[trigger]
            pre.peers[user_id.0].producers.contains_key(id) ==> actions.contains(
                Action::CloseProducer { id: ProducerId(id) },
            ),
        forall|i: int, j: int|
            k < i < j < actions.len() ==> closing_rank(#[trigger] actions[i]) <= closing_rank(
                #[trigger] actions[j],
            ) && actions[i] != actions[j],
        channels_differ(pre) ==> actions.no_duplicates(),
{
    let peer = pre.peers[user_id.0];
    let (told, ts, cs, ps) = lemma_leave_shape(pre, user_id, post, actions);
    let k = told.len() as int;
    let c = k + 1 + ts.len();
    let p = c + cs.len();
    assert forall|i: int| 0 <= i < k implies pre.told_of_leave(user_id).contains(
        #[trigger] told[i],
    ) by {
        assert(told.contains(told[i]));
    }
    if !peer.joined && k > 0 {
        assert(told.contains(told[0]));
    }
    assert forall|i: int| 0 <= i < k implies {
        &&& #[trigger] actions[i] is Send
        &&& actions[i]->Send_event == (PeerEvent::PeerLeft { id: user_id })
        &&& exists|other: Uid|
            other != user_id && #[trigger] pre.peers.contains_key(other.0)
                && pre.peers[other.0].tx == actions[i]->Send_tx
    } by {
        assert(pre.told_of_leave(user_id).contains(told[i]));
        assert(pre.peers.contains_key(told[i].0));
    }
    if peer.joined {
        assert forall|other: Uid|
            other != user_id && #[trigger] pre.peers.contains_key(other.0) implies actions.contains(
            Action::Send {
                tx: pre.peers[other.0].tx,
                event: PeerEvent::PeerLeft { id: user_id },
            },
        ) by {
            assert(pre.told_of_leave(user_id).contains(other));
            assert(told.contains(other));
            let j = choose|j: int| 0 <= j < told.len() && told[j] == other;
            assert(actions[j] is Send);
        }
    }
    assert forall|i: int| k < i < actions.len() implies match #[trigger] actions[i] {
        Action::CloseTransport { id } => peer.transports.contains_key(id.0),
        Action::CloseConsumer { id } => peer.consumers.contains(id.0),
        Action::CloseProducer { id } => peer.producers.contains_key(id.0),
        _ => false,
    } by {
        if i < c {
            assert(ts.contains(ts[i - k - 1]));
        } else if i < p {
            assert(cs.contains(cs[i - c]));
        } else {
            assert(ps.contains(ps[i - p]));
        }
    }
    assert forall|id: u128| #[trigger] peer.transports.contains_key(id) implies actions.contains(
        Action::CloseTransport { id: TransportId(id) },
    ) by {
        assert(ts.contains(id));
        let j = choose|j: int| 0 <= j < ts.len() && ts[j] == id;
        assert(actions[k + 1 + j] is CloseTransport);
    }
    assert forall|id: u128| #[trigger] peer.consumers.contains(id) implies actions.contains(
        Action::CloseConsumer { id: ConsumerId(id) },
    ) by {
        assert(cs.contains(id));
        let j = choose|j: int| 0 <= j < cs.len() && cs[j] == id;
        assert(actions[c + j] is CloseConsumer);
    }
    assert forall|id: u128| #[trigger] peer.producers.contains_key(id) implies actions.contains(
        Action::CloseProducer { id: ProducerId(id) },
    ) by {
        assert(ps.contains(id));
        let j = choose|j: int| 0 <= j < ps.len() && ps[j] == id;
        assert(actions[p + j] is CloseProducer);
    }
    assert forall|i: int, j: int| k < i < j < actions.len() implies closing_rank(
        #[trigger] actions[i],
    ) <= closing_rank(#[trigger] actions[j]) && actions[i] != actions[j] by {
        if j < c {
            assert(ts[i - k - 1] != ts[j - k - 1]);
        } else if c <= i && j < p {
            assert(cs[i - c] != cs[j - c]);
        } else if p <= i {
            assert(ps[i - p] != ps[j - p]);
        }
    }
    if channels_differ(pre) {
        assert forall|i: int, j: int| 0 <= i < j < actions.len() implies actions[i]
            != actions[j] by {
            if j < k {
                assert(told[i] != told[j]);
                assert(pre.told_of_leave(user_id).contains(told[i]));
                assert(pre.told_of_leave(user_id).contains(told[j]));
                assert(actions[i] is Send && actions[j] is Send);
            } else if i < k {
                assert(actions[i] is Send && actions[j] !is Send);
            } else if i == k {
                assert(actions[j] !is Forget);
            }
        }
    }
    k
}

/// What a client asks for is what the media layer is asked for: from the client's message to
/// the room's action nothing is added, lost or exchanged.
pub proof fn law_clients_get_what_they_ask_for(
    pre: RoomView,
    user_id: Uid,
    msg: Client2Server,
    post: RoomView,
    actions: Seq<Action>,
)
    requires
        handled(pre, request_of(user_id, msg), post, actions),
        pre.peers.contains_key(user_id.0),
        pre.peers[user_id.0].joined,
    ensures
        match msg {
            Client2Server::CreateRtcTransport { tag, force_tcp, produce, consume } => {
                &&& actions.len() == 1
                &&& actions[0] is CreateTransport
                &&& actions[0]->CreateTransport_user_id == user_id
                &&& actions[0]->CreateTransport_tag == tag
                &&& actions[0]->CreateTransport_produce == produce
                &&& actions[0]->CreateTransport_consume == consume
                &&& actions[0]->CreateTransport_options.enable_udp == Some(false) <==> force_tcp
                    == Some(true)
            },
            Client2Server::ConnectRtcTransport { id, dtls_params } =>
                pre.peers[user_id.0].transports.contains_key(id.0) ==> {
                    &&& actions.len() == 1
                    &&& actions[0] is ConnectTransport
                    &&& actions[0]->ConnectTransport_transport_id == id
                    &&& actions[0]->ConnectTransport_dtls_params == dtls_params
                },
            Client2Server::RestartIce { transport_id } =>
                pre.peers[user_id.0].transports.contains_key(transport_id.0) ==> {
                    &&& actions.len() == 1
                    &&& actions[0] is RestartIce
                    &&& actions[0]->RestartIce_user_id == user_id
                    &&& actions[0]->RestartIce_transport_id == transport_id
                },
            Client2Server::Join { .. } => idle(pre, post, actions),
            Client2Server::Produce { transport_id, kind, rtp_params, is_share } =>
                pre.peers[user_id.0].transports.contains_key(transport_id.0) ==> {
                    &&& actions.len() == 1
                    &&& actions[0] is Produce
                    &&& actions[0]->Produce_user_id == user_id
                    &&& actions[0]->Produce_transport_id == transport_id
                    &&& actions[0]->Produce_options.kind == kind
                    &&& actions[0]->Produce_options.rtp_parameters == rtp_params
                    &&& actions[0]->Produce_is_share == is_share
                },
            Client2Server::CloseProducer { id } =>
                pre.peers[user_id.0].producers.contains_key(id.0) ==> {
                    &&& actions.len() == 1
                    &&& actions[0] == (Action::CloseProducer { id })
                    &&& !post.peers[user_id.0].producers.contains_key(id.0)
                },
            Client2Server::PauseProducer { id } =>
                pre.peers[user_id.0].producers.contains_key(id.0) ==> {
                    &&& actions.len() == 1
                    &&& actions[0] == (Action::PauseProducer { id })
                },
            Client2Server::ResumeProducer { id } =>
                pre.peers[user_id.0].producers.contains_key(id.0) ==> {
                    &&& actions.len() == 1
                    &&& actions[0] == (Action::ResumeProducer { id })
                },
        },
{
}

/// A new room has the identifier and the router that it was given, and nobody in it.
pub proof fn law_a_new_room_is_empty(id: Uid, rtp_caps: RtpCapabilitiesFinalized, room: Room)
    requires
        call_ensures(Room::new, (id, rtp_caps), room),
    ensures
        room@.id == id,
        room@.rtp_caps == rtp_caps,
        forall|u: u64| !(#[trigger] room@.peers.contains_key(u)),
{
}

/// `Room::handle` keeps to the rules. It ends the room on a forced close, and on a leave after
/// which nobody is there; on nothing else.
pub proof fn law_events_are_handled_by_the_rules(room: &mut Room, event: Event, step: Step)
    requires
        call_ensures(Room::handle, (room, event), step),
    ensures
        handled(old(room)@, event, final(room)@, step.actions@),
        event is KillAll ==> step.done,
        event is Leave ==> (step.done <==> forall|u: u64|
            !(#[trigger] final(room)@.peers.contains_key(u))),
        !(event is KillAll) && !(event is Leave) ==> !step.done,
{
    if event is Leave && !step.done {
        if forall|u: u64| !(#[trigger] final(room)@.peers.contains_key(u)) {
            assert(final(room)@.peers =~= Map::empty());
        }
    }
    if event is Leave && step.done {
        assert(final(room)@.peers.dom() =~= Set::empty());
    }
}

/// `Room::can_consume` keeps to the rules.
pub proof fn law_routability_is_answered_by_the_rules(
    room: Room,
    offer: Offer,
    can_consume: bool,
    actions: Vec<Action>,
)
    requires
        call_ensures(Room::can_consume, (&room, offer, can_consume), actions),
    ensures
        moved(room@, Input::CanConsume { offer, can_consume }, room@, actions@),
{
}

/// `Room::consumed` keeps to the rules.
pub proof fn law_consumers_are_taken_in_by_the_rules(
    room: &mut Room,
    offer: Offer,
    consumer: Option<NewConsumer>,
    actions: Vec<Action>,
)
    requires
        call_ensures(Room::consumed, (room, offer, consumer), actions),
    ensures
        moved(old(room)@, Input::Consumed { offer, consumer }, final(room)@, actions@),
{
}

/// `Room::produced` keeps to the rules.
pub proof fn law_producers_are_taken_in_by_the_rules(
    room: &mut Room,
    user_id: Uid,
    is_share: bool,
    producer: Option<ProducerId>,
    actions: Vec<Action>,
)
    requires
        call_ensures(Room::produced, (room, user_id, is_share, producer), actions),
    ensures
        moved(old(room)@, Input::Produced { user_id, is_share, producer }, final(room)@, actions@),
{
}

/// `Room::transport_created` keeps to the rules.
pub proof fn law_transports_are_taken_in_by_the_rules(
    room: &mut Room,
    user_id: Uid,
    tag: Option<String>,
    produce: bool,
    consume: bool,
    transport: NewTransport,
    actions: Vec<Action>,
)
    requires
        call_ensures(
            Room::transport_created,
            (room, user_id, tag, produce, consume, transport),
            actions,
        ),
    ensures
        moved(
            old(room)@,
            Input::TransportCreated { user_id, tag, produce, consume, transport },
            final(room)@,
            actions@,
        ),
{
}

/// `Room::ice_restarted` keeps to the rules.
pub proof fn law_restarts_are_answered_by_the_rules(
    room: Room,
    user_id: Uid,
    ice_params: Option<IceParameters>,
    actions: Vec<Action>,
)
    requires
        call_ensures(Room::ice_restarted, (&room, user_id, ice_params), actions),
    ensures
        moved(room@, Input::IceRestarted { user_id, ice_params }, room@, actions@),
{
}

} // verus!
